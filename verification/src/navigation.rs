//! Pane focus and fullscreen: the state machine that pad actions drive.
//!
//! The display has a top row of three panes (`Flight`, `Att`, `Systems`), a
//! stack of two charts below it (`IasChart` above `AltChart`), and the
//! `Inputs` pane, which has no place in the normal layout.

use vstd::prelude::*;
use crate::pane::Pane;

verus! {

/// A logical navigation command.
#[derive(Debug, Clone, Copy, PartialEq, Eq, Structural)]
pub enum PadAction {
    Up,
    Down,
    Left,
    Right,
    /// Toggles fullscreen on the focused pane.
    Select,
    Unknown,
}

impl PadAction {
    /// The four actions that move the focus.
    pub open spec fn is_move(self) -> bool {
        self is Up || self is Down || self is Left || self is Right
    }
}

/// Column of a top-row pane, left to right.
pub open spec fn top_row_column(p: Pane) -> int
    recommends
        is_top_row(p),
{
    match p {
        Pane::Flight => 0,
        Pane::Att => 1,
        _ => 2,
    }
}

/// The top-row pane in column `c`.
pub open spec fn top_row_pane(c: int) -> Pane
    recommends
        0 <= c < 3,
{
    if c == 0 {
        Pane::Flight
    } else if c == 1 {
        Pane::Att
    } else {
        Pane::Systems
    }
}

pub open spec fn is_top_row(p: Pane) -> bool {
    p is Flight || p is Att || p is Systems
}

pub open spec fn is_chart(p: Pane) -> bool {
    p is IasChart || p is AltChart
}

/// A pane that the normal layout shows.
pub open spec fn is_visible(p: Pane) -> bool {
    is_top_row(p) || is_chart(p)
}

/// Where the focus goes from `focused` under `dir`.
///
/// Left and Right rotate through the top row and wrap at both ends; on a
/// chart they do nothing. Down enters the first chart from the top row, then
/// steps to the second and stays there. Up steps back through the charts and
/// leaves the first chart for `Flight`. From `Inputs` every move leads back
/// to a visible pane. Select and Unknown never move the focus.
pub open spec fn spec_move_focus(focused: Pane, dir: PadAction) -> Pane {
    match dir {
        PadAction::Left => if is_top_row(focused) {
            top_row_pane((top_row_column(focused) + 2) % 3)
        } else if is_chart(focused) {
            focused
        } else {
            Pane::Flight
        },
        PadAction::Right => if is_top_row(focused) {
            top_row_pane((top_row_column(focused) + 1) % 3)
        } else if is_chart(focused) {
            focused
        } else {
            Pane::Flight
        },
        PadAction::Up => if focused is AltChart {
            Pane::IasChart
        } else if is_top_row(focused) {
            focused
        } else {
            Pane::Flight
        },
        PadAction::Down => if is_chart(focused) {
            Pane::AltChart
        } else {
            Pane::IasChart
        },
        PadAction::Select | PadAction::Unknown => focused,
    }
}

pub fn move_focus(focused: Pane, dir: PadAction) -> (p: Pane)
    ensures
        p == spec_move_focus(focused, dir),
        dir.is_move() ==> is_visible(p),
        !dir.is_move() ==> p == focused,
{
    match dir {
        PadAction::Left => match focused {
            Pane::Flight => Pane::Systems,
            Pane::Att => Pane::Flight,
            Pane::Systems => Pane::Att,
            Pane::IasChart | Pane::AltChart => focused,
            Pane::Inputs => Pane::Flight,
        },
        PadAction::Right => match focused {
            Pane::Flight => Pane::Att,
            Pane::Att => Pane::Systems,
            Pane::Systems => Pane::Flight,
            Pane::IasChart | Pane::AltChart => focused,
            Pane::Inputs => Pane::Flight,
        },
        PadAction::Up => match focused {
            Pane::IasChart => Pane::Flight,
            Pane::AltChart => Pane::IasChart,
            Pane::Inputs => Pane::Flight,
            Pane::Flight | Pane::Att | Pane::Systems => focused,
        },
        PadAction::Down => match focused {
            Pane::Flight | Pane::Att | Pane::Systems => Pane::IasChart,
            Pane::IasChart => Pane::AltChart,
            Pane::AltChart => Pane::AltChart,
            Pane::Inputs => Pane::IasChart,
        },
        PadAction::Select | PadAction::Unknown => focused,
    }
}

/// Which pane has the focus, and which one, if any, fills the screen.
#[derive(Debug, Clone, Copy, PartialEq, Eq, Structural)]
pub struct NavigationState {
    pub focused: Pane,
    pub fullscreen: Option<Pane>,
}

impl NavigationState {
    /// The state after `action`: Select toggles fullscreen on the focused
    /// pane, a move changes the focus and leaves fullscreen alone, Unknown
    /// changes nothing.
    pub open spec fn spec_apply(self, action: PadAction) -> NavigationState {
        match action {
            PadAction::Select => NavigationState {
                focused: self.focused,
                fullscreen: if self.fullscreen == Some(self.focused) {
                    None
                } else {
                    Some(self.focused)
                },
            },
            PadAction::Unknown => self,
            _ => NavigationState {
                focused: spec_move_focus(self.focused, action),
                fullscreen: self.fullscreen,
            },
        }
    }

    /// The state after each action of `actions` in turn.
    pub open spec fn spec_apply_all(self, actions: Seq<PadAction>) -> NavigationState
        decreases actions.len(),
    {
        if actions.len() == 0 {
            self
        } else {
            self.spec_apply_all(actions.drop_last()).spec_apply(actions.last())
        }
    }

    /// Focus on `Flight`, nothing fullscreen.
    pub fn new() -> (nav: NavigationState)
        ensures
            nav.focused == Pane::Flight,
            nav.fullscreen is None,
    {
        NavigationState { focused: Pane::Flight, fullscreen: None }
    }

    pub fn apply(self, action: PadAction) -> (next: NavigationState)
        ensures
            next == self.spec_apply(action),
    {
        match action {
            PadAction::Select => {
                let on_focused = match self.fullscreen {
                    Some(p) => p == self.focused,
                    None => false,
                };
                NavigationState {
                    focused: self.focused,
                    fullscreen: if on_focused {
                        None
                    } else {
                        Some(self.focused)
                    },
                }
            },
            PadAction::Up | PadAction::Down | PadAction::Left | PadAction::Right => {
                NavigationState {
                    focused: move_focus(self.focused, action),
                    fullscreen: self.fullscreen,
                }
            },
            PadAction::Unknown => self,
        }
    }
}

/// Three steps to the right from any top-row pane, or three to the left,
/// end on the pane they started from.
pub proof fn lemma_top_row_is_a_cycle(p: Pane)
    requires
        is_top_row(p),
    ensures
        spec_move_focus(
            spec_move_focus(spec_move_focus(p, PadAction::Right), PadAction::Right),
            PadAction::Right,
        ) == p,
        spec_move_focus(
            spec_move_focus(spec_move_focus(p, PadAction::Left), PadAction::Left),
            PadAction::Left,
        ) == p,
        spec_move_focus(spec_move_focus(p, PadAction::Right), PadAction::Left) == p,
{
}

/// Right applied three times to a state focused on the top row gives the
/// state back.
pub proof fn lemma_right_three_times(nav: NavigationState)
    requires
        is_top_row(nav.focused),
    ensures
        nav.spec_apply(PadAction::Right).spec_apply(PadAction::Right).spec_apply(PadAction::Right)
            == nav,
{
    lemma_top_row_is_a_cycle(nav.focused);
}

/// Select applied twice keeps the focus; it leaves fullscreen as it was when
/// fullscreen was unset or set to the focused pane, and unset otherwise.
pub proof fn lemma_select_twice(nav: NavigationState)
    ensures
        nav.spec_apply(PadAction::Select).spec_apply(PadAction::Select).focused == nav.focused,
        nav.fullscreen is None || nav.fullscreen == Some(nav.focused) ==> nav.spec_apply(
            PadAction::Select,
        ).spec_apply(PadAction::Select) == nav,
        nav.spec_apply(PadAction::Select).spec_apply(PadAction::Select).fullscreen is None
            || nav.fullscreen == Some(nav.focused),
{
}

/// A move never leaves the focus on a pane that the layout does not show,
/// and never touches fullscreen.
pub proof fn lemma_move_lands_on_visible_pane(nav: NavigationState, action: PadAction)
    requires
        action.is_move(),
    ensures
        is_visible(nav.spec_apply(action).focused),
        nav.spec_apply(action).fullscreen == nav.fullscreen,
{
}

/// From a state whose focus is visible, no run of actions brings the focus
/// to a pane that the layout does not show.
pub proof fn lemma_focus_stays_visible(nav: NavigationState, actions: Seq<PadAction>)
    requires
        is_visible(nav.focused),
    ensures
        is_visible(nav.spec_apply_all(actions).focused),
    decreases actions.len(),
{
    if actions.len() > 0 {
        lemma_focus_stays_visible(nav, actions.drop_last());
    }
}

} // verus!
