//! What the display consumer decides before it draws: when to redraw and
//! when to quit, which panes go where, and which part of a history or of
//! the input log a pane shows.

use vstd::prelude::*;
use vstd::string::*;
use crate::frame::join_lines;
use crate::history::{newest, HistoryBuffer};
use crate::navigation::NavigationState;
use crate::pane::Pane;

verus! {

/// Time between two redraws, in milliseconds.
pub const TICK_MS: u64 = 100;

/// Number of log lines that the inputs pane shows at most.
pub const INPUT_LINES: usize = 16;

/// Columns that the border of a pane takes from its width.
pub const BORDER_COLUMNS: u16 = 2;

/// A key of the terminal, as far as the consumer tells keys apart.
#[derive(Debug, Clone, Copy, PartialEq, Eq, Structural)]
pub enum TermKey {
    Char(char),
    Esc,
    Other,
}

/// The modifier keys held with a key, as far as the consumer tells them
/// apart.
#[derive(Debug, Clone, Copy, PartialEq, Eq, Structural)]
pub enum Modifiers {
    /// None at all.
    Plain,
    /// Control and nothing else.
    Control,
    /// Any other set.
    Other,
}

/// The keys that end the program: `c` with Control alone, `q` with no
/// modifier, and Escape with any.
pub open spec fn spec_is_quit_key(key: TermKey, modifiers: Modifiers) -> bool {
    ||| key == TermKey::Char('c') && modifiers is Control
    ||| key == TermKey::Char('q') && modifiers is Plain
    ||| key is Esc
}

pub fn is_quit_key(key: TermKey, modifiers: Modifiers) -> (quit: bool)
    ensures
        quit == spec_is_quit_key(key, modifiers),
{
    match (key, modifiers) {
        (TermKey::Char(c), Modifiers::Control) => c == 'c',
        (TermKey::Char(c), Modifiers::Plain) => c == 'q',
        (TermKey::Esc, _) => true,
        _ => false,
    }
}

/// Whether it is time to redraw, `elapsed_ms` after the last redraw.
pub fn redraw_due(elapsed_ms: u64) -> (due: bool)
    ensures
        due == (elapsed_ms >= TICK_MS),
{
    elapsed_ms >= TICK_MS
}

/// A place on the screen below the status line.
#[derive(Debug, Clone, Copy, PartialEq, Eq, Structural)]
pub enum Slot {
    TopLeft,
    TopMiddle,
    TopRight,
    UpperChart,
    LowerChart,
    /// Everything below the status line.
    Full,
}

/// One pane to draw.
#[derive(Debug, Clone, Copy, PartialEq, Eq, Structural)]
pub struct PaneView {
    pub pane: Pane,
    pub slot: Slot,
    /// Whether the border shows that the pane has the focus.
    pub highlighted: bool,
}

/// The panes to draw, in drawing order. With a pane in fullscreen, that
/// pane alone, over the full area and without highlight. Else the three
/// panes of the top row and the two charts, each in its slot, the focused
/// one highlighted.
pub open spec fn spec_layout(nav: NavigationState) -> Seq<PaneView> {
    match nav.fullscreen {
        Some(pane) => seq![PaneView { pane, slot: Slot::Full, highlighted: false }],
        None => seq![
            PaneView {
                pane: Pane::Flight,
                slot: Slot::TopLeft,
                highlighted: nav.focused == Pane::Flight,
            },
            PaneView {
                pane: Pane::Att,
                slot: Slot::TopMiddle,
                highlighted: nav.focused == Pane::Att,
            },
            PaneView {
                pane: Pane::Systems,
                slot: Slot::TopRight,
                highlighted: nav.focused == Pane::Systems,
            },
            PaneView {
                pane: Pane::IasChart,
                slot: Slot::UpperChart,
                highlighted: nav.focused == Pane::IasChart,
            },
            PaneView {
                pane: Pane::AltChart,
                slot: Slot::LowerChart,
                highlighted: nav.focused == Pane::AltChart,
            },
        ],
    }
}

pub fn layout(nav: &NavigationState) -> (views: Vec<PaneView>)
    ensures
        views@ == spec_layout(*nav),
{
    let mut views: Vec<PaneView> = Vec::new();
    match nav.fullscreen {
        Some(pane) => {
            views.push(PaneView { pane, slot: Slot::Full, highlighted: false });
        },
        None => {
            let focused = nav.focused;
            views.push(
                PaneView {
                    pane: Pane::Flight,
                    slot: Slot::TopLeft,
                    highlighted: focused == Pane::Flight,
                },
            );
            views.push(
                PaneView {
                    pane: Pane::Att,
                    slot: Slot::TopMiddle,
                    highlighted: focused == Pane::Att,
                },
            );
            views.push(
                PaneView {
                    pane: Pane::Systems,
                    slot: Slot::TopRight,
                    highlighted: focused == Pane::Systems,
                },
            );
            views.push(
                PaneView {
                    pane: Pane::IasChart,
                    slot: Slot::UpperChart,
                    highlighted: focused == Pane::IasChart,
                },
            );
            views.push(
                PaneView {
                    pane: Pane::AltChart,
                    slot: Slot::LowerChart,
                    highlighted: focused == Pane::AltChart,
                },
            );
        },
    }
    assert(views@ =~= spec_layout(*nav));
    views
}

/// The title on the border of a pane.
pub open spec fn spec_pane_title(pane: Pane) -> Seq<char> {
    match pane {
        Pane::Flight => "Flight"@,
        Pane::Att => "Att/Accel"@,
        Pane::Systems => "Systems"@,
        Pane::Inputs => "Inputs"@,
        Pane::IasChart => "IAS (kt)"@,
        Pane::AltChart => "Altitude MSL (m)"@,
    }
}

pub fn pane_title(pane: Pane) -> (title: &'static str)
    ensures
        title@ == spec_pane_title(pane),
{
    match pane {
        Pane::Flight => "Flight",
        Pane::Att => "Att/Accel",
        Pane::Systems => "Systems",
        Pane::Inputs => "Inputs",
        Pane::IasChart => "IAS (kt)",
        Pane::AltChart => "Altitude MSL (m)",
    }
}

/// Number of samples that a chart of `width` columns shows: one for each
/// column inside its border.
pub open spec fn chart_columns(width: u16) -> nat {
    if width > BORDER_COLUMNS {
        (width - BORDER_COLUMNS) as nat
    } else {
        0
    }
}

/// The samples that a chart of `width` columns shows: the newest ones, one
/// for each column inside the border, oldest first.
pub fn chart_samples(hist: &HistoryBuffer<u64>, width: u16) -> (samples: Vec<u64>)
    ensures
        samples@ == newest(hist@, chart_columns(width)),
{
    let inner: u16 = if width > BORDER_COLUMNS {
        width - BORDER_COLUMNS
    } else {
        0
    };
    let window = hist.last_n(inner as usize);
    let mut samples: Vec<u64> = Vec::new();
    let mut i: usize = 0;
    while i < window.len()
        invariant
            i <= window@.len(),
            window@.len() == newest(hist@, chart_columns(width)).len(),
            forall|k: int|
                0 <= k < window@.len() ==> *#[trigger] window@[k] == newest(
                    hist@,
                    chart_columns(width),
                )[k],
            samples@ == newest(hist@, chart_columns(width)).take(i as int),
        decreases window@.len() - i,
    {
        samples.push(*window[i]);
        i += 1;
        assert(samples@ =~= newest(hist@, chart_columns(width)).take(i as int));
    }
    assert(samples@ =~= newest(hist@, chart_columns(width)));
    samples
}

/// The texts of `lines`.
pub open spec fn texts(lines: Seq<String>) -> Seq<Seq<char>> {
    Seq::new(lines.len(), |i: int| lines[i]@)
}

/// The text of the inputs pane: the newest `INPUT_LINES` lines of the log,
/// oldest first, one below the other.
pub fn recent_inputs(log: &HistoryBuffer<String>) -> (text: String)
    ensures
        text@ == join_lines(texts(newest(log@, INPUT_LINES as nat))),
{
    let window = log.last_n(INPUT_LINES);
    let ghost shown = texts(newest(log@, INPUT_LINES as nat));
    let mut text = String::new();
    let mut i: usize = 0;
    proof {
        assert(shown.take(0) =~= Seq::<Seq<char>>::empty());
    }
    while i < window.len()
        invariant
            i <= window@.len(),
            window@.len() == shown.len(),
            shown == texts(newest(log@, INPUT_LINES as nat)),
            forall|k: int| 0 <= k < window@.len() ==> (#[trigger] window@[k])@ == shown[k],
            text@ == join_lines(shown.take(i as int)),
        decreases window@.len() - i,
    {
        if i > 0 {
            text.push('\n');
        }
        text.append(window[i].as_str());
        i += 1;
        proof {
            let now = shown.take(i as int);
            assert(now.drop_last() =~= shown.take(i - 1));
            assert(now.last() == shown[i - 1]);
            if i == 1 {
                assert(text@ =~= now[0]);
            }
        }
    }
    assert(shown.take(shown.len() as int) =~= shown);
    text
}

} // verus!
