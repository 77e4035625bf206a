//! The fixed table from raw pad button codes to logical actions.
//!
//! The pad has two button groups, one on each side. Each group has five
//! buttons, and the two groups map onto the same five actions, so that the
//! navigation does not depend on the side that was pressed.

use vstd::prelude::*;
use crate::navigation::PadAction;

verus! {

/// Which of the two button groups produced an event.
#[derive(Debug, Clone, Copy, PartialEq, Eq, Structural)]
pub enum Side {
    Left,
    Right,
}

/// Code of the auxiliary axis whose value tells the sides apart.
pub const ABS_MISC: u16 = 40;

/// The raw code of the button that gives `action` on `side`; `None` for
/// Unknown, which no button gives.
pub open spec fn button_code(side: Side, action: PadAction) -> Option<u16> {
    match (side, action) {
        (Side::Left, PadAction::Left) => Some(256u16),
        (Side::Left, PadAction::Right) => Some(257u16),
        (Side::Left, PadAction::Select) => Some(258u16),
        (Side::Left, PadAction::Down) => Some(259u16),
        (Side::Left, PadAction::Up) => Some(264u16),
        (Side::Right, PadAction::Left) => Some(260u16),
        (Side::Right, PadAction::Right) => Some(261u16),
        (Side::Right, PadAction::Select) => Some(262u16),
        (Side::Right, PadAction::Down) => Some(263u16),
        (Side::Right, PadAction::Up) => Some(265u16),
        (_, PadAction::Unknown) => None,
    }
}

/// A code that one of the ten buttons sends.
pub open spec fn is_button_code(code: u16) -> bool {
    256 <= code <= 265
}

/// The action of a raw code: that of the button which sends it, Unknown for
/// every other code.
pub open spec fn spec_map_btn_code(code: u16) -> PadAction {
    if code == 256 || code == 260 {
        PadAction::Left
    } else if code == 257 || code == 261 {
        PadAction::Right
    } else if code == 258 || code == 262 {
        PadAction::Select
    } else if code == 259 || code == 263 {
        PadAction::Down
    } else if code == 264 || code == 265 {
        PadAction::Up
    } else {
        PadAction::Unknown
    }
}

/// The side of a raw code, `None` where no button sends it.
pub open spec fn spec_side_from_code(code: u16) -> Option<Side> {
    if 256 <= code <= 259 || code == 264 {
        Some(Side::Left)
    } else if 260 <= code <= 263 || code == 265 {
        Some(Side::Right)
    } else {
        None
    }
}

/// The side that an auxiliary-axis reading points to: the axis `ABS_MISC`
/// reads above zero on the right and at or below zero on the left; no other
/// axis says anything.
pub open spec fn spec_side_from_abs(code: u16, val: i32) -> Option<Side> {
    if code == ABS_MISC {
        if val > 0 {
            Some(Side::Right)
        } else {
            Some(Side::Left)
        }
    } else {
        None
    }
}

pub fn map_btn_code(code: u16) -> (action: PadAction)
    ensures
        action == spec_map_btn_code(code),
        action is Unknown <==> !is_button_code(code),
{
    match code {
        264 => PadAction::Up,
        259 => PadAction::Down,
        258 => PadAction::Select,
        256 => PadAction::Left,
        257 => PadAction::Right,
        265 => PadAction::Up,
        263 => PadAction::Down,
        262 => PadAction::Select,
        260 => PadAction::Left,
        261 => PadAction::Right,
        _ => PadAction::Unknown,
    }
}

pub fn side_from_code(code: u16) -> (side: Option<Side>)
    ensures
        side == spec_side_from_code(code),
        side is Some <==> is_button_code(code),
{
    match code {
        256 | 257 | 258 | 259 | 264 => Some(Side::Left),
        260 | 261 | 262 | 263 | 265 => Some(Side::Right),
        _ => None,
    }
}

pub fn side_from_abs(code: u16, val: i32) -> (side: Option<Side>)
    ensures
        side == spec_side_from_abs(code, val),
{
    match code {
        40 => if val > 0 {
            Some(Side::Right)
        } else {
            Some(Side::Left)
        },
        _ => None,
    }
}

/// The table is one to one in both directions: the button of a side and an
/// action sends a code that maps back to that side and that action.
pub proof fn lemma_button_maps_back(side: Side, action: PadAction)
    requires
        !(action is Unknown),
    ensures
        button_code(side, action) is Some,
        is_button_code(button_code(side, action).unwrap()),
        spec_map_btn_code(button_code(side, action).unwrap()) == action,
        spec_side_from_code(button_code(side, action).unwrap()) == Some(side),
{
}

/// Every button code is the code of exactly the button that its side and
/// its action name.
pub proof fn lemma_code_names_its_button(code: u16)
    requires
        is_button_code(code),
    ensures
        spec_side_from_code(code) is Some,
        !(spec_map_btn_code(code) is Unknown),
        button_code(spec_side_from_code(code).unwrap(), spec_map_btn_code(code)) == Some(code),
{
}

/// A code that no button sends maps to Unknown and to no side.
pub proof fn lemma_unmapped_code(code: u16)
    requires
        !is_button_code(code),
    ensures
        spec_map_btn_code(code) is Unknown,
        spec_side_from_code(code) is None,
{
}

} // verus!
