//! The panes of the display and their fixed order.

use vstd::prelude::*;

verus! {

/// Number of panes.
pub const PANE_COUNT: usize = 6;

/// One focusable region of the display.
#[derive(Debug, Clone, Copy, PartialEq, Eq, Structural)]
pub enum Pane {
    Flight,
    Att,
    Systems,
    Inputs,
    IasChart,
    AltChart,
}

impl Default for Pane {
    /// The pane that has the focus at startup.
    fn default() -> (p: Pane)
        ensures
            p == Pane::Flight,
    {
        Pane::Flight
    }
}

impl Pane {
    /// Position of the pane in the fixed order, starting at 0.
    pub open spec fn spec_index(self) -> nat {
        match self {
            Pane::Flight => 0,
            Pane::Att => 1,
            Pane::Systems => 2,
            Pane::Inputs => 3,
            Pane::IasChart => 4,
            Pane::AltChart => 5,
        }
    }

    /// The pane at position `i`; every position past the last names the last pane.
    pub open spec fn spec_from_index(i: nat) -> Pane {
        if i == 0 {
            Pane::Flight
        } else if i == 1 {
            Pane::Att
        } else if i == 2 {
            Pane::Systems
        } else if i == 3 {
            Pane::Inputs
        } else if i == 4 {
            Pane::IasChart
        } else {
            Pane::AltChart
        }
    }

    pub fn from_index(i: usize) -> (p: Pane)
        ensures
            p == Pane::spec_from_index(i as nat),
    {
        match i {
            0 => Pane::Flight,
            1 => Pane::Att,
            2 => Pane::Systems,
            3 => Pane::Inputs,
            4 => Pane::IasChart,
            _ => Pane::AltChart,
        }
    }

    pub fn index(self) -> (i: usize)
        ensures
            i == self.spec_index(),
            i < PANE_COUNT,
    {
        match self {
            Pane::Flight => 0,
            Pane::Att => 1,
            Pane::Systems => 2,
            Pane::Inputs => 3,
            Pane::IasChart => 4,
            Pane::AltChart => 5,
        }
    }
}

} // verus!
