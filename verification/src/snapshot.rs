//! The snapshot: everything the display shows, and the two kinds of update
//! that change it.
//!
//! A telemetry update touches the record and the two histories. An input
//! update touches the navigation state and the input log. Neither touches
//! what the other owns, so the two producers cannot undo each other's work
//! in whatever order their updates are applied.

use vstd::prelude::*;
use crate::history::{newest, HistoryBuffer, HISTORY, INPUT_LOG_CAP};
use crate::navigation::{NavigationState, PadAction};
use crate::pane::Pane;
use crate::telemetry::{reading_or_zero, TelemetryRecord};

verus! {

/// The complete current state behind the display.
#[derive(Debug, Clone)]
pub struct Snapshot {
    /// The latest telemetry record.
    pub last: TelemetryRecord,
    /// Indicated airspeed in metres per second, one sample for each record.
    pub ias_hist: HistoryBuffer<u64>,
    /// Altitude above mean sea level in metres, one sample for each record.
    pub alt_hist: HistoryBuffer<u64>,
    /// One line for each pad button press.
    pub input_log: HistoryBuffer<String>,
    pub nav: NavigationState,
}

/// What the telemetry producer owns of a snapshot.
pub struct TelemetryPart {
    pub last: TelemetryRecord,
    pub ias_hist: Seq<u64>,
    pub alt_hist: Seq<u64>,
}

/// What the input producer owns of a snapshot.
pub struct InputPart {
    pub input_log: Seq<String>,
    pub nav: NavigationState,
}

impl Snapshot {
    /// No history outgrows its capacity.
    pub open spec fn wf(&self) -> bool {
        &&& self.ias_hist.wf()
        &&& self.alt_hist.wf()
        &&& self.input_log.wf()
    }

    /// The three capacities of this snapshot are those of `other`.
    pub open spec fn same_capacities(&self, other: &Snapshot) -> bool {
        &&& self.ias_hist.spec_capacity() == other.ias_hist.spec_capacity()
        &&& self.alt_hist.spec_capacity() == other.alt_hist.spec_capacity()
        &&& self.input_log.spec_capacity() == other.input_log.spec_capacity()
    }

    pub open spec fn telemetry_part(&self) -> TelemetryPart {
        TelemetryPart { last: self.last, ias_hist: self.ias_hist@, alt_hist: self.alt_hist@ }
    }

    pub open spec fn input_part(&self) -> InputPart {
        InputPart { input_log: self.input_log@, nav: self.nav }
    }

    /// `next` is this snapshot after the telemetry record `record` came in:
    /// the record replaces the latest one whole, each history takes one
    /// sample from it, and the input producer's part stays as it was.
    pub open spec fn telemetry_applied(&self, record: TelemetryRecord, next: &Snapshot) -> bool {
        &&& next.last == record
        &&& next.ias_hist@ == newest(
            self.ias_hist@.push(reading_or_zero(record.ias_ms)),
            self.ias_hist.spec_capacity(),
        )
        &&& next.alt_hist@ == newest(
            self.alt_hist@.push(reading_or_zero(record.alt_msl)),
            self.alt_hist.spec_capacity(),
        )
        &&& next.input_part() == self.input_part()
        &&& next.same_capacities(self)
    }

    /// `next` is this snapshot after `action` was taken and `line` logged:
    /// the navigation state makes one step, the log takes the line, and the
    /// telemetry producer's part stays as it was.
    pub open spec fn input_applied(&self, action: PadAction, line: String, next: &Snapshot) -> bool {
        &&& next.nav == self.nav.spec_apply(action)
        &&& next.input_log@ == newest(self.input_log@.push(line), self.input_log.spec_capacity())
        &&& next.telemetry_part() == self.telemetry_part()
        &&& next.same_capacities(self)
    }

    /// The snapshot at startup: no telemetry, empty histories of `HISTORY`
    /// samples, an empty log of `INPUT_LOG_CAP` lines, focus on `Flight`,
    /// nothing fullscreen.
    pub open spec fn is_startup(&self) -> bool {
        &&& self.last.is_empty()
        &&& self.ias_hist@ == Seq::<u64>::empty()
        &&& self.alt_hist@ == Seq::<u64>::empty()
        &&& self.input_log@ == Seq::<String>::empty()
        &&& self.ias_hist.spec_capacity() == HISTORY
        &&& self.alt_hist.spec_capacity() == HISTORY
        &&& self.input_log.spec_capacity() == INPUT_LOG_CAP
        &&& self.nav.focused == Pane::Flight
        &&& self.nav.fullscreen is None
    }

    pub fn new() -> (snapshot: Snapshot)
        ensures
            snapshot.is_startup(),
            snapshot.wf(),
    {
        Snapshot {
            last: TelemetryRecord::empty(),
            ias_hist: HistoryBuffer::new(HISTORY),
            alt_hist: HistoryBuffer::new(HISTORY),
            input_log: HistoryBuffer::new(INPUT_LOG_CAP),
            nav: NavigationState::new(),
        }
    }

    /// The update of the telemetry producer.
    pub fn apply_telemetry(self, record: TelemetryRecord) -> (next: Snapshot)
        ensures
            self.telemetry_applied(record, &next),
            next.ias_hist.wf(),
            next.alt_hist.wf(),
            self.input_log.wf() ==> next.wf(),
    {
        let mut next = self;
        next.ias_hist.push(record.airspeed_sample());
        next.alt_hist.push(record.altitude_sample());
        next.last = record;
        next
    }

    /// The update of the input producer.
    pub fn apply_input(self, action: PadAction, line: String) -> (next: Snapshot)
        ensures
            self.input_applied(action, line, &next),
            next.input_log.wf(),
            self.ias_hist.wf() && self.alt_hist.wf() ==> next.wf(),
    {
        let mut next = self;
        next.nav = next.nav.apply(action);
        next.input_log.push(line);
        next
    }
}

} // verus!
