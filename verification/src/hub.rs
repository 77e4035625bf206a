//! The hub: sole owner of the live snapshot.
//!
//! Producers never hold the snapshot. They hand the hub an update, a
//! function from snapshot to snapshot, and the hub applies it to the
//! snapshot that is current at that moment and installs the result. `publish`
//! takes the hub by unique reference, so two updates cannot overlap: each
//! one sees the result of the one before it, and none is lost.

use vstd::prelude::*;
use crate::navigation::PadAction;
use crate::snapshot::Snapshot;
use crate::telemetry::TelemetryRecord;

verus! {

pub struct StateHub {
    snapshot: Snapshot,
    version: u64,
}

impl StateHub {
    /// The snapshot that was installed last.
    pub closed spec fn spec_current(&self) -> Snapshot {
        self.snapshot
    }

    /// How many updates were published, counted modulo 2^64.
    pub closed spec fn spec_version(&self) -> u64 {
        self.version
    }

    /// The version that follows `v`.
    pub open spec fn next_version(v: u64) -> u64 {
        if v == u64::MAX {
            0
        } else {
            (v + 1) as u64
        }
    }

    /// The version after `n` updates on top of version `v`.
    pub open spec fn version_after(v: u64, n: nat) -> u64 {
        ((v + n) % 0x1_0000_0000_0000_0000) as u64
    }

    /// A hub that holds `snapshot` at version 0.
    pub fn with_snapshot(snapshot: Snapshot) -> (hub: StateHub)
        ensures
            hub.spec_current() == snapshot,
            hub.spec_version() == 0,
    {
        StateHub { snapshot, version: 0 }
    }

    /// A hub that holds the startup snapshot at version 0.
    pub fn new() -> (hub: StateHub)
        ensures
            hub.spec_current().is_startup(),
            hub.spec_current().wf(),
            hub.spec_version() == 0,
    {
        StateHub { snapshot: Snapshot::new(), version: 0 }
    }

    /// The latest installed snapshot.
    pub fn current(&self) -> (snapshot: &Snapshot)
        ensures
            *snapshot == self.spec_current(),
    {
        &self.snapshot
    }

    pub fn version(&self) -> (v: u64)
        ensures
            v == self.spec_version(),
    {
        self.version
    }

    /// Applies `update` to the current snapshot and installs what it
    /// returns as the new current snapshot.
    pub fn publish<F: FnOnce(Snapshot) -> Snapshot>(&mut self, update: F)
        requires
            call_requires(update, (old(self).spec_current(),)),
        ensures
            call_ensures(update, (old(self).spec_current(),), final(self).spec_current()),
            final(self).spec_version() == Self::next_version(old(self).spec_version()),
    {
        let mut taken = Snapshot::new();
        core::mem::swap(&mut taken, &mut self.snapshot);
        self.snapshot = update(taken);
        self.version = self.version.wrapping_add(1);
    }

    /// Publishes the telemetry producer's update for `record`.
    pub fn publish_telemetry(&mut self, record: TelemetryRecord)
        ensures
            old(self).spec_current().telemetry_applied(record, &final(self).spec_current()),
            old(self).spec_current().wf() ==> final(self).spec_current().wf(),
            final(self).spec_version() == Self::next_version(old(self).spec_version()),
    {
        let update = move |s: Snapshot| -> (next: Snapshot)
            ensures
                s.telemetry_applied(record, &next),
                s.wf() ==> next.wf(),
            { s.apply_telemetry(record) };
        self.publish(update);
    }

    /// Publishes the input producer's update for one button press.
    pub fn publish_input(&mut self, action: PadAction, line: String)
        ensures
            old(self).spec_current().input_applied(action, line, &final(self).spec_current()),
            old(self).spec_current().wf() ==> final(self).spec_current().wf(),
            final(self).spec_version() == Self::next_version(old(self).spec_version()),
    {
        let update = move |s: Snapshot| -> (next: Snapshot)
            ensures
                s.input_applied(action, line, &next),
                s.wf() ==> next.wf(),
            { s.apply_input(action, line) };
        self.publish(update);
    }
}

} // verus!
