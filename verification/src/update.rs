//! Updates as values, and what any interleaving of the two producers'
//! updates leaves behind.

use vstd::prelude::*;
use crate::history::{lemma_pushed_all_keeps_newest, pushed_all};
use crate::navigation::{NavigationState, PadAction};
use crate::snapshot::{InputPart, Snapshot, TelemetryPart};
use crate::telemetry::{reading_or_zero, TelemetryRecord};

verus! {

/// One producer's update, as a message that can be sent to the owner of the
/// hub.
#[derive(Debug, Clone)]
pub enum Update {
    /// A decoded telemetry record.
    Telemetry(TelemetryRecord),
    /// A button press: the action it maps to and its log line.
    Input(PadAction, String),
}

impl Snapshot {
    /// `next` is this snapshot after `update`.
    pub open spec fn applied(&self, update: Update, next: &Snapshot) -> bool {
        match update {
            Update::Telemetry(record) => self.telemetry_applied(record, next),
            Update::Input(action, line) => self.input_applied(action, line, next),
        }
    }

    pub fn apply(self, update: Update) -> (next: Snapshot)
        ensures
            self.applied(update, &next),
            self.wf() ==> next.wf(),
    {
        match update {
            Update::Telemetry(record) => self.apply_telemetry(record),
            Update::Input(action, line) => self.apply_input(action, line),
        }
    }
}

/// `states` is what a hub held, from `states[0]` on, while `updates` were
/// published one after the other.
pub open spec fn is_run(states: Seq<Snapshot>, updates: Seq<Update>) -> bool {
    &&& states.len() == updates.len() + 1
    &&& forall|i: int|
        0 <= i < updates.len() ==> (#[trigger] states[i]).applied(updates[i], &states[i + 1])
}

/// The telemetry records among `updates`, in their order.
pub open spec fn records_of(updates: Seq<Update>) -> Seq<TelemetryRecord>
    decreases updates.len(),
{
    if updates.len() == 0 {
        Seq::empty()
    } else {
        match updates.last() {
            Update::Telemetry(record) => records_of(updates.drop_last()).push(record),
            Update::Input(_, _) => records_of(updates.drop_last()),
        }
    }
}

/// The actions of the button presses among `updates`, in their order.
pub open spec fn actions_of(updates: Seq<Update>) -> Seq<PadAction>
    decreases updates.len(),
{
    if updates.len() == 0 {
        Seq::empty()
    } else {
        match updates.last() {
            Update::Telemetry(_) => actions_of(updates.drop_last()),
            Update::Input(action, _) => actions_of(updates.drop_last()).push(action),
        }
    }
}

/// The log lines of the button presses among `updates`, in their order.
pub open spec fn lines_of(updates: Seq<Update>) -> Seq<String>
    decreases updates.len(),
{
    if updates.len() == 0 {
        Seq::empty()
    } else {
        match updates.last() {
            Update::Telemetry(_) => lines_of(updates.drop_last()),
            Update::Input(_, line) => lines_of(updates.drop_last()).push(line),
        }
    }
}

/// The airspeed samples of `records`.
pub open spec fn airspeed_samples(records: Seq<TelemetryRecord>) -> Seq<u64> {
    Seq::new(records.len(), |i: int| reading_or_zero(records[i].ias_ms))
}

/// The altitude samples of `records`.
pub open spec fn altitude_samples(records: Seq<TelemetryRecord>) -> Seq<u64> {
    Seq::new(records.len(), |i: int| reading_or_zero(records[i].alt_msl))
}

/// The telemetry producer's part after `records` came in on top of `part`,
/// with nothing said of any other update.
pub open spec fn telemetry_after(
    part: TelemetryPart,
    records: Seq<TelemetryRecord>,
    ias_cap: nat,
    alt_cap: nat,
) -> TelemetryPart {
    TelemetryPart {
        last: if records.len() == 0 {
            part.last
        } else {
            records.last()
        },
        ias_hist: pushed_all(part.ias_hist, airspeed_samples(records), ias_cap),
        alt_hist: pushed_all(part.alt_hist, altitude_samples(records), alt_cap),
    }
}

/// The input producer's part after the presses with `actions` and `lines`
/// came in on top of `part`, with nothing said of any other update.
pub open spec fn input_after(
    part: InputPart,
    actions: Seq<PadAction>,
    lines: Seq<String>,
    log_cap: nat,
) -> InputPart {
    InputPart {
        input_log: pushed_all(part.input_log, lines, log_cap),
        nav: part.nav.spec_apply_all(actions),
    }
}

/// One more record on top of `records` replaces the latest record and adds
/// one sample to each history.
pub proof fn lemma_telemetry_after_push(
    part: TelemetryPart,
    records: Seq<TelemetryRecord>,
    record: TelemetryRecord,
    ias_cap: nat,
    alt_cap: nat,
)
    ensures
        telemetry_after(part, records.push(record), ias_cap, alt_cap) == (TelemetryPart {
            last: record,
            ias_hist: crate::history::newest(
                telemetry_after(part, records, ias_cap, alt_cap).ias_hist.push(
                    reading_or_zero(record.ias_ms),
                ),
                ias_cap,
            ),
            alt_hist: crate::history::newest(
                telemetry_after(part, records, ias_cap, alt_cap).alt_hist.push(
                    reading_or_zero(record.alt_msl),
                ),
                alt_cap,
            ),
        }),
{
    let more = records.push(record);
    assert(airspeed_samples(more).drop_last() =~= airspeed_samples(records));
    assert(altitude_samples(more).drop_last() =~= altitude_samples(records));
}

/// No update is lost. However the two producers' updates interleave, the
/// snapshot at the end holds for each producer exactly what that producer's
/// updates alone, in their order, would have left: the other producer's
/// updates in between change nothing of it.
pub proof fn lemma_no_lost_update(states: Seq<Snapshot>, updates: Seq<Update>)
    requires
        is_run(states, updates),
    ensures
        states.last().same_capacities(&states[0]),
        states.last().telemetry_part() == telemetry_after(
            states[0].telemetry_part(),
            records_of(updates),
            states[0].ias_hist.spec_capacity(),
            states[0].alt_hist.spec_capacity(),
        ),
        states.last().input_part() == input_after(
            states[0].input_part(),
            actions_of(updates),
            lines_of(updates),
            states[0].input_log.spec_capacity(),
        ),
    decreases updates.len(),
{
    if updates.len() > 0 {
        let n = updates.len() as int;
        let front_states = states.drop_last();
        let front = updates.drop_last();
        assert(is_run(front_states, front)) by {
            assert forall|i: int| 0 <= i < front.len() implies (#[trigger] front_states[i]).applied(
                front[i],
                &front_states[i + 1],
            ) by {
                assert(states[i].applied(updates[i], &states[i + 1]));
            }
        }
        lemma_no_lost_update(front_states, front);
        let prev = states[n - 1];
        assert(front_states.last() == prev);
        assert(front_states[0] == states[0]);
        assert(prev.applied(updates[n - 1], &states[n]));
        assert(states.last() == states[n]);
        match updates.last() {
            Update::Telemetry(record) => {
                let records = records_of(updates);
                assert(airspeed_samples(records).drop_last() =~= airspeed_samples(
                    records_of(front),
                ));
                assert(altitude_samples(records).drop_last() =~= altitude_samples(
                    records_of(front),
                ));
            },
            Update::Input(action, line) => {
                assert(actions_of(updates).drop_last() =~= actions_of(front));
                assert(lines_of(updates).drop_last() =~= lines_of(front));
            },
        }
    }
}

/// The latest record on display is the last one that the telemetry producer
/// published, whatever the input producer published after it.
pub proof fn lemma_last_record_survives(states: Seq<Snapshot>, updates: Seq<Update>)
    requires
        is_run(states, updates),
        records_of(updates).len() > 0,
    ensures
        states.last().last == records_of(updates).last(),
{
    lemma_no_lost_update(states, updates);
}

/// The navigation state is the start state after the actions of all the
/// presses, whatever telemetry came in between them.
pub proof fn lemma_navigation_survives(states: Seq<Snapshot>, updates: Seq<Update>)
    requires
        is_run(states, updates),
    ensures
        states.last().nav == states[0].nav.spec_apply_all(actions_of(updates)),
{
    lemma_no_lost_update(states, updates);
}

/// A run adds one sample to each history for each telemetry record in it,
/// neither more nor fewer, as long as the history has room.
pub proof fn lemma_one_sample_per_record(states: Seq<Snapshot>, updates: Seq<Update>)
    requires
        is_run(states, updates),
        states[0].wf(),
    ensures
        states[0].ias_hist@.len() + records_of(updates).len() <= states[0].ias_hist.spec_capacity()
            ==> states.last().ias_hist@ == states[0].ias_hist@ + airspeed_samples(
            records_of(updates),
        ),
        states[0].alt_hist@.len() + records_of(updates).len() <= states[0].alt_hist.spec_capacity()
            ==> states.last().alt_hist@ == states[0].alt_hist@ + altitude_samples(
            records_of(updates),
        ),
        states.last().ias_hist@.len() == if states[0].ias_hist@.len() + records_of(updates).len()
            <= states[0].ias_hist.spec_capacity() {
            states[0].ias_hist@.len() + records_of(updates).len()
        } else {
            states[0].ias_hist.spec_capacity()
        },
{
    lemma_no_lost_update(states, updates);
    lemma_pushed_all_keeps_newest(
        states[0].ias_hist@,
        airspeed_samples(records_of(updates)),
        states[0].ias_hist.spec_capacity(),
    );
    lemma_pushed_all_keeps_newest(
        states[0].alt_hist@,
        altitude_samples(records_of(updates)),
        states[0].alt_hist.spec_capacity(),
    );
}

/// Two updates of different producers give the same snapshot contents in
/// either order.
pub proof fn lemma_producers_commute(
    start: Snapshot,
    record: TelemetryRecord,
    action: PadAction,
    line: String,
    after_t: Snapshot,
    after_ti: Snapshot,
    after_i: Snapshot,
    after_it: Snapshot,
)
    requires
        start.telemetry_applied(record, &after_t),
        after_t.input_applied(action, line, &after_ti),
        start.input_applied(action, line, &after_i),
        after_i.telemetry_applied(record, &after_it),
    ensures
        after_ti.telemetry_part() == after_it.telemetry_part(),
        after_ti.input_part() == after_it.input_part(),
        after_ti.same_capacities(&after_it),
{
}

} // verus!
