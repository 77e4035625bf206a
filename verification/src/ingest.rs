//! The telemetry producer: from the outcomes of decoding a datagram's
//! lines to published updates.
//!
//! Each line of a datagram is decoded on its own. A line that does not
//! decode is dropped and stops nothing: the lines after it are taken as if
//! it had not been there. Each record that did decode is published as one
//! update, in the order of arrival.

use vstd::prelude::*;
use crate::hub::StateHub;
use crate::telemetry::TelemetryRecord;
use crate::update::{lemma_telemetry_after_push, telemetry_after};

verus! {

/// Largest datagram that is read, in bytes.
pub const MAX_DATAGRAM: usize = 8192;

/// How long to wait before the next read after a failed one, in
/// milliseconds.
pub const RECV_ERROR_PAUSE_MS: u64 = 200;

/// The records among `outcomes`, in their order: what is left when the
/// lines that did not decode are dropped.
pub open spec fn decoded_records(outcomes: Seq<Option<TelemetryRecord>>) -> Seq<TelemetryRecord>
    decreases outcomes.len(),
{
    if outcomes.len() == 0 {
        Seq::empty()
    } else {
        match outcomes.last() {
            Some(record) => decoded_records(outcomes.drop_last()).push(record),
            None => decoded_records(outcomes.drop_last()),
        }
    }
}

/// Takes the outcome of decoding one line: publishes the record where there
/// is one, and leaves the hub alone where the line was dropped. Returns
/// whether it published.
pub fn ingest_record(hub: &mut StateHub, outcome: Option<TelemetryRecord>) -> (published: bool)
    ensures
        published == outcome is Some,
        outcome matches Some(record) ==> {
            &&& old(hub).spec_current().telemetry_applied(record, &final(hub).spec_current())
            &&& final(hub).spec_version() == StateHub::next_version(old(hub).spec_version())
        },
        outcome is None ==> *final(hub) == *old(hub),
        old(hub).spec_current().wf() ==> final(hub).spec_current().wf(),
{
    match outcome {
        Some(record) => {
            hub.publish_telemetry(record);
            true
        },
        None => false,
    }
}

/// Takes the outcomes of decoding the lines of one datagram, in the order
/// of the lines, and publishes one update for each record among them.
/// Returns the number of updates published.
pub fn ingest_decoded(hub: &mut StateHub, outcomes: Vec<Option<TelemetryRecord>>) -> (published:
    usize)
    ensures
        published == decoded_records(outcomes@).len(),
        final(hub).spec_current().telemetry_part() == telemetry_after(
            old(hub).spec_current().telemetry_part(),
            decoded_records(outcomes@),
            old(hub).spec_current().ias_hist.spec_capacity(),
            old(hub).spec_current().alt_hist.spec_capacity(),
        ),
        final(hub).spec_current().input_part() == old(hub).spec_current().input_part(),
        final(hub).spec_current().same_capacities(&old(hub).spec_current()),
        final(hub).spec_version() == StateHub::version_after(
            old(hub).spec_version(),
            published as nat,
        ),
        old(hub).spec_current().wf() ==> final(hub).spec_current().wf(),
{
    let ghost start = hub.spec_current();
    let ghost start_version = hub.spec_version();
    let ghost ias_cap = start.ias_hist.spec_capacity();
    let ghost alt_cap = start.alt_hist.spec_capacity();
    let total = outcomes.len();
    let mut published: usize = 0;
    proof {
        assert(outcomes@.take(0) =~= Seq::<Option<TelemetryRecord>>::empty());
    }
    let iter = outcomes.into_iter();
    for outcome in it: iter
        invariant
            it.seq() == outcomes@,
            outcomes@.len() == total,
            ias_cap == start.ias_hist.spec_capacity(),
            alt_cap == start.alt_hist.spec_capacity(),
            published == decoded_records(outcomes@.take(it.index())).len(),
            published <= it.index(),
            hub.spec_current().telemetry_part() == telemetry_after(
                start.telemetry_part(),
                decoded_records(outcomes@.take(it.index())),
                ias_cap,
                alt_cap,
            ),
            hub.spec_current().input_part() == start.input_part(),
            hub.spec_current().same_capacities(&start),
            hub.spec_version() == StateHub::version_after(start_version, published as nat),
            start.wf() ==> hub.spec_current().wf(),
    {
        proof {
            let seen = outcomes@.take(it.index());
            let more = outcomes@.take(it.index() + 1);
            assert(more.drop_last() =~= seen);
            assert(more.last() == outcome);
            if outcome is Some {
                lemma_telemetry_after_push(
                    start.telemetry_part(),
                    decoded_records(seen),
                    outcome->0,
                    ias_cap,
                    alt_cap,
                );
            }
        }
        if ingest_record(hub, outcome) {
            published += 1;
        }
    }
    proof {
        assert(outcomes@.take(outcomes@.len() as int) =~= outcomes@);
    }
    published
}

/// Dropped lines leave no trace: the records that a run of outcomes yields
/// are those of the outcomes that decoded, and there are as many of them as
/// there are such outcomes and no more than there are lines.
pub proof fn lemma_decoded_records_len(outcomes: Seq<Option<TelemetryRecord>>)
    ensures
        decoded_records(outcomes).len() <= outcomes.len(),
        decoded_records(outcomes).len() == outcomes.filter(
            |o: Option<TelemetryRecord>| o is Some,
        ).len(),
    decreases outcomes.len(),
{
    reveal(Seq::filter);
    if outcomes.len() > 0 {
        lemma_decoded_records_len(outcomes.drop_last());
    }
}

} // verus!
