use vstd::prelude::*;
use crate::batch::{
    AppendView, BATCH_CAPACITY, events_of, flatten, is_stream_copy_plan, lemma_live_records_all_live,
    live_records,
};
use crate::record::{EventView, IndexEntry, event_of};

verus! {

/// The contents of a destination log: for each stream, its records in the
/// order they were appended.
pub type LogContents = Map<Seq<char>, Seq<EventView>>;

/// The records of stream `s`, empty when the stream does not exist.
pub open spec fn stream_contents(log: LogContents, s: Seq<char>) -> Seq<EventView> {
    if log.contains_key(s) {
        log[s]
    } else {
        Seq::empty()
    }
}

/// The log after the appends of `plan`, performed in order, each committing
/// all of its records at the end of its stream.
pub open spec fn apply_appends(log: LogContents, plan: Seq<AppendView>) -> LogContents
    decreases plan.len(),
{
    if plan.len() == 0 {
        log
    } else {
        let before = apply_appends(log, plan.drop_last());
        let a = plan.last();
        before.insert(a.stream, stream_contents(before, a.stream) + a.events)
    }
}

proof fn lemma_appends_to_one_stream(log: LogContents, target: Seq<char>, plan: Seq<AppendView>)
    requires
        forall|i: int| 0 <= i < plan.len() ==> (#[trigger] plan[i]).stream == target,
    ensures
        stream_contents(apply_appends(log, plan), target) == stream_contents(log, target)
            + flatten(plan),
        forall|s: Seq<char>|
            s != target ==> #[trigger] stream_contents(apply_appends(log, plan), s)
                == stream_contents(log, s),
    decreases plan.len(),
{
    if plan.len() == 0 {
        assert(stream_contents(log, target) + flatten(plan) =~= stream_contents(log, target));
    } else {
        let dl = plan.drop_last();
        assert forall|i: int| 0 <= i < dl.len() implies (#[trigger] dl[i]).stream == target by {
            assert(dl[i] == plan[i]);
        }
        lemma_appends_to_one_stream(log, target, dl);
        assert(plan.last() == plan[plan.len() - 1]);
        let before = apply_appends(log, dl);
        assert(stream_contents(before, target) + plan.last().events =~= stream_contents(
            log,
            target,
        ) + flatten(plan));
        let after = apply_appends(log, plan);
        assert forall|s: Seq<char>| s != target implies #[trigger] stream_contents(after, s)
            == stream_contents(log, s) by {
            assert(after.contains_key(s) == before.contains_key(s));
            if before.contains_key(s) {
                assert(after[s] == before[s]);
            }
            assert(stream_contents(before, s) == stream_contents(log, s));
        }
    }
}

/// A By-Stream copy appends the source's records at the end of the
/// destination stream of the same name, in the order they were read, and
/// touches no other stream. Into a destination where that stream does not
/// exist yet, reading it back gives exactly the source's records.
pub proof fn lemma_stream_copy_preserves_order(
    log: LogContents,
    target: Seq<char>,
    events: Seq<EventView>,
    plan: Seq<AppendView>,
)
    requires
        is_stream_copy_plan(target, events, plan),
    ensures
        stream_contents(apply_appends(log, plan), target) == stream_contents(log, target) + events,
        !log.contains_key(target) ==> stream_contents(apply_appends(log, plan), target) == events,
        forall|s: Seq<char>|
            s != target ==> #[trigger] stream_contents(apply_appends(log, plan), s)
                == stream_contents(log, s),
{
    lemma_appends_to_one_stream(log, target, plan);
    if !log.contains_key(target) {
        assert(stream_contents(log, target) + events =~= events);
    }
}

/// Replicating a stream whose entries all carry a record into a
/// destination that lacks it: reading the destination stream back gives
/// the source records, in their source order, each with its type,
/// identifier, format and payload.
pub proof fn lemma_stream_copy_reads_back(
    log: LogContents,
    target: Seq<char>,
    entries: Seq<IndexEntry>,
    plan: Seq<AppendView>,
)
    requires
        forall|i: int| 0 <= i < entries.len() ==> (#[trigger] entries[i]).event is Some,
        is_stream_copy_plan(target, events_of(live_records(entries)), plan),
        !log.contains_key(target),
    ensures
        stream_contents(apply_appends(log, plan), target).len() == entries.len(),
        forall|i: int|
            0 <= i < entries.len() ==> #[trigger] stream_contents(apply_appends(log, plan), target)[i]
                == event_of(entries[i].event->Some_0@),
{
    lemma_live_records_all_live(entries);
    lemma_stream_copy_preserves_order(log, target, events_of(live_records(entries)), plan);
}

/// Copying the same records twice into one destination duplicates them:
/// nothing already present is recognised or skipped.
pub proof fn lemma_rerun_duplicates(
    log: LogContents,
    target: Seq<char>,
    events: Seq<EventView>,
    first: Seq<AppendView>,
    second: Seq<AppendView>,
)
    requires
        is_stream_copy_plan(target, events, first),
        is_stream_copy_plan(target, events, second),
    ensures
        stream_contents(apply_appends(apply_appends(log, first), second), target)
            == stream_contents(log, target) + events + events,
{
    lemma_stream_copy_preserves_order(log, target, events, first);
    lemma_stream_copy_preserves_order(apply_appends(log, first), target, events, second);
}

proof fn lemma_full_batches_len(plan: Seq<AppendView>)
    requires
        forall|i: int| 0 <= i < plan.len() ==> (#[trigger] plan[i]).events.len() == BATCH_CAPACITY,
    ensures
        flatten(plan).len() == plan.len() * BATCH_CAPACITY,
    decreases plan.len(),
{
    if plan.len() > 0 {
        let dl = plan.drop_last();
        assert forall|i: int| 0 <= i < dl.len() implies (#[trigger] dl[i]).events.len()
            == BATCH_CAPACITY by {
            assert(dl[i] == plan[i]);
        }
        lemma_full_batches_len(dl);
        assert(plan.last() == plan[plan.len() - 1]);
    }
}

/// In a plan whose batches are full but perhaps the last, batch `i` holds
/// the records written from offset `i * BATCH_CAPACITY` on.
proof fn lemma_batch_offsets(plan: Seq<AppendView>)
    requires
        forall|i: int|
            0 <= i < plan.len() - 1 ==> (#[trigger] plan[i]).events.len() == BATCH_CAPACITY,
    ensures
        forall|i: int|
            0 <= i < plan.len() ==> (#[trigger] plan[i]).events == flatten(plan).subrange(
                i * BATCH_CAPACITY,
                i * BATCH_CAPACITY + plan[i].events.len(),
            ),
    decreases plan.len(),
{
    if plan.len() > 0 {
        let dl = plan.drop_last();
        assert forall|i: int| 0 <= i < dl.len() implies (#[trigger] dl[i]).events.len()
            == BATCH_CAPACITY by {
            assert(dl[i] == plan[i]);
        }
        lemma_batch_offsets(dl);
        lemma_full_batches_len(dl);
        let f = flatten(dl);
        let last = plan.last();
        assert(flatten(plan) == f + last.events);
        assert forall|i: int| 0 <= i < plan.len() implies (#[trigger] plan[i]).events
            == flatten(plan).subrange(
            i * BATCH_CAPACITY,
            i * BATCH_CAPACITY + plan[i].events.len(),
        ) by {
            if i < dl.len() {
                assert(plan[i] == dl[i]);
                assert(i * BATCH_CAPACITY + BATCH_CAPACITY <= dl.len() * BATCH_CAPACITY)
                    by (nonlinear_arith)
                    requires
                        i < dl.len(),
                ;
                assert(0 <= i * BATCH_CAPACITY) by (nonlinear_arith)
                    requires
                        0 <= i,
                ;
                assert(flatten(plan).subrange(
                    i * BATCH_CAPACITY,
                    i * BATCH_CAPACITY + plan[i].events.len(),
                ) =~= f.subrange(i * BATCH_CAPACITY, i * BATCH_CAPACITY + plan[i].events.len()));
            } else {
                assert(plan[i] == last);
                assert(i * BATCH_CAPACITY == f.len());
                assert(flatten(plan).subrange(
                    i * BATCH_CAPACITY,
                    i * BATCH_CAPACITY + plan[i].events.len(),
                ) =~= last.events);
            }
        }
    }
}

/// A By-Stream copy depends on the target and the records alone: any two
/// plans for them are the same appends, in the same order. In particular
/// what the destination already holds makes no difference, so a rerun
/// repeats every append.
pub proof fn lemma_stream_copy_plan_unique(
    target: Seq<char>,
    events: Seq<EventView>,
    first: Seq<AppendView>,
    second: Seq<AppendView>,
)
    requires
        is_stream_copy_plan(target, events, first),
        is_stream_copy_plan(target, events, second),
    ensures
        first == second,
{
    lemma_batch_boundaries(target, events, first);
    lemma_batch_boundaries(target, events, second);
    lemma_batch_offsets(first);
    lemma_batch_offsets(second);
    let n = first.len();
    if n > 0 {
        let d1 = first.drop_last();
        let d2 = second.drop_last();
        assert forall|i: int| 0 <= i < d1.len() implies (#[trigger] d1[i]).events.len()
            == BATCH_CAPACITY by {
            assert(d1[i] == first[i]);
        }
        assert forall|i: int| 0 <= i < d2.len() implies (#[trigger] d2[i]).events.len()
            == BATCH_CAPACITY by {
            assert(d2[i] == second[i]);
        }
        lemma_full_batches_len(d1);
        lemma_full_batches_len(d2);
        assert(first.last() == first[n - 1]);
        assert(second.last() == second[n - 1]);
        assert(first[n - 1].events.len() == second[n - 1].events.len());
    }
    assert forall|i: int| 0 <= i < n implies #[trigger] first[i] == second[i] by {
        assert(first[i].events.len() == second[i].events.len());
        assert(first[i].stream == second[i].stream);
        assert(first[i].events == second[i].events);
    }
    assert(first =~= second);
}

/// A By-Stream copy of `n` records makes `ceil(n / BATCH_CAPACITY)` append
/// calls: `2 * BATCH_CAPACITY` records go in two full batches, and one more
/// record adds a third batch holding it alone.
pub proof fn lemma_batch_boundaries(
    target: Seq<char>,
    events: Seq<EventView>,
    plan: Seq<AppendView>,
)
    requires
        is_stream_copy_plan(target, events, plan),
    ensures
        plan.len() == (events.len() + BATCH_CAPACITY - 1) / (BATCH_CAPACITY as int),
        events.len() == 2 * BATCH_CAPACITY ==> plan.len() == 2 && plan[0].events.len()
            == BATCH_CAPACITY && plan[1].events.len() == BATCH_CAPACITY,
        events.len() == 2 * BATCH_CAPACITY + 1 ==> plan.len() == 3 && plan[0].events.len()
            == BATCH_CAPACITY && plan[1].events.len() == BATCH_CAPACITY && plan[2].events.len()
            == 1,
{
    if plan.len() == 0 {
        assert(events.len() == 0);
    } else {
        let dl = plan.drop_last();
        assert forall|i: int| 0 <= i < dl.len() implies (#[trigger] dl[i]).events.len()
            == BATCH_CAPACITY by {
            assert(dl[i] == plan[i]);
        }
        lemma_full_batches_len(dl);
        let k = plan.len() - 1;
        let l = plan.last().events.len();
        assert(events.len() == k * 500 + l);
        assert(0 < l <= 500);
        assert(plan.len() == (events.len() + 499) / 500) by (nonlinear_arith)
            requires
                events.len() == k * 500 + l,
                0 < l <= 500,
                k >= 0,
                plan.len() == k + 1,
        ;
        assert(plan.last() == plan[plan.len() - 1]);
    }
}

} // verus!
