use vstd::prelude::*;
use crate::error::CerberusError;
use crate::record::{
    EventData, EventView, IndexEntry, NOT_JSON_MSG, RecordView, copyable, event_of,
    record_to_event_data,
};

verus! {

/// Number of records appended to the destination in one call.
pub const BATCH_CAPACITY: usize = 500;

/// One append call: records written, in order, to one destination stream.
#[derive(Debug)]
pub struct Append {
    pub stream: String,
    pub events: Vec<EventData>,
}

pub struct AppendView {
    pub stream: Seq<char>,
    pub events: Seq<EventView>,
}

impl View for Append {
    type V = AppendView;

    open spec fn view(&self) -> AppendView {
        AppendView { stream: self.stream@, events: events_view(self.events@) }
    }
}

pub open spec fn events_view(v: Seq<EventData>) -> Seq<EventView> {
    v.map_values(|e: EventData| e@)
}

pub open spec fn appends_view(v: Seq<Append>) -> Seq<AppendView> {
    v.map_values(|a: Append| a@)
}

/// Every record written by a sequence of appends, in the order written.
pub open spec fn flatten(plan: Seq<AppendView>) -> Seq<EventView>
    decreases plan.len(),
{
    if plan.len() == 0 {
        Seq::empty()
    } else {
        flatten(plan.drop_last()) + plan.last().events
    }
}

/// The records of the entries that carry one (links to deleted targets
/// carry none), in read order.
pub open spec fn live_records(es: Seq<IndexEntry>) -> Seq<RecordView>
    decreases es.len(),
{
    if es.len() == 0 {
        Seq::empty()
    } else {
        let rest = live_records(es.drop_last());
        match es.last().event {
            Some(r) => rest.push(r@),
            None => rest,
        }
    }
}

pub open spec fn all_copyable(rs: Seq<RecordView>) -> bool {
    forall|i: int| 0 <= i < rs.len() ==> copyable(#[trigger] rs[i])
}

pub open spec fn events_of(rs: Seq<RecordView>) -> Seq<EventView> {
    rs.map_values(|r: RecordView| event_of(r))
}

/// `plan` copies `events` to the stream `target` in batches: all of them,
/// in order, each batch full but the last, which is not empty.
pub open spec fn is_stream_copy_plan(
    target: Seq<char>,
    events: Seq<EventView>,
    plan: Seq<AppendView>,
) -> bool {
    &&& flatten(plan) == events
    &&& forall|i: int| 0 <= i < plan.len() ==> (#[trigger] plan[i]).stream == target
    &&& forall|i: int|
        0 <= i < plan.len() - 1 ==> (#[trigger] plan[i]).events.len() == BATCH_CAPACITY
    &&& plan.len() > 0 ==> 0 < plan.last().events.len() <= BATCH_CAPACITY
}

/// Accumulates the records bound for one destination stream and hands out
/// a full batch each time one is complete.
pub struct StreamBatcher {
    target: String,
    buffer: Vec<EventData>,
}

impl StreamBatcher {
    pub closed spec fn target(&self) -> Seq<char> {
        self.target@
    }

    /// Records received and not yet handed out, in order.
    pub closed spec fn pending(&self) -> Seq<EventView> {
        events_view(self.buffer@)
    }

    pub closed spec fn wf(&self) -> bool {
        self.buffer@.len() < BATCH_CAPACITY
    }

    pub fn new(target: &str) -> (r: StreamBatcher)
        ensures
            r.wf(),
            r.target() == target@,
            r.pending() == Seq::<EventView>::empty(),
    {
        let r = StreamBatcher { target: target.to_owned(), buffer: Vec::new() };
        assert(r.pending() =~= Seq::<EventView>::empty());
        r
    }

    pub fn target_name(&self) -> (r: &str)
        ensures
            r@ == self.target(),
    {
        self.target.as_str()
    }

    /// Adds one record; returns the batch to append when it completes one.
    pub fn push(&mut self, data: EventData) -> (r: Option<Append>)
        requires
            old(self).wf(),
        ensures
            final(self).wf(),
            final(self).target() == old(self).target(),
            old(self).pending().len() + 1 == BATCH_CAPACITY ==> r is Some && r->Some_0@ == (
            AppendView { stream: old(self).target(), events: old(self).pending().push(data@) })
                && final(self).pending() == Seq::<EventView>::empty(),
            old(self).pending().len() + 1 < BATCH_CAPACITY ==> r is None && final(self).pending()
                == old(self).pending().push(data@),
    {
        let ghost before = self.buffer@;
        self.buffer.push(data);
        assert(events_view(self.buffer@) =~= events_view(before).push(data@));
        if self.buffer.len() == BATCH_CAPACITY {
            let mut full = Vec::new();
            std::mem::swap(&mut full, &mut self.buffer);
            assert(events_view(self.buffer@) =~= Seq::<EventView>::empty());
            Some(Append { stream: self.target.clone(), events: full })
        } else {
            None
        }
    }

    /// Adds the record of one entry read from the source, converted for
    /// writing; an entry whose target was deleted adds nothing.
    pub fn push_entry(&mut self, entry: &IndexEntry) -> (r: Result<Option<Append>, CerberusError>)
        requires
            old(self).wf(),
        ensures
            final(self).wf(),
            final(self).target() == old(self).target(),
            entry.event is None ==> r == Ok::<Option<Append>, CerberusError>(None)
                && final(self).pending() == old(self).pending(),
            entry.event is Some ==> {
                let e = event_of(entry.event->Some_0@);
                &&& r is Ok <==> copyable(entry.event->Some_0@)
                &&& r is Err ==> r->Err_0 is DevFault && r->Err_0.text() == NOT_JSON_MSG@
                    && final(self).pending() == old(self).pending()
                &&& r is Ok && old(self).pending().len() + 1 == BATCH_CAPACITY ==> r->Ok_0 is Some
                    && r->Ok_0->Some_0@ == (AppendView {
                    stream: old(self).target(),
                    events: old(self).pending().push(e),
                }) && final(self).pending() == Seq::<EventView>::empty()
                &&& r is Ok && old(self).pending().len() + 1 < BATCH_CAPACITY ==> r->Ok_0 is None
                    && final(self).pending() == old(self).pending().push(e)
            },
    {
        match &entry.event {
            None => Ok(None),
            Some(rec) => {
                let data = record_to_event_data(rec)?;
                Ok(self.push(data))
            },
        }
    }

    /// Hands out the records still pending, if any, as a last batch.
    pub fn finish(self) -> (r: Option<Append>)
        requires
            self.wf(),
        ensures
            self.pending().len() == 0 <==> r is None,
            r is Some ==> r->Some_0@ == (AppendView {
                stream: self.target(),
                events: self.pending(),
            }),
            r is Some ==> r->Some_0.events@.len() < BATCH_CAPACITY,
    {
        if self.buffer.len() == 0 {
            None
        } else {
            Some(Append { stream: self.target, events: self.buffer })
        }
    }
}

proof fn lemma_flatten_push(plan: Seq<AppendView>, a: AppendView)
    ensures
        flatten(plan.push(a)) == flatten(plan) + a.events,
{
    assert(plan.push(a).drop_last() =~= plan);
}

proof fn lemma_live_records_step(es: Seq<IndexEntry>, i: int)
    requires
        0 <= i < es.len(),
    ensures
        live_records(es.take(i + 1)) == match es[i].event {
            Some(r) => live_records(es.take(i)).push(r@),
            None => live_records(es.take(i)),
        },
{
    assert(es.take(i + 1).drop_last() =~= es.take(i));
    assert(es.take(i + 1).last() == es[i]);
}

/// The live records of a run are those of any prefix followed by those of
/// the matching suffix.
proof fn lemma_live_records_split(es: Seq<IndexEntry>, i: int)
    requires
        0 <= i <= es.len(),
    ensures
        live_records(es) == live_records(es.take(i)) + live_records(es.skip(i)),
    decreases es.len(),
{
    if i == es.len() {
        assert(es.take(i) =~= es);
        assert(es.skip(i) =~= Seq::<IndexEntry>::empty());
        assert(live_records(es) + Seq::<RecordView>::empty() =~= live_records(es));
    } else {
        let dl = es.drop_last();
        lemma_live_records_split(dl, i);
        assert(dl.take(i) =~= es.take(i));
        assert(es.skip(i).drop_last() =~= dl.skip(i));
        assert(es.skip(i).last() == es.last());
        let a = live_records(es.take(i));
        let b = live_records(dl.skip(i));
        match es.last().event {
            Some(r) => {
                assert((a + b).push(r@) =~= a + b.push(r@));
            },
            None => {},
        }
    }
}

/// When every entry carries a record, the live records are exactly those
/// records, in order.
pub proof fn lemma_live_records_all_live(es: Seq<IndexEntry>)
    requires
        forall|i: int| 0 <= i < es.len() ==> (#[trigger] es[i]).event is Some,
    ensures
        live_records(es) == es.map_values(|e: IndexEntry| e.event->Some_0@),
    decreases es.len(),
{
    if es.len() > 0 {
        let dl = es.drop_last();
        assert forall|i: int| 0 <= i < dl.len() implies (#[trigger] dl[i]).event is Some by {
            assert(dl[i] == es[i]);
        }
        lemma_live_records_all_live(dl);
        assert(es.last() == es[es.len() - 1]);
        assert(es.map_values(|e: IndexEntry| e.event->Some_0@) =~= dl.map_values(
            |e: IndexEntry| e.event->Some_0@,
        ).push(es.last().event->Some_0@));
    } else {
        assert(es.map_values(|e: IndexEntry| e.event->Some_0@) =~= Seq::<RecordView>::empty());
    }
}

/// The By-Stream strategy over a finite run of entries read from one
/// stream: every record is copied, in order, to the stream `target`, in
/// batches of `BATCH_CAPACITY` records and a last, shorter one. Entries
/// whose target was deleted carry no record and are passed over.
pub fn plan_stream_copy(target: &str, entries: &Vec<IndexEntry>) -> (r: Result<
    Vec<Append>,
    CerberusError,
>)
    ensures
        r is Ok <==> all_copyable(live_records(entries@)),
        r is Ok ==> is_stream_copy_plan(
            target@,
            events_of(live_records(entries@)),
            appends_view(r->Ok_0@),
        ),
        r is Err ==> r->Err_0 is DevFault && r->Err_0.text() == NOT_JSON_MSG@,
{
    let mut batcher = StreamBatcher::new(target);
    let mut out: Vec<Append> = Vec::new();
    let n = entries.len();
    let mut i: usize = 0;
    while i < n
        invariant
            n == entries@.len(),
            0 <= i <= n,
            batcher.wf(),
            batcher.target() == target@,
            all_copyable(live_records(entries@.take(i as int))),
            flatten(appends_view(out@)) + batcher.pending() == events_of(
                live_records(entries@.take(i as int)),
            ),
            forall|j: int|
                0 <= j < out@.len() ==> (#[trigger] out@[j])@.stream == target@
                    && out@[j]@.events.len() == BATCH_CAPACITY,
        decreases n - i,
    {
        proof {
            lemma_live_records_step(entries@, i as int);
        }
        let entry = &entries[i];
        match &entry.event {
            Some(rec) => {
                let ghost prev = live_records(entries@.take(i as int));
                let data = match record_to_event_data(rec) {
                    Ok(d) => d,
                    Err(e) => {
                        proof {
                            let cur = live_records(entries@.take(i as int + 1));
                            lemma_live_records_split(entries@, i as int + 1);
                            assert(live_records(entries@)[cur.len() - 1] == cur[cur.len() - 1]);
                        }
                        return Err(e);
                    },
                };
                let ghost flat_before = flatten(appends_view(out@));
                let ghost pend_before = batcher.pending();
                let pushed = batcher.push(data);
                proof {
                    assert(events_of(prev.push(rec@)) =~= events_of(prev).push(event_of(rec@)));
                    assert(all_copyable(prev.push(rec@))) by {
                        assert forall|k: int| 0 <= k < prev.push(rec@).len() implies copyable(
                            #[trigger] prev.push(rec@)[k],
                        ) by {
                            if k < prev.len() {
                                assert(prev.push(rec@)[k] == prev[k]);
                            }
                        }
                    }
                }
                match pushed {
                    Some(a) => {
                        let ghost av = a@;
                        let ghost ov = appends_view(out@);
                        out.push(a);
                        proof {
                            assert(appends_view(out@) =~= ov.push(av));
                            lemma_flatten_push(ov, av);
                            assert(flatten(appends_view(out@)) + batcher.pending() =~= flat_before
                                + pend_before.push(event_of(rec@)));
                            assert(out@[out@.len() - 1]@ == av);
                        }
                    },
                    None => {
                        assert(flatten(appends_view(out@)) + batcher.pending() =~= flat_before
                            + pend_before.push(event_of(rec@)));
                    },
                }
            },
            None => {},
        }
        i = i + 1;
    }
    assert(entries@.take(n as int) =~= entries@);
    let ghost ov = appends_view(out@);
    let ghost pend = batcher.pending();
    match batcher.finish() {
        Some(a) => {
            let ghost av = a@;
            out.push(a);
            proof {
                assert(appends_view(out@) =~= ov.push(av));
                lemma_flatten_push(ov, av);
                assert(out@[out@.len() - 1]@ == av);
            }
        },
        None => {
            assert(pend =~= Seq::<EventView>::empty());
            assert(flatten(ov) + pend =~= flatten(ov));
            if out.len() > 0 {
                assert(out@[out@.len() - 1]@ == ov.last());
            }
        },
    }
    proof {
        let pv = appends_view(out@);
        assert forall|j: int| 0 <= j < pv.len() implies (#[trigger] pv[j]).stream == target@ by {
            assert(pv[j] == out@[j]@);
        }
        assert forall|j: int| 0 <= j < pv.len() - 1 implies (#[trigger] pv[j]).events.len()
            == BATCH_CAPACITY by {
            assert(pv[j] == out@[j]@);
        }
    }
    Ok(out)
}

} // verus!
