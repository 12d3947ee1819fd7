use vstd::prelude::*;
use crate::batch::{Append, AppendView};
use crate::error::CerberusError;
use crate::link::{BAD_LINK_MSG, LinkTarget, is_link_text, link_position, link_stream, parse_link};
use crate::record::{
    IndexEntry, NOT_JSON_MSG, Record, copyable, event_of, lossy_text, record_to_event_data,
    utf8_lossy,
};

verus! {

pub const MISSING_RECORD_MSG: &'static str = "An index entry carries neither a record nor a link";

/// An index entry, told apart by whether its target still exists.
#[derive(Debug)]
pub enum EntryKind {
    /// The entry carries a record (the link's target, or the record itself).
    Live(Record),
    /// A link whose target stream was deleted: only the pointer is left.
    Deleted(LinkTarget),
}

/// Tells a live entry from a link to a deleted stream. A link left alone
/// must hold a readable pointer.
pub fn classify_entry(entry: IndexEntry) -> (r: Result<EntryKind, CerberusError>)
    ensures
        entry.event is Some ==> r is Ok && r->Ok_0 is Live && r->Ok_0->Live_0@
            == entry.event->Some_0@,
        entry.event is None && entry.link is Some ==> {
            let t = utf8_lossy(entry.link->Some_0.payload@);
            &&& r is Ok <==> is_link_text(t)
            &&& r is Ok ==> r->Ok_0 is Deleted && r->Ok_0->Deleted_0.position == link_position(t)
                && r->Ok_0->Deleted_0.stream@ == link_stream(t)
            &&& r is Err ==> r->Err_0 is DevFault && r->Err_0.text() == BAD_LINK_MSG@
        },
        entry.event is None && entry.link is None ==> r is Err && r->Err_0 is DevFault
            && r->Err_0.text() == MISSING_RECORD_MSG@,
{
    match entry.event {
        Some(record) => Ok(EntryKind::Live(record)),
        None => match entry.link {
            Some(link) => {
                let target = parse_link(&link.payload)?;
                Ok(EntryKind::Deleted(target))
            },
            None => Err(CerberusError::dev_fault(MISSING_RECORD_MSG)),
        },
    }
}

/// The By-Type strategy for one entry of a type index: the record is
/// appended on its own to the destination stream it came from. An entry
/// whose target was deleted gives no write.
pub fn route_type_entry(entry: &IndexEntry) -> (r: Result<Option<Append>, CerberusError>)
    ensures
        entry.event is None ==> r == Ok::<Option<Append>, CerberusError>(None),
        entry.event is Some ==> {
            let rec = entry.event->Some_0@;
            &&& r is Ok <==> copyable(rec)
            &&& r is Ok ==> r->Ok_0 is Some && r->Ok_0->Some_0@ == (AppendView {
                stream: rec.stream_id,
                events: seq![event_of(rec)],
            })
            &&& r is Err ==> r->Err_0 is DevFault && r->Err_0.text() == NOT_JSON_MSG@
        },
{
    match &entry.event {
        None => Ok(None),
        Some(rec) => {
            let data = record_to_event_data(rec)?;
            let mut events = Vec::new();
            events.push(data);
            let a = Append { stream: rec.stream_id.clone(), events };
            assert(a@.events =~= seq![event_of(rec@)]);
            Ok(Some(a))
        },
    }
}

/// What to do for one entry of a category index.
#[derive(Debug)]
pub enum CategoryStep {
    /// Copy the whole history of this member stream.
    Copy(String),
    /// This member stream was already copied during this run.
    AlreadyCopied(String),
    /// The entry points at a deleted stream: nothing to read.
    Deleted(LinkTarget),
}

/// The name of the member stream that a live category entry designates.
pub open spec fn member_of(rec: Record) -> Seq<char> {
    utf8_lossy(rec.payload@)
}

/// Follows a category index and decides which member streams to copy:
/// each distinct member at most once per run.
pub struct CategoryTracker {
    copied: Vec<String>,
}

impl CategoryTracker {
    /// The member streams chosen for copying so far, in order.
    pub closed spec fn copied(&self) -> Seq<Seq<char>> {
        self.copied@.map_values(|s: String| s@)
    }

    /// No member stream is chosen twice.
    pub closed spec fn wf(&self) -> bool {
        self.copied().no_duplicates()
    }

    pub fn new() -> (r: CategoryTracker)
        ensures
            r.wf(),
            r.copied() == Seq::<Seq<char>>::empty(),
    {
        let r = CategoryTracker { copied: Vec::new() };
        assert(r.copied() =~= Seq::<Seq<char>>::empty());
        r
    }

    fn has_copied(&self, name: &String) -> (r: bool)
        ensures
            r == self.copied().contains(name@),
    {
        let mut i: usize = 0;
        while i < self.copied.len()
            invariant
                0 <= i <= self.copied@.len(),
                forall|k: int| 0 <= k < i ==> self.copied()[k] != name@,
            decreases self.copied@.len() - i,
        {
            if self.copied[i] == *name {
                assert(self.copied()[i as int] == name@);
                return true;
            }
            i = i + 1;
        }
        false
    }

    /// Decides what one category index entry calls for.
    pub fn on_index_entry(&mut self, entry: &IndexEntry) -> (r: Result<CategoryStep, CerberusError>)
        requires
            old(self).wf(),
        ensures
            final(self).wf(),
            entry.event is Some ==> {
                let name = member_of(entry.event->Some_0);
                &&& r is Ok
                &&& old(self).copied().contains(name) ==> r->Ok_0 is AlreadyCopied
                    && r->Ok_0->AlreadyCopied_0@ == name && final(self).copied() == old(
                    self,
                ).copied()
                &&& !old(self).copied().contains(name) ==> r->Ok_0 is Copy && r->Ok_0->Copy_0@
                    == name && final(self).copied() == old(self).copied().push(name)
            },
            entry.event is None ==> final(self).copied() == old(self).copied(),
            entry.event is None && entry.link is Some ==> {
                let t = utf8_lossy(entry.link->Some_0.payload@);
                &&& r is Ok <==> is_link_text(t)
                &&& r is Ok ==> r->Ok_0 is Deleted && r->Ok_0->Deleted_0.position
                    == link_position(t) && r->Ok_0->Deleted_0.stream@ == link_stream(t)
                &&& r is Err ==> r->Err_0 is DevFault && r->Err_0.text() == BAD_LINK_MSG@
            },
            entry.event is None && entry.link is None ==> r is Err && r->Err_0 is DevFault
                && r->Err_0.text() == MISSING_RECORD_MSG@,
    {
        match &entry.event {
            Some(rec) => {
                let name = lossy_text(rec.payload.as_slice());
                if self.has_copied(&name) {
                    Ok(CategoryStep::AlreadyCopied(name))
                } else {
                    let ghost before = self.copied@;
                    self.copied.push(name.clone());
                    assert(self.copied() =~= before.map_values(|s: String| s@).push(name@));
                    proof {
                        let old_c = before.map_values(|s: String| s@);
                        assert forall|a: int, b: int|
                            0 <= a < self.copied().len() && 0 <= b < self.copied().len() && a != b
                            implies self.copied()[a] != self.copied()[b] by {
                            if a == old_c.len() as int {
                                assert(!old_c.contains(name@));
                                assert(self.copied()[b] == old_c[b]);
                            } else if b == old_c.len() as int {
                                assert(!old_c.contains(name@));
                                assert(self.copied()[a] == old_c[a]);
                            } else {
                                assert(self.copied()[a] == old_c[a]);
                                assert(self.copied()[b] == old_c[b]);
                            }
                        }
                    }
                    Ok(CategoryStep::Copy(name))
                }
            },
            None => match &entry.link {
                Some(link) => {
                    let target = parse_link(&link.payload)?;
                    Ok(CategoryStep::Deleted(target))
                },
                None => Err(CerberusError::dev_fault(MISSING_RECORD_MSG)),
            },
        }
    }
}

} // verus!
