use vstd::prelude::*;
use vstd::utf8::{decode_utf8, valid_utf8};
use crate::error::CerberusError;

verus! {

/// One entry of a stream, as read from the source log.
#[derive(Debug)]
pub struct Record {
    pub stream_id: String,
    pub position: u64,
    pub event_type: String,
    pub id: u128,
    pub is_json: bool,
    pub payload: Vec<u8>,
}

/// An entry as the reader surfaces it. When the entry is a link that could
/// be followed, `event` is the record it points at and `link` the link
/// itself; when the target is gone, only `link` is present; a plain record
/// has `event` alone.
#[derive(Debug)]
pub struct IndexEntry {
    pub event: Option<Record>,
    pub link: Option<Record>,
}

/// What is appended to the destination log for one record. Positions are
/// assigned by the destination, so none is carried.
#[derive(Debug)]
pub struct EventData {
    pub event_type: String,
    pub id: u128,
    pub is_json: bool,
    pub payload: Vec<u8>,
}

pub struct RecordView {
    pub stream_id: Seq<char>,
    pub position: u64,
    pub event_type: Seq<char>,
    pub id: u128,
    pub is_json: bool,
    pub payload: Seq<u8>,
}

pub struct EventView {
    pub event_type: Seq<char>,
    pub id: u128,
    pub is_json: bool,
    pub payload: Seq<u8>,
}

impl View for Record {
    type V = RecordView;

    open spec fn view(&self) -> RecordView {
        RecordView {
            stream_id: self.stream_id@,
            position: self.position,
            event_type: self.event_type@,
            id: self.id,
            is_json: self.is_json,
            payload: self.payload@,
        }
    }
}

impl View for EventData {
    type V = EventView;

    open spec fn view(&self) -> EventView {
        EventView {
            event_type: self.event_type@,
            id: self.id,
            is_json: self.is_json,
            payload: self.payload@,
        }
    }
}

/// The write that copies a record: same type, identifier, format flag and
/// payload.
pub open spec fn event_of(r: RecordView) -> EventView {
    EventView { event_type: r.event_type, id: r.id, is_json: r.is_json, payload: r.payload }
}

/// Whether serde_json reads a byte string as one raw JSON value,
/// surrounding whitespace allowed.
pub uninterp spec fn json_document(b: Seq<u8>) -> bool;

/// The text that lossy UTF-8 decoding gives for a byte string.
pub uninterp spec fn utf8_lossy(b: Seq<u8>) -> Seq<char>;

/// Relies on serde_json::from_slice into a borrowed
/// `serde_json::value::RawValue`: whether it succeeds depends on the bytes
/// alone.
#[verifier::external_body]
fn is_json_document(b: &[u8]) -> (r: bool)
    ensures
        r == json_document(b@),
{
    serde_json::from_slice::<&serde_json::value::RawValue>(b).is_ok()
}

/// Relies on String::from_utf8_lossy: valid UTF-8 is decoded as is, and
/// invalid sequences become replacement characters.
#[verifier::external_body]
pub(crate) fn lossy_text(b: &[u8]) -> (r: String)
    ensures
        r@ == utf8_lossy(b@),
        valid_utf8(b@) ==> r@ == decode_utf8(b@),
{
    String::from_utf8_lossy(b).into_owned()
}

/// A record is copied as is, except that a record flagged as JSON must
/// hold a JSON document.
pub open spec fn copyable(r: RecordView) -> bool {
    r.is_json ==> json_document(r.payload)
}

pub const NOT_JSON_MSG: &'static str = "A record flagged as JSON does not hold a JSON document";

/// The write that copies `record` to another log.
pub fn record_to_event_data(record: &Record) -> (r: Result<EventData, CerberusError>)
    ensures
        r is Ok <==> copyable(record@),
        r is Ok ==> r->Ok_0@ == event_of(record@),
        r is Err ==> r->Err_0 is DevFault && r->Err_0.text() == NOT_JSON_MSG@,
{
    if record.is_json && !is_json_document(record.payload.as_slice()) {
        return Err(CerberusError::dev_fault(NOT_JSON_MSG));
    }
    let payload = record.payload.clone();
    assert(payload@ =~= record.payload@);
    Ok(EventData {
        event_type: record.event_type.clone(),
        id: record.id,
        is_json: record.is_json,
        payload,
    })
}

} // verus!
