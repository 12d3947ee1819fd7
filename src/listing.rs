use vstd::prelude::*;
use crate::error::CerberusError;

verus! {

pub const NO_LISTING_SOURCE_MSG: &'static str =
    "You must at least use --stream or --by-type parameters";

/// The stream whose events are listed: a stream by name, or for a
/// persistent subscription group on it, the group's checkpoint or parked
/// messages stream; or the index of an event type.
pub open spec fn events_stream_of(
    stream: Option<&str>,
    group_id: Option<&str>,
    checkpoint: bool,
    by_type: Option<&str>,
) -> Option<Seq<char>> {
    match stream {
        Some(s) => match group_id {
            Some(g) => Some(
                "$persistentsubscription-"@ + s@ + "::"@ + g@ + if checkpoint {
                    "-checkpoint"@
                } else {
                    "-parked"@
                },
            ),
            None => Some(s@),
        },
        None => match by_type {
            Some(t) => Some("$et-"@ + t@),
            None => None,
        },
    }
}

/// The stream to read when listing events.
pub fn events_stream_name(
    stream: Option<&str>,
    group_id: Option<&str>,
    checkpoint: bool,
    by_type: Option<&str>,
) -> (r: Result<String, CerberusError>)
    ensures
        events_stream_of(stream, group_id, checkpoint, by_type) is None <==> r is Err,
        r is Ok ==> Some(r->Ok_0@) == events_stream_of(stream, group_id, checkpoint, by_type),
        r is Err ==> r->Err_0 is UserFault && r->Err_0.text() == NO_LISTING_SOURCE_MSG@,
{
    match stream {
        Some(s) => match group_id {
            Some(g) => {
                let mut name = "$persistentsubscription-".to_owned();
                name.append(s);
                name.append("::");
                name.append(g);
                if checkpoint {
                    name.append("-checkpoint");
                } else {
                    name.append("-parked");
                }
                Ok(name)
            },
            None => Ok(s.to_owned()),
        },
        None => match by_type {
            Some(t) => {
                let mut name = "$et-".to_owned();
                name.append(t);
                Ok(name)
            },
            None => Err(CerberusError::user_fault(NO_LISTING_SOURCE_MSG)),
        },
    }
}

/// The stream to read when listing streams: the streams of a category, or
/// all streams.
pub fn streams_stream_name(category: Option<&str>) -> (r: String)
    ensures
        category is Some ==> r@ == "$ce-"@ + category->Some_0@,
        category is None ==> r@ == "$streams"@,
{
    match category {
        Some(c) => {
            let mut name = "$ce-".to_owned();
            name.append(c);
            name
        },
        None => "$streams".to_owned(),
    }
}

} // verus!
