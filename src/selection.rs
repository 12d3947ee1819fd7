use vstd::prelude::*;
use crate::error::CerberusError;
use crate::text::{decimal_value, parse_unsigned, parses_within, unsigned_digits};

verus! {

/// What the operator chose to replicate.
#[derive(Debug)]
pub enum Selection {
    /// Every event of the given type, wherever it lives.
    EventType(String),
    /// Every stream of the given category.
    StreamCategory(String),
    /// One stream, by name.
    Stream(String),
}

/// How much of the index stream is read.
#[derive(Debug, Clone, Copy, PartialEq, Eq)]
pub enum Limit {
    /// Only the `n` most recent entries, read from the end of the index.
    Top(usize),
    /// The whole history, from the beginning.
    Unbounded,
}

/// Number of entries that `--recent` stands for.
pub const RECENT_COUNT: usize = 50;

pub const NO_SOURCE_MSG: &'static str =
    "No source submitted. You should at least provide --from-stream, --from-type or --from-category";

pub const MANY_SOURCES_MSG: &'static str =
    "Only one source can be submitted: use one of --from-stream, --from-type or --from-category";

pub const RECENT_AND_TOP_MSG: &'static str = "--recent and --top cannot be used together";

pub const TOP_PARSE_MSG: &'static str = "Failed to parse --top number: expected a positive integer";

pub const TOP_ZERO_MSG: &'static str = "--top parameter must be greater than 0";

/// The index stream that holds what a selection designates.
pub open spec fn index_stream_of(sel: Selection) -> Seq<char> {
    match sel {
        Selection::EventType(t) => "$et-"@ + t@,
        Selection::StreamCategory(c) => "$category-"@ + c@,
        Selection::Stream(s) => s@,
    }
}

pub open spec fn count_given(
    stream: Option<&str>,
    tpe: Option<&str>,
    category: Option<&str>,
) -> int {
    (if stream is Some { 1int } else { 0 }) + (if tpe is Some { 1int } else { 0 }) + (
    if category is Some { 1int } else { 0 })
}

/// The selection named by the three source options, of which exactly one
/// must be given.
pub fn get_export_selection(
    stream: Option<&str>,
    tpe: Option<&str>,
    category: Option<&str>,
) -> (r: Result<Selection, CerberusError>)
    ensures
        count_given(stream, tpe, category) == 1 <==> r is Ok,
        count_given(stream, tpe, category) == 0 ==> r is Err && r->Err_0 is UserFault
            && r->Err_0.text() == NO_SOURCE_MSG@,
        count_given(stream, tpe, category) > 1 ==> r is Err && r->Err_0 is UserFault
            && r->Err_0.text() == MANY_SOURCES_MSG@,
        r is Ok ==> match r->Ok_0 {
            Selection::Stream(s) => stream is Some && s@ == stream->Some_0@,
            Selection::EventType(t) => tpe is Some && t@ == tpe->Some_0@,
            Selection::StreamCategory(c) => category is Some && c@ == category->Some_0@,
        },
{
    match (stream, tpe, category) {
        (Some(s), None, None) => Ok(Selection::Stream(s.to_owned())),
        (None, Some(t), None) => Ok(Selection::EventType(t.to_owned())),
        (None, None, Some(c)) => Ok(Selection::StreamCategory(c.to_owned())),
        (None, None, None) => Err(CerberusError::user_fault(NO_SOURCE_MSG)),
        _ => Err(CerberusError::user_fault(MANY_SOURCES_MSG)),
    }
}

/// The name of the index stream to read for a selection.
pub fn get_stream_name(sel: &Selection) -> (r: String)
    ensures
        r@ == index_stream_of(*sel),
{
    match sel {
        Selection::EventType(t) => {
            let mut name = "$et-".to_owned();
            name.append(t.as_str());
            name
        },
        Selection::StreamCategory(c) => {
            let mut name = "$category-".to_owned();
            name.append(c.as_str());
            name
        },
        Selection::Stream(s) => s.clone(),
    }
}

/// The flags given for the read limit are acceptable: `--recent` and
/// `--top` are not both present, and `--top` holds a positive integer.
pub open spec fn limit_valid(recent: bool, top: Option<&str>) -> bool {
    match top {
        Some(t) => !recent && parses_within(t@, usize::MAX as int) && decimal_value(
            unsigned_digits(t@),
        ) > 0,
        None => true,
    }
}

/// The message of the fault reported for invalid limit flags.
pub open spec fn limit_error_text(recent: bool, top: Option<&str>) -> Seq<char> {
    match top {
        Some(t) => if recent {
            RECENT_AND_TOP_MSG@
        } else if !parses_within(t@, usize::MAX as int) {
            TOP_PARSE_MSG@
        } else {
            TOP_ZERO_MSG@
        },
        None => Seq::empty(),
    }
}

/// The limit that valid flags designate.
pub open spec fn limit_of(recent: bool, top: Option<&str>) -> Limit {
    match top {
        Some(t) => Limit::Top(decimal_value(unsigned_digits(t@)) as usize),
        None => if recent {
            Limit::Top(RECENT_COUNT)
        } else {
            Limit::Unbounded
        },
    }
}

/// The read limit given by `--recent` (the 50 most recent entries) or
/// `--top n` (the `n` most recent, `n > 0`); the whole history if neither.
pub fn get_limit(recent: bool, top: Option<&str>) -> (r: Result<Limit, CerberusError>)
    ensures
        r is Ok <==> limit_valid(recent, top),
        r is Ok ==> r->Ok_0 == limit_of(recent, top),
        r is Err ==> r->Err_0 is UserFault && r->Err_0.text() == limit_error_text(recent, top),
        recent && top is Some ==> r is Err && r->Err_0.text() == RECENT_AND_TOP_MSG@,
        !recent && top is Some && !parses_within(top->Some_0@, usize::MAX as int) ==> r is Err
            && r->Err_0.text() == TOP_PARSE_MSG@,
        !recent && top is Some && parses_within(top->Some_0@, usize::MAX as int) && decimal_value(
            unsigned_digits(top->Some_0@),
        ) == 0 ==> r is Err && r->Err_0.text() == TOP_ZERO_MSG@,
{
    match top {
        Some(t) => {
            if recent {
                return Err(CerberusError::user_fault(RECENT_AND_TOP_MSG));
            }
            match parse_unsigned(t, usize::MAX as u64) {
                None => Err(CerberusError::user_fault(TOP_PARSE_MSG)),
                Some(n) => {
                    if n == 0 {
                        Err(CerberusError::user_fault(TOP_ZERO_MSG))
                    } else {
                        Ok(Limit::Top(n as usize))
                    }
                },
            }
        },
        None => {
            if recent {
                Ok(Limit::Top(RECENT_COUNT))
            } else {
                Ok(Limit::Unbounded)
            }
        },
    }
}

/// The position at which reading forward yields the `count` most recent
/// entries of a stream whose last entry is at `last_position`, oldest
/// first: the whole stream when it holds no more than `count`.
pub fn tail_start(last_position: u64, count: usize) -> (r: u64)
    requires
        count > 0,
    ensures
        last_position + 1 >= count ==> r == last_position + 1 - count,
        last_position + 1 < count ==> r == 0,
{
    let c = count as u64;
    if c <= last_position {
        last_position - c + 1
    } else {
        0
    }
}

/// A resolved read: which index stream to read, and how much of it.
#[derive(Debug)]
pub struct ReadPlan {
    pub selection: Selection,
    pub index_stream: String,
    pub limit: Limit,
}

/// Resolves the source options into a read plan. The source is checked
/// first, then the limit; the first problem found is reported.
pub fn resolve(
    stream: Option<&str>,
    tpe: Option<&str>,
    category: Option<&str>,
    recent: bool,
    top: Option<&str>,
) -> (r: Result<ReadPlan, CerberusError>)
    ensures
        r is Ok <==> count_given(stream, tpe, category) == 1 && limit_valid(recent, top),
        r is Err ==> r->Err_0 is UserFault,
        count_given(stream, tpe, category) == 0 ==> r is Err && r->Err_0.text() == NO_SOURCE_MSG@,
        count_given(stream, tpe, category) > 1 ==> r is Err && r->Err_0.text() == MANY_SOURCES_MSG@,
        count_given(stream, tpe, category) == 1 && !limit_valid(recent, top) ==> r is Err
            && r->Err_0.text() == limit_error_text(recent, top),
        r is Ok ==> ({
            let p = r->Ok_0;
            &&& p.index_stream@ == index_stream_of(p.selection)
            &&& p.limit == limit_of(recent, top)
            &&& match p.selection {
                Selection::Stream(s) => stream is Some && s@ == stream->Some_0@,
                Selection::EventType(t) => tpe is Some && t@ == tpe->Some_0@,
                Selection::StreamCategory(c) => category is Some && c@ == category->Some_0@,
            }
        }),
{
    let selection = get_export_selection(stream, tpe, category)?;
    let index_stream = get_stream_name(&selection);
    let limit = get_limit(recent, top)?;
    Ok(ReadPlan { selection, index_stream, limit })
}

} // verus!
