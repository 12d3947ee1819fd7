use vstd::prelude::*;
use crate::error::CerberusError;
use crate::record::{lossy_text, utf8_lossy};
use crate::text::{decimal_value, is_decimal, is_digit, parse_decimal};

verus! {

/// Where a link points: a position within a stream.
#[derive(Debug)]
pub struct LinkTarget {
    pub position: u64,
    pub stream: String,
}

/// `k` splits a link's text into its position digits and its stream name:
/// `t == digits + "@" + stream`.
pub open spec fn is_link_split(t: Seq<char>, k: int) -> bool {
    &&& 0 < k < t.len()
    &&& t[k] == '@'
    &&& is_decimal(t.subrange(0, k))
    &&& decimal_value(t.subrange(0, k)) <= u64::MAX
}

/// The text has the form `"<position>@<stream>"`.
pub open spec fn is_link_text(t: Seq<char>) -> bool {
    exists|k: int| is_link_split(t, k)
}

pub open spec fn link_split(t: Seq<char>) -> int {
    choose|k: int| is_link_split(t, k)
}

pub open spec fn link_position(t: Seq<char>) -> int {
    decimal_value(t.subrange(0, link_split(t)))
}

pub open spec fn link_stream(t: Seq<char>) -> Seq<char> {
    t.subrange(link_split(t) + 1, t.len() as int)
}

proof fn lemma_link_split_unique(t: Seq<char>, k: int, j: int)
    requires
        is_link_split(t, k),
        is_link_split(t, j),
    ensures
        k == j,
{
    if k < j {
        assert(is_digit(t.subrange(0, j)[k]));
    } else if j < k {
        assert(is_digit(t.subrange(0, k)[j]));
    }
}

pub const BAD_LINK_MSG: &'static str = "A link record does not hold a \"<position>@<stream>\" pointer";

/// Reads the pointer held by a link's text.
pub fn parse_link_text(t: &str) -> (r: Result<LinkTarget, CerberusError>)
    ensures
        r is Ok <==> is_link_text(t@),
        r is Ok ==> r->Ok_0.position == link_position(t@) && r->Ok_0.stream@ == link_stream(t@),
        r is Err ==> r->Err_0 is DevFault && r->Err_0.text() == BAD_LINK_MSG@,
{
    let n = t.unicode_len();
    let mut k: usize = 0;
    while k < n && t.get_char(k) != '@'
        invariant
            n == t@.len(),
            0 <= k <= n,
            forall|i: int| 0 <= i < k ==> t@[i] != '@',
        decreases n - k,
    {
        k = k + 1;
    }
    if k == n || k == 0 {
        proof {
            if is_link_text(t@) {
                let j = choose|j: int| is_link_split(t@, j);
                if k == 0 {
                    assert(is_digit(t@.subrange(0, j)[0]));
                }
            }
        }
        return Err(CerberusError::dev_fault(BAD_LINK_MSG));
    }
    let digits = t.substring_char(0, k);
    match parse_decimal(digits, u64::MAX) {
        None => {
            proof {
                if is_link_text(t@) {
                    let j = choose|j: int| is_link_split(t@, j);
                    if j > k {
                        assert(is_digit(t@.subrange(0, j)[k as int]));
                    }
                    assert(j >= k);
                }
            }
            Err(CerberusError::dev_fault(BAD_LINK_MSG))
        },
        Some(position) => {
            let stream = t.substring_char(k + 1, n);
            proof {
                assert(is_link_split(t@, k as int));
                lemma_link_split_unique(t@, k as int, link_split(t@));
            }
            Ok(LinkTarget { position, stream: stream.to_owned() })
        },
    }
}

/// Reads the pointer held by a link record's payload.
pub fn parse_link(payload: &Vec<u8>) -> (r: Result<LinkTarget, CerberusError>)
    ensures
        r is Ok <==> is_link_text(utf8_lossy(payload@)),
        r is Ok ==> r->Ok_0.position == link_position(utf8_lossy(payload@)) && r->Ok_0.stream@
            == link_stream(utf8_lossy(payload@)),
        r is Err ==> r->Err_0 is DevFault && r->Err_0.text() == BAD_LINK_MSG@,
{
    let text = lossy_text(payload.as_slice());
    parse_link_text(text.as_str())
}

} // verus!
