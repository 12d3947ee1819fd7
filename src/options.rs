use vstd::prelude::*;
use crate::error::CerberusError;
use crate::text::{decimal_value, parse_unsigned, parses_within, unsigned_digits};

verus! {

pub const OPTION_PARSE_PREFIX: &'static str = "Failed to parse --";

/// Reads the value of the numeric command-line option `--flag`, which must
/// be an unsigned integer no greater than `bound`.
pub fn parse_option(flag: &str, value: &str, bound: u64) -> (r: Result<u64, CerberusError>)
    ensures
        r is Ok <==> parses_within(value@, bound as int),
        r is Ok ==> r->Ok_0 == decimal_value(unsigned_digits(value@)),
        r is Err ==> r->Err_0 is UserFault && r->Err_0.text() == OPTION_PARSE_PREFIX@ + flag@,
{
    match parse_unsigned(value, bound) {
        Some(v) => Ok(v),
        None => {
            let mut msg = OPTION_PARSE_PREFIX.to_owned();
            msg.append(flag);
            Err(CerberusError::UserFault(msg))
        },
    }
}

} // verus!
