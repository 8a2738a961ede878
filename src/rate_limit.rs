//! The remaining API quota, read from the rate-limit response's header.

use vstd::prelude::*;
use crate::text::{chars_of, decimal_u32, parse_decimal_u32};

verus! {

/// The name of the header that carries the remaining quota.
pub const REMAINING_HEADER: &'static str = "X-RateLimit-Remaining";

/// What is known of the remaining quota; `None` where the response did not say.
#[derive(Clone, Copy, Debug, PartialEq, Eq, Structural)]
pub struct RateLimitSnapshot {
    pub remaining: Option<u32>,
}

/// Why the quota could not be read. Neither is fatal to a watch.
#[derive(Clone, Debug)]
pub enum ProbeError {
    /// The request did not complete; the text says why.
    Transport(String),
    /// The header is there, but not an unsigned 32-bit decimal number.
    BadHeader,
}

/// What `snapshot_from_header` yields.
pub open spec fn snapshot_outcome(header: Option<Seq<char>>) -> Result<RateLimitSnapshot, ProbeError> {
    match header {
        None => Ok(RateLimitSnapshot { remaining: None }),
        Some(t) => match decimal_u32(t) {
            Some(n) => Ok(RateLimitSnapshot { remaining: Some(n) }),
            None => Err(ProbeError::BadHeader),
        },
    }
}

/// Reads the remaining quota from the value of the rate-limit header; a
/// response without the header gives an empty snapshot, not an error.
pub fn snapshot_from_header(header: Option<&str>) -> (r: Result<RateLimitSnapshot, ProbeError>)
    ensures
        r == snapshot_outcome(
            match header {
                Some(t) => Some(t@),
                None => None::<Seq<char>>,
            },
        ),
        header is None ==> r == Ok::<RateLimitSnapshot, ProbeError>(
            RateLimitSnapshot { remaining: None },
        ),
{
    match header {
        None => Ok(RateLimitSnapshot { remaining: None }),
        Some(t) => match parse_decimal_u32(&chars_of(t)) {
            Some(n) => Ok(RateLimitSnapshot { remaining: Some(n) }),
            None => Err(ProbeError::BadHeader),
        },
    }
}

} // verus!
