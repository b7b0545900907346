//! How requests are told apart for rate limiting.

use crate::text::{length_before, text_before, trim, trimmed};
use vstd::prelude::*;

verus! {

/// The requests per second that room creation admits from one key.
pub const ROOM_CREATION_PER_SECOND: u64 = 2;

/// The burst of requests that room creation admits from one key.
pub const ROOM_CREATION_BURST: u32 = 5;

/// Tells requests apart by the address their headers name.
#[derive(Debug, Clone, Copy, PartialEq, Eq)]
pub struct IpHeaderKeyExtractor;

/// The key of a request: the first entry of its `x-forwarded-for` header,
/// without surrounding white space; without that header the value of its
/// `x-real-ip` header; without both the word `unknown`.
pub open spec fn rate_limit_key(
    forwarded_for: Option<Seq<char>>,
    real_ip: Option<Seq<char>>,
) -> Seq<char> {
    match forwarded_for {
        Some(list) => trimmed(list.take(length_before(list, ',') as int)),
        None => match real_ip {
            Some(address) => address,
            None => "unknown"@,
        },
    }
}

impl IpHeaderKeyExtractor {
    /// The key of a request, from the values of its `x-forwarded-for` and
    /// `x-real-ip` headers.
    pub fn extract(&self, forwarded_for: Option<&str>, real_ip: Option<&str>) -> (key: String)
        ensures
            key@ == rate_limit_key(
                match forwarded_for {
                    Some(list) => Some(list@),
                    None => None,
                },
                match real_ip {
                    Some(address) => Some(address@),
                    None => None,
                },
            ),
    {
        match forwarded_for {
            Some(list) => {
                let first = text_before(list, ',');
                trim(first.as_str())
            },
            None => match real_ip {
                Some(address) => address.to_string(),
                None => "unknown".to_string(),
            },
        }
    }
}

} // verus!
