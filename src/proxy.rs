//! The decisions of serving a calendar: which upstream answers are
//! accepted, and which status code each failure is reported with.
use crate::calendar::ParseError;
use vstd::prelude::*;

verus! {

/// Why a calendar could not be served.
#[derive(Clone, Debug, PartialEq, Eq)]
pub enum ProxyFailure {
    /// The upstream could not be reached, or its body could not be read.
    Upstream,
    /// The upstream answered with a status code other than success.
    Status(u16),
    /// The upstream page could not be read as a calendar.
    Parse(ParseError),
}

/// Whether a status code reports success (200 to 299).
pub open spec fn is_success(code: u16) -> bool {
    200 <= code <= 299
}

impl ProxyFailure {
    /// The status code to answer with: 502 where the upstream could not be
    /// reached, the upstream's own where it failed, 500 where its page could
    /// not be read.
    pub fn status_code(&self) -> (r: u16)
        ensures
            r == (match self {
                ProxyFailure::Upstream => 502u16,
                ProxyFailure::Status(code) => *code,
                ProxyFailure::Parse(_) => 500u16,
            }),
    {
        match self {
            ProxyFailure::Upstream => 502,
            ProxyFailure::Status(code) => *code,
            ProxyFailure::Parse(_) => 500,
        }
    }
}

/// Accepts an upstream answer with a success status; any other status is a
/// failure that carries it.
pub fn check_status(code: u16) -> (r: Result<(), ProxyFailure>)
    ensures
        is_success(code) ==> r is Ok,
        !is_success(code) ==> r == Err::<(), ProxyFailure>(ProxyFailure::Status(code)),
{
    if 200 <= code && code <= 299 {
        Ok(())
    } else {
        Err(ProxyFailure::Status(code))
    }
}

} // verus!
