//! The host bridge's single capability: `fetch`.
//!
//! Sandboxed code sees exactly one native function, `fetch(url)`, which
//! performs a synchronous, blocking HTTP GET on the worker thread. The
//! network call itself is unverified foreign work; its outcome is mapped
//! here to the value the script observes.

use vstd::prelude::*;

verus! {

/// What the blocking HTTP GET produced: a decoded response body, a response
/// whose body could not be decoded, or a transport failure (unreachable
/// host, refused connection, any network error).
#[derive(Debug, PartialEq, Eq, Clone)]
pub enum FetchOutcome {
    Body(String),
    Undecodable,
    TransportFailed,
}

/// The value the sandboxed script observes for a given network outcome:
/// the body's text on success, and the absence of a value (`undefined` in
/// the script) otherwise.
pub open spec fn fetch_value(o: FetchOutcome) -> Option<String> {
    match o {
        FetchOutcome::Body(t) => Some(t),
        FetchOutcome::Undecodable => None,
        FetchOutcome::TransportFailed => None,
    }
}

/// Decide what the script sees once the HTTP GET ends. Every failure — an
/// unreachable URL as much as an undecodable body — yields the absence of a
/// value, never an exception: the sandbox must not observe a native-layer
/// error, only missing data.
pub fn sandbox_fetch_value(o: FetchOutcome) -> (r: Option<String>)
    ensures
        r == fetch_value(o),
        o matches FetchOutcome::Body(t) ==> r == Some(t),
        !(o is Body) ==> r is None,
{
    match o {
        FetchOutcome::Body(t) => Some(t),
        FetchOutcome::Undecodable => None,
        FetchOutcome::TransportFailed => None,
    }
}

/// Fetch isolation: no network outcome other than a decoded body ever hands
/// the script anything but the absence of a value — in particular, no
/// failure surfaces as a thrown exception.
pub proof fn lemma_fetch_failure_is_silent(o: FetchOutcome)
    requires
        !(o is Body),
    ensures
        fetch_value(o) is None,
{
}

} // verus!
