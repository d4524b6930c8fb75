//! The transport interface the resolution engine is driven through.
use vstd::prelude::*;

verus! {

/// The outcome of one HTTPS `GET` against a DoH server, as seen by the
/// resolution engine.
#[derive(Debug)]
pub enum TransportOutcome {
    /// The HTTP exchange completed with the given status code. `body` holds
    /// the response body, or the message of a failure while reading it.
    Response { status: u16, body: Result<Vec<u8>, String> },
    /// A connection-level failure, including a locally expired per-attempt
    /// timeout; carries a descriptive message.
    Connection(String),
}

/// Performs a `GET` request over the given URL and returns its outcome. It is
/// used to request data from DoH servers; each attempt must be bounded by the
/// given timeout. Implementations must add the header
/// `Accept: application/dns-json` to every request.
pub trait DnsClient: Sized {
    /// Creates the client with its default configuration.
    fn make() -> Self;

    /// Performs the `GET` request. The URL is already fully formed; the
    /// timeout is in milliseconds.
    fn get(&self, url: &str, timeout_millis: u64) -> TransportOutcome;
}

} // verus!
