//! The error taxonomy: per-attempt failures and call-level failures.
use crate::status::RCode;
use vstd::prelude::*;

verus! {

/// A failure of a single attempt against one DoH server.
#[derive(Debug, Clone, PartialEq, Eq)]
pub enum QueryError {
    /// The domain name could not be encoded to its ASCII-compatible form.
    InvalidName(String),
    /// The query URL built from the configured endpoint is not a valid URI.
    /// This is a configuration defect and ends the whole call.
    InvalidEndpoint(String),
    /// A connection-level failure, including a locally expired timeout.
    Connection(String),
    /// The response body of a 200 response could not be read.
    ReadResponse(String),
    /// The response body of a 200 response could not be decoded.
    ParseResponse(String),
    /// HTTP 400; ends the whole call.
    BadRequest400,
    /// HTTP 413; ends the whole call.
    PayloadTooLarge413,
    /// HTTP 414; ends the whole call.
    UriTooLong414,
    /// HTTP 415; ends the whole call.
    UnsupportedMediaType415,
    /// HTTP 501; ends the whole call.
    NotImplemented501,
    /// HTTP 429; the next configured server is tried.
    TooManyRequests429,
    /// HTTP 500; the next configured server is tried.
    InternalServerError500,
    /// HTTP 502; the next configured server is tried.
    BadGateway502,
    /// HTTP 504; the next configured server is tried.
    ResolverTimeout504,
    /// Any other HTTP status; the next configured server is tried.
    Unknown,
}

/// A failure of a whole resolve call.
#[derive(Debug, Clone, PartialEq, Eq)]
pub enum DnsError {
    /// The resolver was constructed with an empty server list.
    NoServers,
    /// An attempt failed terminally, or every server was exhausted; carries
    /// the last attempt's failure.
    Query(QueryError),
    /// The server answered the query but signaled a DNS-level error.
    Status(RCode),
    /// The requested record type name is not recognized.
    InvalidRecordType,
}

} // verus!
