//! DNS over HTTPS (DoH) resolution client, JSON API variant.
//!
//! Given a domain name and a desired record type, the resolver queries one or
//! more HTTPS-based DoH endpoints, applies a per-HTTP-status retry policy
//! across the configured servers in order, decodes the provider's JSON
//! envelope, and returns typed DNS answer records.
//!
//! The transport itself is abstracted behind the [`client::DnsClient`] trait,
//! so the failover engine can be driven by any HTTPS client (or by a
//! deterministic fake in tests).
use vstd::prelude::*;

pub mod answer;
pub mod client;
pub mod decode;
pub mod dns;
pub mod error;
pub mod registry;
pub mod status;

verus! {

/// Ghost model of a single DNS answer record: the record's fields with the
/// strings taken as character sequences.
pub ghost struct AnswerModel {
    pub name: Seq<char>,
    pub rtype: u32,
    pub ttl: u32,
    pub data: Seq<char>,
}

/// The data associated with one record returned by a DNS over HTTPS server.
#[derive(Debug, Clone, PartialEq, Eq)]
pub struct DnsAnswer {
    /// The name of the record.
    pub name: String,
    /// The numeric record type. To convert to a string representation use
    /// [`Dns::rtype_to_name`].
    pub rtype: u32,
    /// The time to live in seconds for this record.
    pub ttl: u32,
    /// The data associated with the record.
    pub data: String,
}

impl View for DnsAnswer {
    type V = AnswerModel;

    open spec fn view(&self) -> AnswerModel {
        AnswerModel {
            name: self.name@,
            rtype: self.rtype,
            ttl: self.ttl,
            data: self.data@,
        }
    }
}

/// The decoded JSON envelope of one successful (HTTP 200) DoH response.
/// It exists only between decoding and being turned into a result or error.
#[derive(Debug)]
pub struct DnsResponse {
    /// The DNS response code (`Status` field of the envelope).
    pub status: u32,
    /// The answer records, if the envelope carried any.
    pub answers: Option<Vec<DnsAnswer>>,
    /// An optional comment from the server; unused downstream.
    pub comment: Option<String>,
}

/// Ghost model of one decoded envelope: the response code, the answer
/// models (if an `Answer` array was present), and the comment.
pub ghost struct EnvelopeModel {
    pub status: u32,
    pub answers: Option<Seq<AnswerModel>>,
    pub comment: Option<Seq<char>>,
}

impl View for DnsResponse {
    type V = EnvelopeModel;

    open spec fn view(&self) -> EnvelopeModel {
        EnvelopeModel {
            status: self.status,
            answers: match self.answers {
                Some(list) => Some(list@.map_values(|a: DnsAnswer| a@)),
                None => None,
            },
            comment: match self.comment {
                Some(c) => Some(c@),
                None => None,
            },
        }
    }
}

/// A DoH endpoint together with the timeout applied to each request made
/// against it. Servers are tried in the order they are configured.
pub trait DnsHttpsServer: Sized {
    /// The endpoint URI the query string is appended to.
    fn uri(&self) -> &str;

    /// The per-attempt timeout for this server, in milliseconds.
    fn timeout_millis(&self) -> u64;
}

/// A DoH server configured from plain values: an endpoint URI and a timeout.
#[derive(Debug, Clone)]
pub struct Server {
    /// The endpoint URI, e.g. `https://dns.google/resolve`.
    pub endpoint: String,
    /// The per-attempt timeout in milliseconds.
    pub timeout_millis: u64,
}

impl Server {
    /// Creates a server entry from an endpoint URI and a timeout.
    pub fn new(endpoint: String, timeout_millis: u64) -> (r: Server)
        ensures
            r.endpoint@ == endpoint@,
            r.timeout_millis == timeout_millis,
    {
        Server { endpoint, timeout_millis }
    }
}

impl DnsHttpsServer for Server {
    fn uri(&self) -> &str {
        self.endpoint.as_str()
    }

    fn timeout_millis(&self) -> u64 {
        self.timeout_millis
    }
}

/// The main interface to this library. It provides all functions to query
/// records, driving the configured servers in order through the transport
/// client `C`.
pub struct Dns<C: client::DnsClient, S: DnsHttpsServer> {
    pub(crate) client: C,
    pub(crate) servers: Vec<S>,
}

impl<C: client::DnsClient, S: DnsHttpsServer> Dns<C, S> {
    /// The configured servers, in the order they are tried.
    pub closed spec fn spec_servers(&self) -> Seq<S> {
        self.servers@
    }
}

} // verus!
