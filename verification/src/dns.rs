//! Construction of the resolver, the failover engine, and the resolve
//! operations.
use crate::answer::{
    filter_by_rtype, keeps_rtype, models, mx_process, spec_mx_process,
};
use crate::client::{DnsClient, TransportOutcome};
use crate::decode::{decode_response, doc_model, json_parses, spec_envelope_of};
use crate::error::{DnsError, QueryError};
use crate::registry::{code_to_name, lower_chars, name_to_code, spec_code_to_name, spec_name_to_code};
use crate::status::{rcode_of, spec_rcode_of, RCode};
use crate::{AnswerModel, Dns, DnsAnswer, DnsHttpsServer, DnsResponse, Server};
use vstd::prelude::*;
use vstd::string::StringExecFns;

verus! {

/// What one decoded envelope carries as answers: the `Answer` array, or
/// nothing.
pub open spec fn spec_answers(res: DnsResponse) -> Seq<DnsAnswer> {
    match res.answers {
        Some(list) => list@,
        None => Seq::empty(),
    }
}

/// The name a domain is queried under: its ASCII-compatible (IDNA, punycode)
/// encoding, when the domain has one.
pub uninterp spec fn idna_to_ascii(s: Seq<char>) -> Option<Seq<char>>;

/// Relies on `idna::domain_to_ascii`: the domain-to-ASCII transform depends
/// on the domain's characters alone, and fails exactly when the domain has no
/// ASCII-compatible encoding.
#[verifier::external_body]
fn domain_to_ascii(name: &str) -> (r: Result<String, String>)
    ensures
        r is Ok <==> idna_to_ascii(name@) is Some,
        r matches Ok(s) ==> (idna_to_ascii(name@) matches Some(t) && s@ == t),
{
    match idna::domain_to_ascii(name) {
        Ok(s) => Ok(s),
        Err(e) => Err(format!("{:?}", e)),
    }
}

/// Whether a URL string parses as a URI.
pub uninterp spec fn uri_parses(s: Seq<char>) -> bool;

/// Relies on `http::Uri`'s `FromStr`: whether a string is a well-formed URI
/// depends on its characters alone.
#[verifier::external_body]
fn check_uri(url: &str) -> (r: Result<(), String>)
    ensures
        r is Ok <==> uri_parses(url@),
{
    match url.parse::<http::Uri>() {
        Ok(_) => Ok(()),
        Err(e) => Err(e.to_string()),
    }
}

/// The query URL for one server: `<endpoint>?name=<ascii-name>&type=<type>`.
fn build_url(base: &str, name: &str, rtype_name: &str) -> (r: String)
    ensures
        r@ == base@ + "?name="@ + name@ + "&type="@ + rtype_name@,
{
    let mut url = base.to_owned();
    url.append("?name=");
    url.append(name);
    url.append("&type=");
    url.append(rtype_name);
    url
}

/// What one server attempt decided: hand the decoded envelope on, end the
/// whole call, or advance to the next server.
#[derive(Debug)]
pub enum AttemptDecision {
    /// HTTP 200 with a decodable envelope: the protocol answered.
    Success(DnsResponse),
    /// A failure that ends the whole call at once.
    Terminal(QueryError),
    /// A failure after which the next configured server is tried.
    Retry(QueryError),
}

/// The error a terminal HTTP status stands for, if the status is terminal.
pub open spec fn spec_terminal_error(status: u16) -> Option<QueryError> {
    if status == 400 {
        Some(QueryError::BadRequest400)
    } else if status == 413 {
        Some(QueryError::PayloadTooLarge413)
    } else if status == 414 {
        Some(QueryError::UriTooLong414)
    } else if status == 415 {
        Some(QueryError::UnsupportedMediaType415)
    } else if status == 501 {
        Some(QueryError::NotImplemented501)
    } else {
        None
    }
}

/// The retryable error a non-200, non-terminal HTTP status stands for; a
/// status outside the recognized set maps to `Unknown`.
pub open spec fn spec_retry_error(status: u16) -> QueryError {
    if status == 429 {
        QueryError::TooManyRequests429
    } else if status == 500 {
        QueryError::InternalServerError500
    } else if status == 502 {
        QueryError::BadGateway502
    } else if status == 504 {
        QueryError::ResolverTimeout504
    } else {
        QueryError::Unknown
    }
}

/// The decision for a completed HTTP exchange with a non-200 status.
pub open spec fn spec_status_decision(status: u16) -> AttemptDecision {
    match spec_terminal_error(status) {
        Some(e) => AttemptDecision::Terminal(e),
        None => AttemptDecision::Retry(spec_retry_error(status)),
    }
}

/// Applies the per-attempt policy to the outcome of one transport call:
/// connection failures retry; terminal HTTP statuses end the call; other
/// non-200 statuses retry; a 200 response is decoded: a body whose document
/// models an envelope succeeds with exactly that envelope, anything else
/// retries as a parse error.
pub fn evaluate_attempt(outcome: TransportOutcome) -> (r: AttemptDecision)
    ensures
        outcome matches TransportOutcome::Connection(m) ==> r == AttemptDecision::Retry(
            QueryError::Connection(m),
        ),
        outcome matches TransportOutcome::Response { status, body } ==> ({
            &&& (status != 200 ==> r == spec_status_decision(status))
            &&& (status == 200 ==> (body matches Err(m) ==> r == AttemptDecision::Retry(
                QueryError::ReadResponse(m),
            )))
            &&& (status == 200 ==> (body matches Ok(b) ==> ({
                &&& (!json_parses(b@) ==> (r matches AttemptDecision::Retry(e)
                    && e matches QueryError::ParseResponse(_)))
                &&& (json_parses(b@) ==> (match spec_envelope_of(doc_model(b@)) {
                    Some(env) => r matches AttemptDecision::Success(res) && res@ == env,
                    None => r matches AttemptDecision::Retry(e) && e matches
                        QueryError::ParseResponse(_),
                }))
            })))
        }),
{
    match outcome {
        TransportOutcome::Connection(m) => AttemptDecision::Retry(QueryError::Connection(m)),
        TransportOutcome::Response { status, body } => {
            if status == 200 {
                match body {
                    Err(m) => AttemptDecision::Retry(QueryError::ReadResponse(m)),
                    Ok(b) => match decode_response(&b) {
                        Ok(res) => AttemptDecision::Success(res),
                        Err(m) => AttemptDecision::Retry(QueryError::ParseResponse(m)),
                    },
                }
            } else if status == 400 {
                AttemptDecision::Terminal(QueryError::BadRequest400)
            } else if status == 413 {
                AttemptDecision::Terminal(QueryError::PayloadTooLarge413)
            } else if status == 414 {
                AttemptDecision::Terminal(QueryError::UriTooLong414)
            } else if status == 415 {
                AttemptDecision::Terminal(QueryError::UnsupportedMediaType415)
            } else if status == 501 {
                AttemptDecision::Terminal(QueryError::NotImplemented501)
            } else if status == 429 {
                AttemptDecision::Retry(QueryError::TooManyRequests429)
            } else if status == 500 {
                AttemptDecision::Retry(QueryError::InternalServerError500)
            } else if status == 502 {
                AttemptDecision::Retry(QueryError::BadGateway502)
            } else if status == 504 {
                AttemptDecision::Retry(QueryError::ResolverTimeout504)
            } else {
                AttemptDecision::Retry(QueryError::Unknown)
            }
        },
    }
}

/// Turns one decoded envelope into the final result of a resolve call for
/// the requested type code: `Status` 0 keeps exactly the answers of that
/// type (all of them for `ANY`, 0), in order; any other `Status` fails with
/// the corresponding status error, `Unknown` for an unrecognized code.
pub fn process_response(res: &DnsResponse, rtype: u32) -> (r: Result<Vec<DnsAnswer>, DnsError>)
    ensures
        spec_rcode_of(res.status) == RCode::NoError ==> (r matches Ok(list) && models(list@)
            == models(spec_answers(*res)).filter(|m: AnswerModel| keeps_rtype(m, rtype))),
        spec_rcode_of(res.status) != RCode::NoError ==> r == Err::<Vec<DnsAnswer>, DnsError>(
            DnsError::Status(spec_rcode_of(res.status)),
        ),
{
    match rcode_of(res.status) {
        RCode::NoError => match &res.answers {
            Some(list) => Ok(filter_by_rtype(list, rtype)),
            None => {
                proof {
                    assert(models(spec_answers(*res)) =~= Seq::<AnswerModel>::empty());
                    assert(Seq::<AnswerModel>::empty().filter(
                        |m: AnswerModel| keeps_rtype(m, rtype),
                    ) =~= Seq::<AnswerModel>::empty());
                    assert(models(Seq::<DnsAnswer>::empty()) =~= Seq::<AnswerModel>::empty());
                }
                Ok(Vec::new())
            },
        },
        code => Err(DnsError::Status(code)),
    }
}

/// Turns one decoded envelope into the final result of an MX resolve call:
/// `Status` 0 runs the MX pipeline (keep parsable MX records, stable-sort by
/// ascending priority, strip the priority from the data); any other `Status`
/// fails with the corresponding status error.
pub fn process_mx_response(res: &DnsResponse) -> (r: Result<Vec<DnsAnswer>, DnsError>)
    ensures
        spec_rcode_of(res.status) == RCode::NoError ==> (r matches Ok(list) && models(list@)
            == spec_mx_process(models(spec_answers(*res)))),
        spec_rcode_of(res.status) != RCode::NoError ==> r == Err::<Vec<DnsAnswer>, DnsError>(
            DnsError::Status(spec_rcode_of(res.status)),
        ),
{
    match rcode_of(res.status) {
        RCode::NoError => match &res.answers {
            Some(list) => Ok(mx_process(list)),
            None => {
                let empty: Vec<DnsAnswer> = Vec::new();
                let r = mx_process(&empty);
                proof {
                    assert(models(spec_answers(*res)) =~= models(empty@));
                }
                Ok(r)
            },
        },
        code => Err(DnsError::Status(code)),
    }
}

/// What every resolve operation promises: a domain without an
/// ASCII-compatible encoding fails as an invalid name — and an invalid-name
/// failure arises only from such a domain, never from a server; and any
/// failure is either a propagated attempt failure or a DNS-level status
/// error.
pub open spec fn resolve_contract(name: Seq<char>, r: Result<Vec<DnsAnswer>, DnsError>) -> bool {
    &&& idna_to_ascii(name) is None ==> (r matches Err(e) && e matches DnsError::Query(q)
        && q matches QueryError::InvalidName(_))
    &&& r matches Err(e) ==> (e matches DnsError::Query(_) || e matches DnsError::Status(_))
    &&& r matches Err(e) ==> (e matches DnsError::Query(q) ==> (q matches QueryError::InvalidName(
        _,
    ) ==> idna_to_ascii(name) is None))
}

impl<C: DnsClient, S: DnsHttpsServer> Dns<C, S> {
    /// Creates an instance from an explicit transport client and the given
    /// servers along with their respective timeouts. The servers are tried in
    /// the given order: if a request fails on the first one with a retryable
    /// failure, each subsequent server is tried in turn. Fails with
    /// `NoServers` exactly when the list is empty.
    pub fn with_client(client: C, servers: Vec<S>) -> (r: Result<Self, DnsError>)
        ensures
            servers@.len() == 0 <==> r is Err,
            r matches Err(e) ==> e == DnsError::NoServers,
            r matches Ok(d) ==> d.spec_servers() == servers@,
    {
        if servers.len() == 0 {
            return Err(DnsError::NoServers);
        }
        Ok(Dns { client, servers })
    }

    /// Creates an instance with the given servers along with their respective
    /// timeouts, using the transport client's default configuration. The
    /// servers are tried in the given order. Fails with `NoServers` exactly
    /// when the list is empty.
    pub fn with_servers(servers: Vec<S>) -> (r: Result<Self, DnsError>)
        ensures
            servers@.len() == 0 <==> r is Err,
            r matches Err(e) ==> e == DnsError::NoServers,
            r matches Ok(d) ==> d.spec_servers() == servers@,
    {
        Self::with_client(C::make(), servers)
    }

    /// Drives one query through the configured servers in order: the domain
    /// is ASCII-encoded once, then each server is tried under the per-attempt
    /// policy until an attempt succeeds, fails terminally, or the servers are
    /// exhausted, in which case the last retryable failure is returned.
    fn client_request(&self, name: &str, rtype_name: &str) -> (r: Result<DnsResponse, QueryError>)
        ensures
            idna_to_ascii(name@) is None ==> (r matches Err(e) && e matches
                QueryError::InvalidName(_)),
            r matches Err(e) ==> (e matches QueryError::InvalidName(_) ==> idna_to_ascii(name@)
                is None),
            (idna_to_ascii(name@) is Some && self.spec_servers().len() == 0) ==> r == Err::<
                DnsResponse,
                QueryError,
            >(QueryError::Unknown),
    {
        let ascii = match domain_to_ascii(name) {
            Err(e) => return Err(QueryError::InvalidName(e)),
            Ok(s) => s,
        };
        let mut last_error = QueryError::Unknown;
        let n = self.servers.len();
        #[verifier::loop_isolation(false)]
        for i in 0..n
            invariant
                idna_to_ascii(name@) is Some,
                n == 0 ==> last_error == QueryError::Unknown,
                !(last_error matches QueryError::InvalidName(_)),
        {
            let server = &self.servers[i];
            let url = build_url(server.uri(), ascii.as_str(), rtype_name);
            if let Err(e) = check_uri(url.as_str()) {
                return Err(QueryError::InvalidEndpoint(e));
            }
            let outcome = self.client.get(url.as_str(), server.timeout_millis());
            match evaluate_attempt(outcome) {
                AttemptDecision::Success(res) => return Ok(res),
                AttemptDecision::Terminal(e) => return Err(e),
                AttemptDecision::Retry(e) => {
                    last_error = e;
                },
            }
        }
        Err(last_error)
    }

    /// One resolve call for the given type code: the failover pass, then the
    /// envelope turned into the filtered answer list.
    fn request_and_process(&self, name: &str, rtype_code: u32, rtype_name: &str) -> (r: Result<
        Vec<DnsAnswer>,
        DnsError,
    >)
        ensures
            resolve_contract(name@, r),
    {
        match self.client_request(name, rtype_name) {
            Err(e) => Err(DnsError::Query(e)),
            Ok(res) => process_response(&res, rtype_code),
        }
    }

    /// Returns MX records for the given name in ascending order of priority,
    /// with the priority removed from the data. Records whose data does not
    /// carry a parsable priority and a target are dropped; equal priorities
    /// keep their decoded order.
    pub fn resolve_mx_and_sort(&self, domain: &str) -> (r: Result<Vec<DnsAnswer>, DnsError>)
        ensures
            resolve_contract(domain@, r),
    {
        match self.client_request(domain, "mx") {
            Err(e) => Err(DnsError::Query(e)),
            Ok(res) => process_mx_response(&res),
        }
    }

    /// Resolves the given name for the record type with the given symbolic
    /// name, case-insensitively; fails with `InvalidRecordType` exactly when
    /// the name is not in the registry.
    pub fn resolve_str_type(&self, name: &str, rtype: &str) -> (r: Result<Vec<DnsAnswer>, DnsError>)
        ensures
            spec_name_to_code(lower_chars(rtype@)) is None <==> r == Err::<
                Vec<DnsAnswer>,
                DnsError,
            >(DnsError::InvalidRecordType),
            spec_name_to_code(lower_chars(rtype@)) is Some ==> resolve_contract(name@, r),
    {
        match name_to_code(rtype) {
            None => Err(DnsError::InvalidRecordType),
            Some(code) => match code {
                1 => self.resolve_a(name),
                28 => self.resolve_aaaa(name),
                0 => self.resolve_any(name),
                257 => self.resolve_caa(name),
                59 => self.resolve_cds(name),
                37 => self.resolve_cert(name),
                5 => self.resolve_cname(name),
                39 => self.resolve_dname(name),
                48 => self.resolve_dnskey(name),
                43 => self.resolve_ds(name),
                13 => self.resolve_hinfo(name),
                45 => self.resolve_ipseckey(name),
                15 => self.resolve_mx(name),
                35 => self.resolve_naptr(name),
                2 => self.resolve_ns(name),
                47 => self.resolve_nsec(name),
                50 => self.resolve_nsec3(name),
                51 => self.resolve_nsec3param(name),
                12 => self.resolve_ptr(name),
                17 => self.resolve_rp(name),
                46 => self.resolve_rrsig(name),
                6 => self.resolve_soa(name),
                99 => self.resolve_spf(name),
                33 => self.resolve_srv(name),
                44 => self.resolve_sshfp(name),
                52 => self.resolve_tlsa(name),
                16 => self.resolve_txt(name),
                11 => self.resolve_wks(name),
                _ => {
                    proof {
                        assert(false);
                    }
                    Err(DnsError::InvalidRecordType)
                },
            },
        }
    }

    /// Converts the given record type code to its uppercase string
    /// representation, `UNKNOWN` for a code outside the registry.
    pub fn rtype_to_name(&self, rtype: u32) -> (r: String)
        ensures
            r@ == spec_code_to_name(rtype),
    {
        code_to_name(rtype)
    }
}

impl<C: DnsClient, S: DnsHttpsServer> Dns<C, S> {
    /// Queries a host address for the given name.
    pub fn resolve_a(&self, name: &str) -> (r: Result<Vec<DnsAnswer>, DnsError>)
        ensures
            resolve_contract(name@, r),
    {
        self.request_and_process(name, 1, "a")
    }

    /// Queries an IP6 address for the given name.
    pub fn resolve_aaaa(&self, name: &str) -> (r: Result<Vec<DnsAnswer>, DnsError>)
        ensures
            resolve_contract(name@, r),
    {
        self.request_and_process(name, 28, "aaaa")
    }

    /// Queries all record types for the given name.
    pub fn resolve_any(&self, name: &str) -> (r: Result<Vec<DnsAnswer>, DnsError>)
        ensures
            resolve_contract(name@, r),
    {
        self.request_and_process(name, 0, "any")
    }

    /// Queries a certification authority restriction record for the given name.
    pub fn resolve_caa(&self, name: &str) -> (r: Result<Vec<DnsAnswer>, DnsError>)
        ensures
            resolve_contract(name@, r),
    {
        self.request_and_process(name, 257, "caa")
    }

    /// Queries a child DS record for the given name.
    pub fn resolve_cds(&self, name: &str) -> (r: Result<Vec<DnsAnswer>, DnsError>)
        ensures
            resolve_contract(name@, r),
    {
        self.request_and_process(name, 59, "cds")
    }

    /// Queries a CERT record for the given name.
    pub fn resolve_cert(&self, name: &str) -> (r: Result<Vec<DnsAnswer>, DnsError>)
        ensures
            resolve_contract(name@, r),
    {
        self.request_and_process(name, 37, "cert")
    }

    /// Queries the canonical name for an alias for the given name.
    pub fn resolve_cname(&self, name: &str) -> (r: Result<Vec<DnsAnswer>, DnsError>)
        ensures
            resolve_contract(name@, r),
    {
        self.request_and_process(name, 5, "cname")
    }

    /// Queries a DNAME record for the given name.
    pub fn resolve_dname(&self, name: &str) -> (r: Result<Vec<DnsAnswer>, DnsError>)
        ensures
            resolve_contract(name@, r),
    {
        self.request_and_process(name, 39, "dname")
    }

    /// Queries a DNSKEY record for the given name.
    pub fn resolve_dnskey(&self, name: &str) -> (r: Result<Vec<DnsAnswer>, DnsError>)
        ensures
            resolve_contract(name@, r),
    {
        self.request_and_process(name, 48, "dnskey")
    }

    /// Queries a delegation signer record for the given name.
    pub fn resolve_ds(&self, name: &str) -> (r: Result<Vec<DnsAnswer>, DnsError>)
        ensures
            resolve_contract(name@, r),
    {
        self.request_and_process(name, 43, "ds")
    }

    /// Queries a host information record for the given name.
    pub fn resolve_hinfo(&self, name: &str) -> (r: Result<Vec<DnsAnswer>, DnsError>)
        ensures
            resolve_contract(name@, r),
    {
        self.request_and_process(name, 13, "hinfo")
    }

    /// Queries an IPSECKEY record for the given name.
    pub fn resolve_ipseckey(&self, name: &str) -> (r: Result<Vec<DnsAnswer>, DnsError>)
        ensures
            resolve_contract(name@, r),
    {
        self.request_and_process(name, 45, "ipseckey")
    }

    /// Queries a mail exchange record for the given name.
    pub fn resolve_mx(&self, name: &str) -> (r: Result<Vec<DnsAnswer>, DnsError>)
        ensures
            resolve_contract(name@, r),
    {
        self.request_and_process(name, 15, "mx")
    }

    /// Queries a naming authority pointer record for the given name.
    pub fn resolve_naptr(&self, name: &str) -> (r: Result<Vec<DnsAnswer>, DnsError>)
        ensures
            resolve_contract(name@, r),
    {
        self.request_and_process(name, 35, "naptr")
    }

    /// Queries an authoritative name server record for the given name.
    pub fn resolve_ns(&self, name: &str) -> (r: Result<Vec<DnsAnswer>, DnsError>)
        ensures
            resolve_contract(name@, r),
    {
        self.request_and_process(name, 2, "ns")
    }

    /// Queries an NSEC record for the given name.
    pub fn resolve_nsec(&self, name: &str) -> (r: Result<Vec<DnsAnswer>, DnsError>)
        ensures
            resolve_contract(name@, r),
    {
        self.request_and_process(name, 47, "nsec")
    }

    /// Queries an NSEC3 record for the given name.
    pub fn resolve_nsec3(&self, name: &str) -> (r: Result<Vec<DnsAnswer>, DnsError>)
        ensures
            resolve_contract(name@, r),
    {
        self.request_and_process(name, 50, "nsec3")
    }

    /// Queries an NSEC3PARAM record for the given name.
    pub fn resolve_nsec3param(&self, name: &str) -> (r: Result<Vec<DnsAnswer>, DnsError>)
        ensures
            resolve_contract(name@, r),
    {
        self.request_and_process(name, 51, "nsec3param")
    }

    /// Queries a domain name pointer record for the given name.
    pub fn resolve_ptr(&self, name: &str) -> (r: Result<Vec<DnsAnswer>, DnsError>)
        ensures
            resolve_contract(name@, r),
    {
        self.request_and_process(name, 12, "ptr")
    }

    /// Queries a responsible person record for the given name.
    pub fn resolve_rp(&self, name: &str) -> (r: Result<Vec<DnsAnswer>, DnsError>)
        ensures
            resolve_contract(name@, r),
    {
        self.request_and_process(name, 17, "rp")
    }

    /// Queries an RRSIG record for the given name.
    pub fn resolve_rrsig(&self, name: &str) -> (r: Result<Vec<DnsAnswer>, DnsError>)
        ensures
            resolve_contract(name@, r),
    {
        self.request_and_process(name, 46, "rrsig")
    }

    /// Queries the start of a zone of authority record for the given name.
    pub fn resolve_soa(&self, name: &str) -> (r: Result<Vec<DnsAnswer>, DnsError>)
        ensures
            resolve_contract(name@, r),
    {
        self.request_and_process(name, 6, "soa")
    }

    /// Queries an SPF record for the given name.
    pub fn resolve_spf(&self, name: &str) -> (r: Result<Vec<DnsAnswer>, DnsError>)
        ensures
            resolve_contract(name@, r),
    {
        self.request_and_process(name, 99, "spf")
    }

    /// Queries a server selection record for the given name.
    pub fn resolve_srv(&self, name: &str) -> (r: Result<Vec<DnsAnswer>, DnsError>)
        ensures
            resolve_contract(name@, r),
    {
        self.request_and_process(name, 33, "srv")
    }

    /// Queries an SSH key fingerprint record for the given name.
    pub fn resolve_sshfp(&self, name: &str) -> (r: Result<Vec<DnsAnswer>, DnsError>)
        ensures
            resolve_contract(name@, r),
    {
        self.request_and_process(name, 44, "sshfp")
    }

    /// Queries a TLSA record for the given name.
    pub fn resolve_tlsa(&self, name: &str) -> (r: Result<Vec<DnsAnswer>, DnsError>)
        ensures
            resolve_contract(name@, r),
    {
        self.request_and_process(name, 52, "tlsa")
    }

    /// Queries a text strings record for the given name.
    pub fn resolve_txt(&self, name: &str) -> (r: Result<Vec<DnsAnswer>, DnsError>)
        ensures
            resolve_contract(name@, r),
    {
        self.request_and_process(name, 16, "txt")
    }

    /// Queries a well known service description record for the given name.
    pub fn resolve_wks(&self, name: &str) -> (r: Result<Vec<DnsAnswer>, DnsError>)
        ensures
            resolve_contract(name@, r),
    {
        self.request_and_process(name, 11, "wks")
    }
}

impl<C: DnsClient> Default for Dns<C, Server> {
    /// The zero-configuration setup: Google's DoH server with a timeout of
    /// three seconds, then Cloudflare's with ten.
    fn default() -> (r: Self)
        ensures
            r.spec_servers().len() == 2,
            r.spec_servers()[0].endpoint@ == "https://dns.google/resolve"@,
            r.spec_servers()[0].timeout_millis == 3000u64,
            r.spec_servers()[1].endpoint@ == "https://cloudflare-dns.com/dns-query"@,
            r.spec_servers()[1].timeout_millis == 10000u64,
    {
        let mut servers: Vec<Server> = Vec::new();
        servers.push(Server::new("https://dns.google/resolve".to_owned(), 3000));
        servers.push(Server::new("https://cloudflare-dns.com/dns-query".to_owned(), 10000));
        Dns { client: C::make(), servers }
    }
}

} // verus!
