//! End-to-end tests of the failover engine, driven by a scripted transport.
use doh_dns::client::{DnsClient, TransportOutcome};
use doh_dns::error::{DnsError, QueryError};
use doh_dns::status::RCode;
use doh_dns::{Dns, Server};
use std::cell::RefCell;
use std::rc::Rc;

struct FakeClient {
    script: RefCell<Vec<TransportOutcome>>,
    calls: Rc<RefCell<Vec<String>>>,
}

impl FakeClient {
    fn scripted(script: Vec<TransportOutcome>) -> (FakeClient, Rc<RefCell<Vec<String>>>) {
        let calls = Rc::new(RefCell::new(Vec::new()));
        let client = FakeClient { script: RefCell::new(script), calls: Rc::clone(&calls) };
        (client, calls)
    }
}

impl DnsClient for FakeClient {
    fn make() -> Self {
        let (client, _) = FakeClient::scripted(Vec::new());
        client
    }

    fn get(&self, url: &str, _timeout_millis: u64) -> TransportOutcome {
        self.calls.borrow_mut().push(url.to_string());
        self.script.borrow_mut().remove(0)
    }
}

fn two_servers() -> Vec<Server> {
    vec![
        Server::new("https://one.example/resolve".to_string(), 1000),
        Server::new("https://two.example/resolve".to_string(), 2000),
    ]
}

fn ok_response(status: u16, body: &str) -> TransportOutcome {
    TransportOutcome::Response { status, body: Ok(body.as_bytes().to_vec()) }
}

fn dns_with(
    script: Vec<TransportOutcome>,
    servers: Vec<Server>,
) -> (Dns<FakeClient, Server>, Rc<RefCell<Vec<String>>>) {
    let (client, calls) = FakeClient::scripted(script);
    match Dns::with_client(client, servers) {
        Ok(d) => (d, calls),
        Err(_) => panic!("construction failed"),
    }
}

#[test]
fn empty_server_list_fails_with_no_servers() {
    let r = Dns::<FakeClient, Server>::with_servers(Vec::new());
    assert!(matches!(r, Err(DnsError::NoServers)));
}

#[test]
fn nonempty_server_list_succeeds() {
    let r = Dns::<FakeClient, Server>::with_servers(two_servers());
    assert!(r.is_ok());
}

#[test]
fn default_constructs() {
    let _ = Dns::<FakeClient, Server>::default();
}

#[test]
fn a_resolve_keeps_only_a_records_verbatim() {
    let body = r#"{"Status":0,"Answer":[
        {"name":"memo.com","type":1,"TTL":100,"data":"1.2.3.4"},
        {"name":"memo.com","type":5,"TTL":200,"data":"alias.memo.com"},
        {"name":"memo.com","type":1,"TTL":300,"data":"5.6.7.8"}]}"#;
    let (dns, _) = dns_with(vec![ok_response(200, body)], two_servers());
    let answers = dns.resolve_a("memo.com").unwrap();
    assert_eq!(answers.len(), 2);
    assert_eq!(answers[0].name, "memo.com");
    assert_eq!(answers[0].rtype, 1);
    assert_eq!(answers[0].ttl, 100);
    assert_eq!(answers[0].data, "1.2.3.4");
    assert_eq!(answers[1].ttl, 300);
    assert_eq!(answers[1].data, "5.6.7.8");
}

#[test]
fn any_resolve_keeps_all_records() {
    let body = r#"{"Status":0,"Answer":[
        {"name":"memo.com","type":1,"TTL":100,"data":"1.2.3.4"},
        {"name":"memo.com","type":5,"TTL":200,"data":"alias.memo.com"}]}"#;
    let (dns, _) = dns_with(vec![ok_response(200, body)], two_servers());
    let answers = dns.resolve_any("memo.com").unwrap();
    assert_eq!(answers.len(), 2);
}

#[test]
fn status_error_is_terminal_and_skips_second_server() {
    let (dns, calls) = dns_with(vec![ok_response(200, r#"{"Status":3}"#)], two_servers());
    let r = dns.resolve_a("memo.com");
    assert!(matches!(r, Err(DnsError::Status(RCode::NXDomain))));
    assert_eq!(calls.borrow().len(), 1);
}

#[test]
fn unrecognized_status_code_fails_with_unknown() {
    let (dns, _) = dns_with(vec![ok_response(200, r#"{"Status":99}"#)], two_servers());
    let r = dns.resolve_a("memo.com");
    assert!(matches!(r, Err(DnsError::Status(RCode::Unknown))));
}

#[test]
fn http_429_retries_on_second_server_in_order() {
    let body = r#"{"Status":0,"Answer":[{"name":"memo.com","type":1,"TTL":60,"data":"9.9.9.9"}]}"#;
    let (dns, calls) = dns_with(
        vec![
            TransportOutcome::Response { status: 429, body: Ok(Vec::new()) },
            ok_response(200, body),
        ],
        two_servers(),
    );
    let answers = dns.resolve_a("memo.com").unwrap();
    assert_eq!(answers.len(), 1);
    assert_eq!(answers[0].data, "9.9.9.9");
    let log = calls.borrow();
    assert_eq!(log.len(), 2);
    assert!(log[0].starts_with("https://one.example/resolve?"));
    assert!(log[1].starts_with("https://two.example/resolve?"));
}

#[test]
fn http_400_is_terminal_and_second_server_is_never_contacted() {
    let (dns, calls) = dns_with(
        vec![TransportOutcome::Response { status: 400, body: Ok(Vec::new()) }],
        two_servers(),
    );
    let r = dns.resolve_a("memo.com");
    assert!(matches!(r, Err(DnsError::Query(QueryError::BadRequest400))));
    let log = calls.borrow();
    assert_eq!(log.len(), 1);
    assert!(log[0].starts_with("https://one.example/resolve?"));
}

#[test]
fn connection_failures_exhaust_servers_and_surface_last_error() {
    let (dns, _) = dns_with(
        vec![
            TransportOutcome::Connection("first down".to_string()),
            TransportOutcome::Connection("second down".to_string()),
        ],
        two_servers(),
    );
    let r = dns.resolve_a("memo.com");
    match r {
        Err(DnsError::Query(QueryError::Connection(m))) => assert_eq!(m, "second down"),
        other => panic!("unexpected result: {:?}", other),
    }
}

#[test]
fn unmatched_http_status_retries_and_surfaces_unknown() {
    let (dns, calls) = dns_with(
        vec![
            TransportOutcome::Response { status: 418, body: Ok(Vec::new()) },
            TransportOutcome::Response { status: 418, body: Ok(Vec::new()) },
        ],
        two_servers(),
    );
    let r = dns.resolve_a("memo.com");
    assert!(matches!(r, Err(DnsError::Query(QueryError::Unknown))));
    assert_eq!(calls.borrow().len(), 2);
}

#[test]
fn parse_failure_retries_on_next_server() {
    let body = r#"{"Status":0,"Answer":[{"name":"memo.com","type":1,"TTL":60,"data":"9.9.9.9"}]}"#;
    let (dns, _) = dns_with(
        vec![ok_response(200, "this is not json"), ok_response(200, body)],
        two_servers(),
    );
    let answers = dns.resolve_a("memo.com").unwrap();
    assert_eq!(answers.len(), 1);
}

#[test]
fn read_failure_surfaces_as_read_response() {
    let (dns, _) = dns_with(
        vec![TransportOutcome::Response { status: 200, body: Err("stream cut".to_string()) }],
        vec![Server::new("https://one.example/resolve".to_string(), 1000)],
    );
    let r = dns.resolve_a("memo.com");
    match r {
        Err(DnsError::Query(QueryError::ReadResponse(m))) => assert_eq!(m, "stream cut"),
        other => panic!("unexpected result: {:?}", other),
    }
}

#[test]
fn ttl_out_of_u32_range_is_a_parse_failure() {
    let body = r#"{"Status":0,"Answer":[{"name":"a","type":1,"TTL":4294967296,"data":"x"}]}"#;
    let (dns, _) = dns_with(
        vec![ok_response(200, body)],
        vec![Server::new("https://one.example/resolve".to_string(), 1000)],
    );
    let r = dns.resolve_a("memo.com");
    assert!(matches!(r, Err(DnsError::Query(QueryError::ParseResponse(_)))));
}

#[test]
fn missing_answer_array_yields_empty_result() {
    let (dns, _) = dns_with(vec![ok_response(200, r#"{"Status":0}"#)], two_servers());
    let answers = dns.resolve_a("memo.com").unwrap();
    assert!(answers.is_empty());
}

#[test]
fn invalid_endpoint_is_terminal_without_contacting_servers() {
    let (dns, calls) = dns_with(
        Vec::new(),
        vec![Server::new("https://bad server/resolve".to_string(), 1000)],
    );
    let r = dns.resolve_a("memo.com");
    assert!(matches!(r, Err(DnsError::Query(QueryError::InvalidEndpoint(_)))));
    assert_eq!(calls.borrow().len(), 0);
}

#[test]
fn non_ascii_domain_is_idna_encoded_in_the_query() {
    let (dns, calls) = dns_with(vec![ok_response(200, r#"{"Status":0}"#)], two_servers());
    let answers = dns.resolve_a("b\u{00fc}cher.de").unwrap();
    assert!(answers.is_empty());
    let log = calls.borrow();
    assert_eq!(log.len(), 1);
    assert_eq!(log[0], "https://one.example/resolve?name=xn--bcher-kva.de&type=a");
}

#[test]
fn unencodable_domain_fails_with_invalid_name_before_any_server() {
    let (dns, calls) = dns_with(Vec::new(), two_servers());
    let r = dns.resolve_a("xn--a.example.com");
    assert!(matches!(r, Err(DnsError::Query(QueryError::InvalidName(_)))));
    assert_eq!(calls.borrow().len(), 0);
}

#[test]
fn mx_records_are_sorted_by_priority_with_priority_stripped() {
    let body = r#"{"Status":0,"Answer":[
        {"name":"memo.com","type":15,"TTL":100,"data":"10 mx2.example.com"},
        {"name":"memo.com","type":15,"TTL":100,"data":"5 mx1.example.com"}]}"#;
    let (dns, _) = dns_with(vec![ok_response(200, body)], two_servers());
    let answers = dns.resolve_mx_and_sort("memo.com").unwrap();
    assert_eq!(answers.len(), 2);
    assert_eq!(answers[0].data, "mx1.example.com");
    assert_eq!(answers[1].data, "mx2.example.com");
}

#[test]
fn mx_drops_records_without_parsable_priority_or_target() {
    let body = r#"{"Status":0,"Answer":[
        {"name":"memo.com","type":15,"TTL":100,"data":"notanumber mx.example.com"},
        {"name":"memo.com","type":15,"TTL":100,"data":"10"},
        {"name":"memo.com","type":1,"TTL":100,"data":"1.2.3.4"},
        {"name":"memo.com","type":15,"TTL":100,"data":"7 kept.example.com"}]}"#;
    let (dns, _) = dns_with(vec![ok_response(200, body)], two_servers());
    let answers = dns.resolve_mx_and_sort("memo.com").unwrap();
    assert_eq!(answers.len(), 1);
    assert_eq!(answers[0].data, "kept.example.com");
}

#[test]
fn mx_sort_is_stable_for_equal_priorities() {
    let body = r#"{"Status":0,"Answer":[
        {"name":"memo.com","type":15,"TTL":100,"data":"5 a.example.com"},
        {"name":"memo.com","type":15,"TTL":100,"data":"5 b.example.com"},
        {"name":"memo.com","type":15,"TTL":100,"data":"1 c.example.com"}]}"#;
    let (dns, _) = dns_with(vec![ok_response(200, body)], two_servers());
    let answers = dns.resolve_mx_and_sort("memo.com").unwrap();
    let datas: Vec<&str> = answers.iter().map(|a| a.data.as_str()).collect();
    assert_eq!(datas, vec!["c.example.com", "a.example.com", "b.example.com"]);
}

#[test]
fn mx_keeps_text_from_second_token_onward_and_other_fields() {
    let body = r#"{"Status":0,"Answer":[
        {"name":"memo.com","type":15,"TTL":321,"data":"  10   mx.example.com   extra"}]}"#;
    let (dns, _) = dns_with(vec![ok_response(200, body)], two_servers());
    let answers = dns.resolve_mx_and_sort("memo.com").unwrap();
    assert_eq!(answers.len(), 1);
    assert_eq!(answers[0].name, "memo.com");
    assert_eq!(answers[0].ttl, 321);
    assert_eq!(answers[0].rtype, 15);
    assert_eq!(answers[0].data, "mx.example.com   extra");
}

#[test]
fn mx_status_error_is_terminal() {
    let (dns, calls) = dns_with(vec![ok_response(200, r#"{"Status":2}"#)], two_servers());
    let r = dns.resolve_mx_and_sort("memo.com");
    assert!(matches!(r, Err(DnsError::Status(RCode::ServFail))));
    assert_eq!(calls.borrow().len(), 1);
}

#[test]
fn str_type_dispatch_matches_dedicated_operation() {
    let body = r#"{"Status":0,"Answer":[{"name":"memo.com","type":28,"TTL":60,"data":"::1"}]}"#;
    let (by_name, _) = dns_with(vec![ok_response(200, body)], two_servers());
    let (dedicated, _) = dns_with(vec![ok_response(200, body)], two_servers());
    let a = by_name.resolve_str_type("memo.com", "aaaa").unwrap();
    let b = dedicated.resolve_aaaa("memo.com").unwrap();
    assert_eq!(a, b);
    assert_eq!(a.len(), 1);
    assert_eq!(a[0].data, "::1");
}

#[test]
fn str_type_dispatch_is_case_insensitive() {
    let body = r#"{"Status":0,"Answer":[{"name":"memo.com","type":28,"TTL":60,"data":"::1"}]}"#;
    let (dns, calls) = dns_with(vec![ok_response(200, body)], two_servers());
    let answers = dns.resolve_str_type("memo.com", "AAAA").unwrap();
    assert_eq!(answers.len(), 1);
    let log = calls.borrow();
    assert!(log[0].ends_with("&type=aaaa"));
}

#[test]
fn bogus_record_type_name_fails_without_contacting_servers() {
    let (dns, calls) = dns_with(Vec::new(), two_servers());
    let r = dns.resolve_str_type("memo.com", "bogus");
    assert!(matches!(r, Err(DnsError::InvalidRecordType)));
    assert_eq!(calls.borrow().len(), 0);
}

#[test]
fn rtype_to_name_maps_codes() {
    let (dns, _) = dns_with(Vec::new(), two_servers());
    assert_eq!(dns.rtype_to_name(15), "MX");
    assert_eq!(dns.rtype_to_name(999999), "UNKNOWN");
    assert_eq!(dns.rtype_to_name(28), "AAAA");
}
