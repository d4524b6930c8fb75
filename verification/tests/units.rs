//! Unit tests of the registry, the attempt policy, response processing, and
//! the MX priority parser.
use doh_dns::answer::{mx_priority, mx_process, parse_u32_str};
use doh_dns::client::TransportOutcome;
use doh_dns::decode::decode_response;
use doh_dns::dns::{evaluate_attempt, process_response, AttemptDecision};
use doh_dns::error::{DnsError, QueryError};
use doh_dns::registry::{code_to_name, name_to_code};
use doh_dns::status::{rcode_of, RCode};
use doh_dns::{DnsAnswer, DnsResponse};

fn answer(rtype: u32, data: &str) -> DnsAnswer {
    DnsAnswer { name: "memo.com".to_string(), rtype, ttl: 60, data: data.to_string() }
}

#[test]
fn registry_name_lookup_is_case_insensitive() {
    assert_eq!(name_to_code("mx"), Some(15));
    assert_eq!(name_to_code("MX"), Some(15));
    assert_eq!(name_to_code("Aaaa"), Some(28));
    assert_eq!(name_to_code("any"), Some(0));
    assert_eq!(name_to_code("caa"), Some(257));
    assert_eq!(name_to_code("bogus"), None);
    assert_eq!(name_to_code(""), None);
}

#[test]
fn registry_code_lookup_yields_uppercase_names() {
    assert_eq!(code_to_name(1), "A");
    assert_eq!(code_to_name(28), "AAAA");
    assert_eq!(code_to_name(0), "ANY");
    assert_eq!(code_to_name(51), "NSEC3PARAM");
    assert_eq!(code_to_name(999999), "UNKNOWN");
}

#[test]
fn rcode_mapping_recognizes_the_registered_range() {
    assert_eq!(rcode_of(0), RCode::NoError);
    assert_eq!(rcode_of(3), RCode::NXDomain);
    assert_eq!(rcode_of(10), RCode::NotZone);
    assert_eq!(rcode_of(11), RCode::Unknown);
    assert_eq!(rcode_of(4294967295), RCode::Unknown);
}

#[test]
fn parse_u32_accepts_what_std_accepts() {
    assert_eq!(parse_u32_str("10"), Some(10));
    assert_eq!(parse_u32_str("+7"), Some(7));
    assert_eq!(parse_u32_str("0"), Some(0));
    assert_eq!(parse_u32_str("4294967295"), Some(u32::MAX));
    assert_eq!(parse_u32_str("0004294967295"), Some(u32::MAX));
    assert_eq!(parse_u32_str("4294967296"), None);
    assert_eq!(parse_u32_str(""), None);
    assert_eq!(parse_u32_str("+"), None);
    assert_eq!(parse_u32_str("-1"), None);
    assert_eq!(parse_u32_str("12a"), None);
    assert_eq!(parse_u32_str(" 12"), None);
}

#[test]
fn mx_priority_splits_on_ascii_whitespace() {
    let r = mx_priority(&answer(15, "10\tmx.example.com"));
    let (p, a) = r.unwrap();
    assert_eq!(p, 10);
    assert_eq!(a.data, "mx.example.com");
    assert!(mx_priority(&answer(15, "10")).is_none());
    assert!(mx_priority(&answer(15, "")).is_none());
    assert!(mx_priority(&answer(15, "x mx.example.com")).is_none());
}

#[test]
fn mx_process_sorts_and_strips() {
    let answers = vec![
        answer(15, "20 b.example.com"),
        answer(15, "10 a.example.com"),
        answer(1, "1.2.3.4"),
    ];
    let out = mx_process(&answers);
    assert_eq!(out.len(), 2);
    assert_eq!(out[0].data, "a.example.com");
    assert_eq!(out[1].data, "b.example.com");
}

#[test]
fn process_response_filters_by_requested_type() {
    let res = DnsResponse {
        status: 0,
        answers: Some(vec![answer(1, "1.2.3.4"), answer(5, "alias"), answer(1, "5.6.7.8")]),
        comment: None,
    };
    let out = process_response(&res, 1).unwrap();
    assert_eq!(out.len(), 2);
    assert_eq!(out[0].data, "1.2.3.4");
    assert_eq!(out[1].data, "5.6.7.8");
    let all = process_response(&res, 0).unwrap();
    assert_eq!(all.len(), 3);
}

#[test]
fn process_response_turns_nonzero_status_into_status_error() {
    let res = DnsResponse { status: 3, answers: None, comment: None };
    assert_eq!(process_response(&res, 1), Err(DnsError::Status(RCode::NXDomain)));
    let res2 = DnsResponse { status: 77, answers: None, comment: None };
    assert_eq!(process_response(&res2, 1), Err(DnsError::Status(RCode::Unknown)));
}

#[test]
fn parse_u32_agrees_with_std() {
    let cases = [
        "10", "+7", "0", "4294967295", "4294967296", "", "+", "-1", "12a", " 12", "007",
        "++1", "1 ", "99999999999999999999",
    ];
    for s in cases {
        assert_eq!(parse_u32_str(s), s.parse::<u32>().ok(), "input {:?}", s);
    }
}

#[test]
fn evaluate_attempt_covers_every_terminal_and_retryable_status() {
    let cases: Vec<(u16, QueryError, bool)> = vec![
        (400, QueryError::BadRequest400, true),
        (413, QueryError::PayloadTooLarge413, true),
        (414, QueryError::UriTooLong414, true),
        (415, QueryError::UnsupportedMediaType415, true),
        (501, QueryError::NotImplemented501, true),
        (429, QueryError::TooManyRequests429, false),
        (500, QueryError::InternalServerError500, false),
        (502, QueryError::BadGateway502, false),
        (504, QueryError::ResolverTimeout504, false),
        (418, QueryError::Unknown, false),
    ];
    for (status, expected, terminal) in cases {
        let d = evaluate_attempt(TransportOutcome::Response { status, body: Ok(Vec::new()) });
        match d {
            AttemptDecision::Terminal(e) => {
                assert!(terminal, "status {} should not be terminal", status);
                assert_eq!(e, expected);
            }
            AttemptDecision::Retry(e) => {
                assert!(!terminal, "status {} should be terminal", status);
                assert_eq!(e, expected);
            }
            AttemptDecision::Success(_) => panic!("status {} cannot succeed", status),
        }
    }
}

#[test]
fn evaluate_attempt_applies_the_status_policy() {
    let terminal = evaluate_attempt(TransportOutcome::Response { status: 414, body: Ok(vec![]) });
    assert!(matches!(terminal, AttemptDecision::Terminal(QueryError::UriTooLong414)));
    let retry = evaluate_attempt(TransportOutcome::Response { status: 504, body: Ok(vec![]) });
    assert!(matches!(retry, AttemptDecision::Retry(QueryError::ResolverTimeout504)));
    let unknown = evaluate_attempt(TransportOutcome::Response { status: 302, body: Ok(vec![]) });
    assert!(matches!(unknown, AttemptDecision::Retry(QueryError::Unknown)));
    let conn = evaluate_attempt(TransportOutcome::Connection("down".to_string()));
    assert!(matches!(conn, AttemptDecision::Retry(QueryError::Connection(_))));
}

#[test]
fn evaluate_attempt_decodes_a_200_body() {
    let body = br#"{"Status":0,"Answer":[{"name":"m","type":1,"TTL":9,"data":"d"}]}"#.to_vec();
    let ok = evaluate_attempt(TransportOutcome::Response { status: 200, body: Ok(body) });
    match ok {
        AttemptDecision::Success(res) => {
            assert_eq!(res.status, 0);
            let list = res.answers.unwrap();
            assert_eq!(list.len(), 1);
            assert_eq!(list[0].ttl, 9);
        },
        other => panic!("unexpected decision: {:?}", other),
    }
    let bad = evaluate_attempt(TransportOutcome::Response {
        status: 200,
        body: Ok(b"{".to_vec()),
    });
    assert!(matches!(bad, AttemptDecision::Retry(QueryError::ParseResponse(_))));
}

#[test]
fn decode_accepts_the_envelope_shape() {
    let res = decode_response(
        &br#"{"Status":2,"Comment":"broken","Extra":true}"#.to_vec(),
    ).unwrap();
    assert_eq!(res.status, 2);
    assert!(res.answers.is_none());
    assert_eq!(res.comment.as_deref(), Some("broken"));
    let nulls = decode_response(&br#"{"Status":0,"Answer":null,"Comment":null}"#.to_vec()).unwrap();
    assert!(nulls.answers.is_none());
    assert!(nulls.comment.is_none());
}

#[test]
fn decode_rejects_malformed_envelopes() {
    assert!(decode_response(&b"[]".to_vec()).is_err());
    assert!(decode_response(&b"{}".to_vec()).is_err());
    assert!(decode_response(&br#"{"Status":"zero"}"#.to_vec()).is_err());
    assert!(decode_response(&br#"{"Status":-1}"#.to_vec()).is_err());
    assert!(decode_response(&br#"{"Status":4294967296}"#.to_vec()).is_err());
    assert!(decode_response(&br#"{"Status":0,"Answer":{}}"#.to_vec()).is_err());
    assert!(decode_response(&br#"{"Status":0,"Answer":[{"name":"x"}]}"#.to_vec()).is_err());
    assert!(decode_response(&br#"{"Status":0,"Comment":7}"#.to_vec()).is_err());
}
