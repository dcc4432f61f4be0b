use std::cell::RefCell;

use doh_dns::client::{DnsClient, DnsResponse};
use doh_dns::error::{DnsError, QueryError};
use doh_dns::process::process_mx_response;
use doh_dns::rtype::{rtype_from_str, rtype_name, Rtype};
use doh_dns::status::RCode;
use doh_dns::text::parse_u32;
use doh_dns::{Dns, DnsAnswer};

struct MockDnsClient {
    responses: RefCell<Vec<Result<DnsResponse, QueryError>>>,
}

impl MockDnsClient {
    fn new(responses: Vec<Result<DnsResponse, QueryError>>) -> MockDnsClient {
        MockDnsClient { responses: RefCell::new(responses) }
    }
}

impl DnsClient for MockDnsClient {
    fn request(&self, _name: &str, _rtype: &Rtype) -> Result<DnsResponse, QueryError> {
        self.responses.borrow_mut().remove(0)
    }
}

fn answer(name: &str, rtype: u32, ttl: u32, data: &str) -> DnsAnswer {
    DnsAnswer { name: name.to_string(), rtype, TTL: ttl, data: data.to_string() }
}

fn mixed_response() -> DnsResponse {
    DnsResponse {
        Status: 0,
        Answer: Some(vec![
            answer("x.example.", 15, 60, "10 mail.example."),
            answer("x.example.", 16, 60, "\"note\""),
        ]),
    }
}

#[test]
fn string_dispatch_matches_the_typed_call_case_insensitively() {
    for symbol in ["MX", "mx", "Mx", "mX"] {
        let typed = Dns::new(MockDnsClient::new(vec![Ok(mixed_response())]));
        let expect = typed.resolve_mx("x.example").unwrap();

        let by_string = Dns::new(MockDnsClient::new(vec![Ok(mixed_response())]));
        let got = by_string.resolve_str_type("x.example", symbol).unwrap();

        assert_eq!(got.len(), expect.len(), "symbol {}", symbol);
        for (g, e) in got.iter().zip(expect.iter()) {
            assert_eq!(g.name, e.name);
            assert_eq!(g.rtype, e.rtype);
            assert_eq!(g.TTL, e.TTL);
            assert_eq!(g.data, e.data);
        }
    }
}

#[test]
fn every_supported_symbol_dispatches() {
    let symbols = [
        "a", "aaaa", "any", "caa", "cds", "cert", "cname", "dname", "dnskey", "ds", "hinfo",
        "ipseckey", "mx", "naptr", "ns", "nsec", "nsec3", "nsec3param", "ptr", "rp", "rrsig",
        "soa", "spf", "srv", "sshfp", "tlsa", "txt", "wks",
    ];
    for symbol in symbols {
        let rt = rtype_from_str(symbol).unwrap_or_else(|| panic!("symbol {} missing", symbol));
        assert_eq!(rt.1, symbol);
        let upper = symbol.to_uppercase();
        let rt2 = rtype_from_str(&upper).unwrap();
        assert_eq!(rt2.0, rt.0);
        assert_eq!(rt2.1, symbol);
        // the display name round-trips through the numeric code
        assert_eq!(rtype_name(rt.0), upper);

        let d = Dns::new(MockDnsClient::new(vec![Ok(mixed_response())]));
        assert!(d.resolve_str_type("x.example", symbol).is_ok(), "symbol {}", symbol);
    }
}

#[test]
fn unrecognized_symbols_fail_without_a_request() {
    // no responses are queued: a network request would panic the mock
    let d = Dns::new(MockDnsClient::new(Vec::new()));
    let r = d.resolve_str_type("x.example", "bogus");
    assert_eq!(r.unwrap_err(), DnsError::InvalidRecordType);
    let r = d.resolve_str_type("x.example", "");
    assert_eq!(r.unwrap_err(), DnsError::InvalidRecordType);
}

#[test]
fn numeric_codes_display_as_upper_case_names() {
    let d = Dns::new(MockDnsClient::new(Vec::new()));
    assert_eq!(d.rtype_to_name(15), "MX");
    assert_eq!(d.rtype_to_name(0), "ANY");
    assert_eq!(d.rtype_to_name(28), "AAAA");
    assert_eq!(d.rtype_to_name(257), "CAA");
    assert_eq!(d.rtype_to_name(7777), "UNKNOWN");
}

#[test]
fn status_codes_map_per_the_table() {
    assert_eq!(RCode::from_code(0), RCode::NoError);
    assert_eq!(RCode::from_code(2), RCode::ServFail);
    assert_eq!(RCode::from_code(3), RCode::NXDomain);
    assert_eq!(RCode::from_code(4), RCode::NotImp);
    assert_eq!(RCode::from_code(23), RCode::BADCOOKIE);
    assert_eq!(RCode::from_code(24), RCode::Unknown);
    assert_eq!(RCode::from_code(4096), RCode::Unknown);
    assert_eq!(RCode::NXDomain.message(), "Non-Existent Domain");
}

#[test]
fn priorities_parse_like_unsigned_integers() {
    assert_eq!(parse_u32("30"), Some(30));
    assert_eq!(parse_u32("+7"), Some(7));
    assert_eq!(parse_u32("007"), Some(7));
    assert_eq!(parse_u32("0"), Some(0));
    assert_eq!(parse_u32("4294967295"), Some(u32::MAX));
    assert_eq!(parse_u32("4294967296"), None);
    assert_eq!(parse_u32("99999999999999999999"), None);
    assert_eq!(parse_u32(""), None);
    assert_eq!(parse_u32("+"), None);
    assert_eq!(parse_u32("-1"), None);
    assert_eq!(parse_u32("1 2"), None);
    assert_eq!(parse_u32("12a"), None);
}

#[test]
fn mx_processing_reports_protocol_errors() {
    let response = DnsResponse { Status: 5, Answer: None };
    let r = process_mx_response(response);
    assert_eq!(r.unwrap_err(), DnsError::Status(RCode::Refused));
}

#[test]
fn mx_data_with_extra_tokens_keeps_only_the_exchange() {
    let response = DnsResponse {
        Status: 0,
        Answer: Some(vec![answer("t.example.", 15, 60, "  8   mail.example.   trailing junk ")]),
    };
    let r = process_mx_response(response).unwrap();
    assert_eq!(r.len(), 1);
    assert_eq!(r[0].data, "mail.example.");
}

#[test]
fn error_messages_name_their_cause() {
    let e = DnsError::Query(QueryError::Connection("refused".to_string()));
    assert_eq!(e.message(), "query error: connection error: refused");
    assert_eq!(DnsError::NoServers.message(), "no servers given to resolve query");
    assert_eq!(DnsError::InvalidRecordType.message(), "Invalid record type");
    assert_eq!(
        DnsError::Status(RCode::Refused).message(),
        "DNS response error: Query Refused"
    );
}
