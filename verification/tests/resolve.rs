use std::cell::RefCell;

use doh_dns::client::{DnsClient, DnsResponse};
use doh_dns::error::DnsError;
use doh_dns::status::RCode;
use doh_dns::error::QueryError;
use doh_dns::rtype::Rtype;
use doh_dns::{Dns, DnsAnswer};

struct MockDnsClient {
    responses: RefCell<Vec<Result<DnsResponse, QueryError>>>,
}

impl MockDnsClient {
    fn new(responses: Vec<Result<DnsResponse, QueryError>>) -> MockDnsClient {
        MockDnsClient { responses: RefCell::new(responses) }
    }
}

impl DnsClient for MockDnsClient {
    fn request(&self, _name: &str, _rtype: &Rtype) -> Result<DnsResponse, QueryError> {
        self.responses.borrow_mut().remove(0)
    }
}

fn answer(name: &str, rtype: u32, ttl: u32, data: &str) -> DnsAnswer {
    DnsAnswer { name: name.to_string(), rtype, TTL: ttl, data: data.to_string() }
}

fn a_response() -> DnsResponse {
    DnsResponse {
        Status: 0,
        Answer: Some(vec![
            answer("www.sendgrid.com.", 5, 988, "sendgrid.com."),
            answer("sendgrid.com.", 1, 89, "169.45.113.198"),
            answer("sendgrid.com.", 1, 89, "167.89.118.63"),
            answer("sendgrid.com.", 1, 89, "169.45.89.183"),
            answer("sendgrid.com.", 1, 89, "167.89.118.65"),
        ]),
    }
}

#[test]
fn test_a() {
    let d = Dns::new(MockDnsClient::new(vec![Ok(a_response())]));
    let r = d.resolve_a("sendgrid.com").unwrap();
    assert_eq!(r.len(), 5); // Including CNAME
    assert_eq!(r[0].name, "www.sendgrid.com.");
    assert_eq!(r[0].data, "sendgrid.com.");
    assert_eq!(r[0].rtype, 5);
    assert_eq!(r[0].TTL, 988);
    assert_eq!(r[1].name, "sendgrid.com.");
    assert_eq!(r[1].data, "169.45.113.198");
    assert_eq!(r[1].rtype, 1);
    assert_eq!(r[1].TTL, 89);
    assert_eq!(r[2].name, "sendgrid.com.");
    assert_eq!(r[2].data, "167.89.118.63");
    assert_eq!(r[2].rtype, 1);
    assert_eq!(r[2].TTL, 89);
    assert_eq!(r[3].name, "sendgrid.com.");
    assert_eq!(r[3].data, "169.45.89.183");
    assert_eq!(r[3].rtype, 1);
    assert_eq!(r[3].TTL, 89);
    assert_eq!(r[4].name, "sendgrid.com.");
    assert_eq!(r[4].data, "167.89.118.65");
    assert_eq!(r[4].rtype, 1);
    assert_eq!(r[4].TTL, 89);
}

fn mx_response() -> DnsResponse {
    DnsResponse {
        Status: 0,
        Answer: Some(vec![
            answer("gmail.com.", 15, 3599, "30 alt3.gmail-smtp-in.l.google.com."),
            answer("gmail.com.", 15, 3599, "5 gmail-smtp-in.l.google.com."),
            answer("gmail.com.", 15, 3599, "40 alt4.gmail-smtp-in.l.google.com."),
            answer("gmail.com.", 15, 3599, "10 alt1.gmail-smtp-in.l.google.com."),
            answer("gmail.com.", 15, 3599, "20 alt2.gmail-smtp-in.l.google.com."),
        ]),
    }
}

#[test]
fn test_mx() {
    let d = Dns::new(MockDnsClient::new(vec![Ok(mx_response())]));
    let r = d.resolve_mx_and_sort("gmail.com").unwrap();
    assert_eq!(r.len(), 5);
    assert_eq!(r[0].name, "gmail.com.");
    assert_eq!(r[0].data, "gmail-smtp-in.l.google.com.");
    assert_eq!(r[0].rtype, 15);
    assert_eq!(r[0].TTL, 3599);
    assert_eq!(r[1].name, "gmail.com.");
    assert_eq!(r[1].data, "alt1.gmail-smtp-in.l.google.com.");
    assert_eq!(r[1].rtype, 15);
    assert_eq!(r[1].TTL, 3599);
    assert_eq!(r[2].name, "gmail.com.");
    assert_eq!(r[2].data, "alt2.gmail-smtp-in.l.google.com.");
    assert_eq!(r[2].rtype, 15);
    assert_eq!(r[2].TTL, 3599);
    assert_eq!(r[3].name, "gmail.com.");
    assert_eq!(r[3].data, "alt3.gmail-smtp-in.l.google.com.");
    assert_eq!(r[3].rtype, 15);
    assert_eq!(r[3].TTL, 3599);
    assert_eq!(r[4].name, "gmail.com.");
    assert_eq!(r[4].data, "alt4.gmail-smtp-in.l.google.com.");
    assert_eq!(r[4].rtype, 15);
    assert_eq!(r[4].TTL, 3599);

    let d = Dns::new(MockDnsClient::new(vec![Ok(mx_response())]));
    let r = d.resolve_mx("gmail.com").unwrap();
    assert_eq!(r.len(), 5);
    assert_eq!(r[0].name, "gmail.com.");
    assert_eq!(r[0].data, "30 alt3.gmail-smtp-in.l.google.com.");
    assert_eq!(r[0].rtype, 15);
    assert_eq!(r[0].TTL, 3599);
    assert_eq!(r[1].name, "gmail.com.");
    assert_eq!(r[1].data, "5 gmail-smtp-in.l.google.com.");
    assert_eq!(r[1].rtype, 15);
    assert_eq!(r[1].TTL, 3599);
    assert_eq!(r[2].name, "gmail.com.");
    assert_eq!(r[2].data, "40 alt4.gmail-smtp-in.l.google.com.");
    assert_eq!(r[2].rtype, 15);
    assert_eq!(r[2].TTL, 3599);
    assert_eq!(r[3].name, "gmail.com.");
    assert_eq!(r[3].data, "10 alt1.gmail-smtp-in.l.google.com.");
    assert_eq!(r[3].rtype, 15);
    assert_eq!(r[3].TTL, 3599);
    assert_eq!(r[4].name, "gmail.com.");
    assert_eq!(r[4].data, "20 alt2.gmail-smtp-in.l.google.com.");
    assert_eq!(r[4].rtype, 15);
    assert_eq!(r[4].TTL, 3599);
}

#[test]
fn test_txt() {
    let response = DnsResponse {
        Status: 0,
        Answer: Some(vec![
            answer(
                "google.com.",
                16,
                3599,
                "\"facebook-domain-verification=22rm551cu4k0ab0bxsw536tlds4h95\"",
            ),
            answer(
                "google.com.",
                16,
                3599,
                "\"globalsign-smime-dv=CDYX+XFHUw2wml6/Gb8+59BsH31KzUr6c1l2BPvqKX8=\"",
            ),
            answer("google.com.", 16, 299, "\"docusign=05958488-4752-4ef2-95eb-aa7ba8a3bd0e\""),
            answer("google.com.", 16, 299, "\"docusign=1b0a6754-49b1-4db5-8540-d2c12664b289\""),
            answer("google.com.", 16, 3599, "\"v=spf1 include:_spf.google.com ~all\""),
        ]),
    };
    let d = Dns::new(MockDnsClient::new(vec![Ok(response)]));
    let r = d.resolve_txt("google.com").unwrap();
    assert_eq!(r.len(), 5);
    assert_eq!(r[0].name, "google.com.");
    assert_eq!(r[0].data, "\"facebook-domain-verification=22rm551cu4k0ab0bxsw536tlds4h95\"");
    assert_eq!(r[0].rtype, 16);
    assert_eq!(r[0].TTL, 3599);
    assert_eq!(r[1].name, "google.com.");
    assert_eq!(r[1].data, "\"globalsign-smime-dv=CDYX+XFHUw2wml6/Gb8+59BsH31KzUr6c1l2BPvqKX8=\"");
    assert_eq!(r[1].rtype, 16);
    assert_eq!(r[1].TTL, 3599);
    assert_eq!(r[2].name, "google.com.");
    assert_eq!(r[2].data, "\"docusign=05958488-4752-4ef2-95eb-aa7ba8a3bd0e\"");
    assert_eq!(r[2].rtype, 16);
    assert_eq!(r[2].TTL, 299);
    assert_eq!(r[3].name, "google.com.");
    assert_eq!(r[3].data, "\"docusign=1b0a6754-49b1-4db5-8540-d2c12664b289\"");
    assert_eq!(r[3].rtype, 16);
    assert_eq!(r[3].TTL, 299);
    assert_eq!(r[4].name, "google.com.");
    assert_eq!(r[4].data, "\"v=spf1 include:_spf.google.com ~all\"");
    assert_eq!(r[4].rtype, 16);
    assert_eq!(r[4].TTL, 3599);
}

#[test]
fn any_returns_everything_unfiltered() {
    let d = Dns::new(MockDnsClient::new(vec![Ok(a_response())]));
    let r = d.resolve_any("sendgrid.com").unwrap();
    assert_eq!(r.len(), 5);
    assert_eq!(r[0].rtype, 5);
    assert_eq!(r[1].rtype, 1);
    assert_eq!(r[0].data, "sendgrid.com.");
    assert_eq!(r[4].data, "167.89.118.65");
}

#[test]
fn txt_query_drops_unrelated_records() {
    let response = DnsResponse {
        Status: 0,
        Answer: Some(vec![
            answer("x.example.", 5, 60, "y.example."),
            answer("y.example.", 1, 60, "192.0.2.1"),
            answer("x.example.", 16, 60, "\"hello\""),
        ]),
    };
    let d = Dns::new(MockDnsClient::new(vec![Ok(response)]));
    let r = d.resolve_txt("x.example").unwrap();
    assert_eq!(r.len(), 1);
    assert_eq!(r[0].rtype, 16);
    assert_eq!(r[0].data, "\"hello\"");
}

#[test]
fn cname_does_not_surface_for_txt_but_does_for_aaaa() {
    let response = DnsResponse {
        Status: 0,
        Answer: Some(vec![
            answer("x.example.", 5, 60, "y.example."),
            answer("y.example.", 28, 60, "2001:db8::1"),
        ]),
    };
    let d = Dns::new(MockDnsClient::new(vec![Ok(response)]));
    let r = d.resolve_aaaa("x.example").unwrap();
    assert_eq!(r.len(), 2);
    assert_eq!(r[0].rtype, 5);
    assert_eq!(r[1].rtype, 28);
}

#[test]
fn protocol_status_error_is_terminal() {
    let response = DnsResponse {
        Status: 3,
        Answer: Some(vec![answer("missing.example.", 1, 60, "192.0.2.7")]),
    };
    let d = Dns::new(MockDnsClient::new(vec![Ok(response)]));
    let r = d.resolve_a("missing.example");
    assert_eq!(r.unwrap_err(), DnsError::Status(RCode::NXDomain));
}

#[test]
fn unmapped_status_reports_unknown() {
    let response = DnsResponse { Status: 77, Answer: None };
    let d = Dns::new(MockDnsClient::new(vec![Ok(response)]));
    let r = d.resolve_a("x.example");
    assert_eq!(r.unwrap_err(), DnsError::Status(RCode::Unknown));
}

#[test]
fn query_error_is_wrapped() {
    let d = Dns::new(MockDnsClient::new(vec![Err(QueryError::InternalServerError500)]));
    let r = d.resolve_a("x.example");
    assert_eq!(r.unwrap_err(), DnsError::Query(QueryError::InternalServerError500));
}

#[test]
fn absent_answer_list_is_empty() {
    let response = DnsResponse { Status: 0, Answer: None };
    let d = Dns::new(MockDnsClient::new(vec![Ok(response)]));
    let r = d.resolve_a("empty.example").unwrap();
    assert!(r.is_empty());
}

#[test]
fn mx_sort_keeps_ties_in_received_order() {
    let response = DnsResponse {
        Status: 0,
        Answer: Some(vec![
            answer("t.example.", 15, 60, "10 second.example."),
            answer("t.example.", 15, 60, "5 first.example."),
            answer("t.example.", 15, 60, "10 third.example."),
        ]),
    };
    let d = Dns::new(MockDnsClient::new(vec![Ok(response)]));
    let r = d.resolve_mx_and_sort("t.example").unwrap();
    assert_eq!(r.len(), 3);
    assert_eq!(r[0].data, "first.example.");
    assert_eq!(r[1].data, "second.example.");
    assert_eq!(r[2].data, "third.example.");
}

#[test]
fn malformed_mx_data_is_silently_dropped() {
    let response = DnsResponse {
        Status: 0,
        Answer: Some(vec![
            answer("t.example.", 15, 60, "nonsense"),
            answer("t.example.", 15, 60, "10"),
            answer("t.example.", 15, 60, "notanumber mail.example."),
            answer("t.example.", 16, 60, "5 not-an-mx.example."),
            answer("t.example.", 15, 60, "7 mail.example."),
        ]),
    };
    let d = Dns::new(MockDnsClient::new(vec![Ok(response)]));
    let r = d.resolve_mx_and_sort("t.example").unwrap();
    assert_eq!(r.len(), 1);
    assert_eq!(r[0].data, "mail.example.");
    assert_eq!(r[0].rtype, 15);
}
