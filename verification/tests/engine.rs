use doh_dns::client::{
    classify, AttemptEvent, Classification, DnsResponse, EngineAction, RequestEngine,
};
use doh_dns::error::{DnsError, QueryError};
use doh_dns::rtype::Rtype;
use doh_dns::DnsHttpsServer;

fn two_servers() -> Vec<DnsHttpsServer> {
    vec![DnsHttpsServer::Google(2000), DnsHttpsServer::Cloudflare(10000)]
}

fn attempt_url(action: &EngineAction) -> (usize, String) {
    match action {
        EngineAction::Attempt { index, url } => (*index, url.clone()),
        other => panic!("expected an attempt, got {:?}", other),
    }
}

fn finished(action: EngineAction) -> Result<DnsResponse, QueryError> {
    match action {
        EngineAction::Finish(out) => out,
        other => panic!("expected the call to finish, got {:?}", other),
    }
}

#[test]
fn empty_catalog_is_refused() {
    let r = RequestEngine::with_servers(Vec::new());
    assert_eq!(r.err().unwrap(), DnsError::NoServers);
}

#[test]
fn non_empty_catalog_is_accepted() {
    let engine = RequestEngine::with_servers(two_servers()).unwrap();
    assert_eq!(engine.server_count(), 2);
    assert_eq!(engine.server(0).domain(), "dns.google");
    assert_eq!(engine.server(1).domain(), "cloudflare-dns.com");
    assert_eq!(engine.server(0).timeout_ms(), 2000);
}

#[test]
fn query_urls_follow_the_configured_servers() {
    let engine = RequestEngine::with_servers(two_servers()).unwrap();
    assert_eq!(engine.url_for(0, "example.com", "mx"), "https://dns.google/resolve?name=example.com&type=mx");
    assert_eq!(
        engine.url_for(1, "example.com", "aaaa"),
        "https://cloudflare-dns.com/dns-query?name=example.com&type=aaaa"
    );
}

#[test]
fn begin_encodes_the_name_to_ascii() {
    let engine = RequestEngine::with_servers(two_servers()).unwrap();
    let (state, action) = engine.begin("b\u{fc}cher.example", &Rtype(1, "a"));
    let (index, url) = attempt_url(&action);
    assert_eq!(index, 0);
    assert_eq!(url, "https://dns.google/resolve?name=xn--bcher-kva.example&type=a");
    assert_eq!(state.ascii_name, "xn--bcher-kva.example");
    assert_eq!(state.symbol, "a");
    assert_eq!(state.idx, 0);
}

#[test]
fn fatal_statuses_finish_after_one_attempt() {
    let fatal = [
        (400u16, QueryError::BadRequest400),
        (413, QueryError::PayloadTooLarge413),
        (414, QueryError::UriTooLong414),
        (415, QueryError::UnsupportedMediaType415),
        (501, QueryError::NotImplemented501),
    ];
    for (status, expected) in fatal {
        let engine = RequestEngine::with_servers(two_servers()).unwrap();
        let (state, action) = engine.begin("example.com", &Rtype(1, "a"));
        let (index, _) = attempt_url(&action);
        assert_eq!(index, 0);
        let (_, action) = engine.step(state, AttemptEvent::HttpStatus(status));
        assert_eq!(finished(action).err().unwrap(), expected);
    }
}

#[test]
fn retryable_statuses_fail_over_to_the_next_server() {
    let retryable = [
        (429u16, QueryError::TooManyRequests429),
        (500, QueryError::InternalServerError500),
        (502, QueryError::BadGateway502),
        (504, QueryError::ResolverTimeout504),
    ];
    for (status, _) in retryable {
        let engine = RequestEngine::with_servers(two_servers()).unwrap();
        let (state, _) = engine.begin("example.com", &Rtype(1, "a"));
        let (state, action) = engine.step(state, AttemptEvent::HttpStatus(status));
        let (index, url) = attempt_url(&action);
        assert_eq!(index, 1);
        assert_eq!(url, "https://cloudflare-dns.com/dns-query?name=example.com&type=a");
        let response = DnsResponse { Status: 0, Answer: None };
        let (_, action) = engine.step(state, AttemptEvent::Decoded(response));
        let out = finished(action).unwrap();
        assert_eq!(out.Status, 0);
        assert!(out.Answer.is_none());
    }
}

#[test]
fn single_server_exhaustion_returns_the_last_error() {
    let engine = RequestEngine::with_servers(vec![DnsHttpsServer::Google(2000)]).unwrap();
    let (state, _) = engine.begin("example.com", &Rtype(1, "a"));
    let (_, action) = engine.step(state, AttemptEvent::HttpStatus(502));
    assert_eq!(finished(action).err().unwrap(), QueryError::BadGateway502);
}

#[test]
fn exhaustion_after_failover_returns_the_most_recent_error() {
    let engine = RequestEngine::with_servers(two_servers()).unwrap();
    let (state, _) = engine.begin("example.com", &Rtype(1, "a"));
    let (state, action) = engine.step(state, AttemptEvent::HttpStatus(500));
    assert_eq!(attempt_url(&action).0, 1);
    let (_, action) = engine.step(state, AttemptEvent::HttpStatus(429));
    assert_eq!(finished(action).err().unwrap(), QueryError::TooManyRequests429);
}

#[test]
fn timeouts_and_transport_failures_retry_as_connection_errors() {
    let engine = RequestEngine::with_servers(two_servers()).unwrap();
    let (state, _) = engine.begin("example.com", &Rtype(1, "a"));
    let (state, action) = engine.step(state, AttemptEvent::Timeout("deadline elapsed".to_string()));
    assert_eq!(attempt_url(&action).0, 1);
    let (_, action) = engine.step(state, AttemptEvent::TransportError("refused".to_string()));
    assert_eq!(finished(action).err().unwrap(), QueryError::Connection("refused".to_string()));
}

#[test]
fn body_failures_are_fatal() {
    let engine = RequestEngine::with_servers(two_servers()).unwrap();
    let (state, _) = engine.begin("example.com", &Rtype(1, "a"));
    let (_, action) = engine.step(state, AttemptEvent::ReadError("closed".to_string()));
    assert_eq!(finished(action).err().unwrap(), QueryError::ReadResponse("closed".to_string()));

    let (state, _) = engine.begin("example.com", &Rtype(1, "a"));
    let (_, action) = engine.step(state, AttemptEvent::DecodeError("bad json".to_string()));
    assert_eq!(finished(action).err().unwrap(), QueryError::ParseResponse("bad json".to_string()));
}

#[test]
fn bad_urls_are_fatal() {
    let engine = RequestEngine::with_servers(two_servers()).unwrap();
    let (state, _) = engine.begin("example.com", &Rtype(1, "a"));
    let (_, action) = engine.step(
        state,
        AttemptEvent::InvalidUrl("bad scheme".to_string(), "https://x".to_string()),
    );
    assert_eq!(
        finished(action).err().unwrap(),
        QueryError::InvalidEndpoint("bad scheme".to_string(), "https://x".to_string())
    );
}

#[test]
fn unlisted_statuses_retry_as_unknown() {
    let engine = RequestEngine::with_servers(vec![DnsHttpsServer::Google(2000)]).unwrap();
    let (state, _) = engine.begin("example.com", &Rtype(1, "a"));
    let (_, action) = engine.step(state, AttemptEvent::HttpStatus(418));
    assert_eq!(finished(action).err().unwrap(), QueryError::Unknown);
}

#[test]
fn classification_is_independent_of_the_server_list() {
    assert!(matches!(
        classify(AttemptEvent::HttpStatus(400)),
        Classification::Fatal(QueryError::BadRequest400)
    ));
    assert!(matches!(
        classify(AttemptEvent::HttpStatus(504)),
        Classification::Retryable(QueryError::ResolverTimeout504)
    ));
    assert!(matches!(
        classify(AttemptEvent::HttpStatus(403)),
        Classification::Retryable(QueryError::Unknown)
    ));
    assert!(matches!(
        classify(AttemptEvent::Decoded(DnsResponse { Status: 0, Answer: None })),
        Classification::Success(_)
    ));
}

#[test]
fn custom_servers_shape_urls_and_catalog() {
    let server = DnsHttpsServer::new(
        "doh.opendns.com".to_string(),
        "dns-query".to_string(),
        vec!["208.67.222.222".to_string(), "208.67.220.220".to_string()],
        10000,
    );
    let engine = RequestEngine::with_servers(vec![server]).unwrap();
    assert_eq!(
        engine.url_for(0, "example.com", "txt"),
        "https://doh.opendns.com/dns-query?name=example.com&type=txt"
    );
    assert_eq!(engine.server(0).addr(), vec!["208.67.222.222", "208.67.220.220"]);
}

#[test]
fn unencodable_names_fail_before_any_attempt() {
    let engine = RequestEngine::with_servers(two_servers()).unwrap();
    // a label with the punycode prefix but an undecodable remainder
    let (_, action) = engine.begin("xn--ls8h=.example", &Rtype(1, "a"));
    match finished(action) {
        Err(QueryError::InvalidName(_)) => {},
        other => panic!("expected an invalid name, got {:?}", other),
    }
}
