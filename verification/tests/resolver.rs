use doh_dns::resolver::StaticResolver;
use doh_dns::DnsHttpsServer;

#[test]
fn test_static_resolve() {
    let mut resolver = StaticResolver::new(&[DnsHttpsServer::Google(10000)]);
    assert_eq!(resolver.resolve("dns.google").unwrap(), "8.8.8.8");
    assert_eq!(resolver.resolve("dns.google").unwrap(), "2001:4860:4860::8888");
    assert_eq!(resolver.resolve("dns.google").unwrap(), "8.8.4.4");
    assert_eq!(resolver.resolve("dns.google").unwrap(), "2001:4860:4860::8844");
    // The cursor wraps: the fifth resolution starts the list over.
    assert_eq!(resolver.resolve("dns.google").unwrap(), "8.8.8.8");
}

#[test]
fn unknown_hostname_is_not_available() {
    let mut resolver = StaticResolver::new(&[DnsHttpsServer::Google(10000)]);
    assert!(resolver.resolve("dns.example").is_none());
    // The cursor of a known hostname is untouched by the failed lookup.
    assert_eq!(resolver.resolve("dns.google").unwrap(), "8.8.8.8");
}

#[test]
fn empty_candidate_list_is_not_available() {
    let server = DnsHttpsServer::new(
        "doh.example".to_string(),
        "dns-query".to_string(),
        Vec::new(),
        1000,
    );
    let mut resolver = StaticResolver::new(&[server]);
    assert!(resolver.resolve("doh.example").is_none());
}

#[test]
fn two_candidates_alternate_indefinitely() {
    let server = DnsHttpsServer::new(
        "doh.example".to_string(),
        "dns-query".to_string(),
        vec!["192.0.2.1".to_string(), "192.0.2.2".to_string()],
        1000,
    );
    let mut resolver = StaticResolver::new(&[server]);
    for n in 1..=10 {
        let got = resolver.resolve("doh.example").unwrap();
        if n % 2 == 1 {
            assert_eq!(got, "192.0.2.1", "resolution {}", n);
        } else {
            assert_eq!(got, "192.0.2.2", "resolution {}", n);
        }
    }
}

#[test]
fn hostnames_keep_separate_cursors() {
    let servers = [DnsHttpsServer::Google(2000), DnsHttpsServer::Cloudflare(10000)];
    let mut resolver = StaticResolver::new(&servers);
    assert_eq!(resolver.resolve("dns.google").unwrap(), "8.8.8.8");
    assert_eq!(resolver.resolve("cloudflare-dns.com").unwrap(), "1.1.1.1");
    assert_eq!(resolver.resolve("dns.google").unwrap(), "2001:4860:4860::8888");
    assert_eq!(resolver.resolve("cloudflare-dns.com").unwrap(), "2606:4700:4700::1111");
}

#[test]
fn repeated_hostname_keeps_the_later_addresses() {
    let first = DnsHttpsServer::new(
        "doh.example".to_string(),
        "dns-query".to_string(),
        vec!["192.0.2.1".to_string()],
        1000,
    );
    let second = DnsHttpsServer::new(
        "doh.example".to_string(),
        "dns-query".to_string(),
        vec!["198.51.100.9".to_string(), "198.51.100.10".to_string()],
        2000,
    );
    let mut resolver = StaticResolver::new(&[first, second]);
    assert_eq!(resolver.resolve("doh.example").unwrap(), "198.51.100.9");
    assert_eq!(resolver.resolve("doh.example").unwrap(), "198.51.100.10");
    assert_eq!(resolver.resolve("doh.example").unwrap(), "198.51.100.9");
}
