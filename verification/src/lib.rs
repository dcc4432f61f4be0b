//! A client core for DNS over HTTPS (DoH), in the style of the JSON APIs
//! served by Google and Cloudflare.
//!
//! The crate resolves domain names to typed DNS records through an ordered
//! list of DoH endpoints with per-endpoint timeouts and failover.  The
//! decision logic — endpoint selection, retry classification, static
//! round-robin resolution of the endpoints' own hostnames, and response
//! post-processing — is verified; the HTTPS transport and JSON decoding are
//! collaborators behind narrow interfaces.
use vstd::prelude::*;

pub mod client;
pub mod dns;
pub mod error;
pub mod process;
pub mod resolver;
pub mod rtype;
pub mod status;
pub mod text;

pub use client::DnsAnswer;
pub use dns::Dns;

verus! {

/// The candidate addresses used for Google's DoH server, in the fixed
/// order the resolver cycles through.
pub open spec fn google_addr_seq() -> Seq<Seq<char>> {
    seq!["8.8.8.8"@, "2001:4860:4860::8888"@, "8.8.4.4"@, "2001:4860:4860::8844"@]
}

/// The candidate addresses used for Cloudflare's DoH server.
pub open spec fn cloudflare_addr_seq() -> Seq<Seq<char>> {
    seq!["1.1.1.1"@, "2606:4700:4700::1111"@, "1.0.0.1"@, "2606:4700:4700::1001"@]
}

/// A DNS over HTTPS server a client may query, with its per-request
/// timeout in milliseconds.  Servers are handed to a client in order of
/// priority: subsequent servers are only used when a request has to be
/// retried.
#[derive(Debug, Clone)]
pub enum DnsHttpsServer {
    /// Google's DoH server.  Google does not accept queries addressed to
    /// `8.8.8.8` directly; it needs the hostname `dns.google`, which is
    /// resolved statically to Google's public addresses in round-robin
    /// form.
    Google(u64),
    /// Cloudflare's DoH server.  Cloudflare does not respond to `ANY`
    /// queries.
    Cloudflare(u64),
    /// A custom DoH server: hostname, URL path, static candidate
    /// addresses in textual form, and timeout in milliseconds.
    Custom { domain: String, path: String, addr: Vec<String>, timeout_ms: u64 },
}

impl DnsHttpsServer {
    /// The hostname of this server.
    pub open spec fn domain_view(&self) -> Seq<char> {
        match self {
            DnsHttpsServer::Google(_) => "dns.google"@,
            DnsHttpsServer::Cloudflare(_) => "cloudflare-dns.com"@,
            DnsHttpsServer::Custom { domain, .. } => domain@,
        }
    }

    /// The URL path of this server's resolve endpoint.
    pub open spec fn path_view(&self) -> Seq<char> {
        match self {
            DnsHttpsServer::Google(_) => "resolve"@,
            DnsHttpsServer::Cloudflare(_) => "dns-query"@,
            DnsHttpsServer::Custom { path, .. } => path@,
        }
    }

    /// The candidate addresses of this server, in resolution order; an
    /// empty sequence means the hostname is left to real DNS.
    pub open spec fn addrs_view(&self) -> Seq<Seq<char>> {
        match self {
            DnsHttpsServer::Google(_) => google_addr_seq(),
            DnsHttpsServer::Cloudflare(_) => cloudflare_addr_seq(),
            DnsHttpsServer::Custom { addr, .. } => addr.deep_view(),
        }
    }

    /// The per-request timeout of this server, in milliseconds.
    pub open spec fn timeout_view(&self) -> u64 {
        match self {
            DnsHttpsServer::Google(t) => *t,
            DnsHttpsServer::Cloudflare(t) => *t,
            DnsHttpsServer::Custom { timeout_ms, .. } => *timeout_ms,
        }
    }

    /// A custom DoH server from its hostname, URL path, candidate
    /// addresses and timeout in milliseconds.
    pub fn new(domain: String, path: String, addr: Vec<String>, timeout_ms: u64) -> (r:
        DnsHttpsServer)
        ensures
            r is Custom,
            r.domain_view() == domain@,
            r.path_view() == path@,
            r.addrs_view() == addr.deep_view(),
            r.timeout_view() == timeout_ms,
    {
        DnsHttpsServer::Custom { domain, path, addr, timeout_ms }
    }

    /// The hostname of this server.
    pub fn domain(&self) -> (r: &str)
        ensures
            r@ == self.domain_view(),
    {
        match self {
            DnsHttpsServer::Google(_) => "dns.google",
            DnsHttpsServer::Cloudflare(_) => "cloudflare-dns.com",
            DnsHttpsServer::Custom { domain, .. } => domain.as_str(),
        }
    }

    /// The URL path of this server's resolve endpoint.
    pub fn path(&self) -> (r: &str)
        ensures
            r@ == self.path_view(),
    {
        match self {
            DnsHttpsServer::Google(_) => "resolve",
            DnsHttpsServer::Cloudflare(_) => "dns-query",
            DnsHttpsServer::Custom { path, .. } => path.as_str(),
        }
    }

    /// The candidate addresses of this server, in resolution order.
    pub fn addr(&self) -> (r: Vec<String>)
        ensures
            r.deep_view() == self.addrs_view(),
    {
        match self {
            DnsHttpsServer::Google(_) => {
                let mut v: Vec<String> = Vec::new();
                v.push(String::from_str("8.8.8.8"));
                v.push(String::from_str("2001:4860:4860::8888"));
                v.push(String::from_str("8.8.4.4"));
                v.push(String::from_str("2001:4860:4860::8844"));
                proof {
                    assert(v.deep_view() =~= google_addr_seq());
                }
                v
            },
            DnsHttpsServer::Cloudflare(_) => {
                let mut v: Vec<String> = Vec::new();
                v.push(String::from_str("1.1.1.1"));
                v.push(String::from_str("2606:4700:4700::1111"));
                v.push(String::from_str("1.0.0.1"));
                v.push(String::from_str("2606:4700:4700::1001"));
                proof {
                    assert(v.deep_view() =~= cloudflare_addr_seq());
                }
                v
            },
            DnsHttpsServer::Custom { addr, .. } => {
                let r = addr.clone();
                proof {
                    assert forall|i: int| 0 <= i < addr@.len() implies r@[i] == addr@[i] by {
                        assert(cloned::<String>(addr@[i], r@[i]));
                    }
                    assert(r.deep_view() =~= addr.deep_view());
                }
                r
            },
        }
    }

    /// The per-request timeout of this server, in milliseconds.
    pub fn timeout_ms(&self) -> (r: u64)
        ensures
            r == self.timeout_view(),
    {
        match self {
            DnsHttpsServer::Google(t) => *t,
            DnsHttpsServer::Cloudflare(t) => *t,
            DnsHttpsServer::Custom { timeout_ms, .. } => *timeout_ms,
        }
    }
}

/// The default server list: Google with a timeout of three seconds, then
/// Cloudflare with a timeout of ten seconds.
pub fn default_servers() -> (r: Vec<DnsHttpsServer>)
    ensures
        r@.len() == 2,
        r@[0] == DnsHttpsServer::Google(3000u64),
        r@[1] == DnsHttpsServer::Cloudflare(10000u64),
{
    let mut v: Vec<DnsHttpsServer> = Vec::new();
    v.push(DnsHttpsServer::Google(3000));
    v.push(DnsHttpsServer::Cloudflare(10000));
    v
}

} // verus!
