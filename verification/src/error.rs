//! Errors returned before, during, or after a DNS over HTTPS exchange.
use vstd::prelude::*;
use crate::status::{rcode_message_view, RCode};

verus! {

/// Errors surfaced to the caller of a resolve operation.
#[derive(Debug, Clone, PartialEq, Eq)]
pub enum DnsError {
    /// An error raised while making the request: a name of the wrong
    /// format, a connection failure, or an unreadable server response.
    Query(QueryError),
    /// A DNS-protocol-level error returned by the server after a
    /// successful HTTPS exchange, such as a name that does not exist.
    Status(RCode),
    /// A query named a record type this crate does not know.
    InvalidRecordType,
    /// A client was set up with an empty list of servers.
    NoServers,
}

/// The description each resolve error displays as.
pub open spec fn dns_error_message_view(e: DnsError) -> Seq<char> {
    match e {
        DnsError::Query(q) => "query error: "@ + query_error_message_view(q),
        DnsError::Status(rc) => "DNS response error: "@ + rcode_message_view(rc),
        DnsError::InvalidRecordType => "Invalid record type"@,
        DnsError::NoServers => "no servers given to resolve query"@,
    }
}

impl DnsError {
    /// A human-readable description of the error.
    pub fn message(&self) -> (r: String)
        ensures
            r@ == dns_error_message_view(*self),
    {
        match self {
            DnsError::Query(e) => String::from_str("query error: ").concat(e.message().as_str()),
            DnsError::Status(e) => String::from_str("DNS response error: ").concat(
                e.message().as_str(),
            ),
            DnsError::InvalidRecordType => String::from_str("Invalid record type"),
            DnsError::NoServers => String::from_str("no servers given to resolve query"),
        }
    }
}

/// Errors raised while building a request for a DoH server or while reading
/// its response.  The numbered variants carry the HTTP status that produced
/// them.
#[derive(Debug, Clone, PartialEq, Eq)]
pub enum QueryError {
    /// The name to be resolved cannot be encoded to ASCII.
    InvalidName(String),
    /// The query URL could not be built; carries the reason and the URL.
    InvalidEndpoint(String, String),
    /// A problem connecting to the server, a timeout included.
    Connection(String),
    /// A problem reading the response body from the server.
    ReadResponse(String),
    /// A problem parsing the JSON response from the server.
    ParseResponse(String),
    /// The server returned an unexpected result.
    Unknown,
    /// *HTTP Error: 400 Bad Request.*
    BadRequest400,
    /// *HTTP Error: 413 Payload Too Large.*
    PayloadTooLarge413,
    /// *HTTP Error: 414 URI Too Long.*
    UriTooLong414,
    /// *HTTP Error: 415 Unsupported Media Type.*
    UnsupportedMediaType415,
    /// *HTTP Error: 429 Too Many Requests.*
    TooManyRequests429,
    /// *HTTP Error: 500 Internal Server Error.*
    InternalServerError500,
    /// *HTTP Error: 501 Not Implemented.*
    NotImplemented501,
    /// *HTTP Error: 502 Bad Gateway.*
    BadGateway502,
    /// *HTTP Error: 504 Gateway Timeout.*
    ResolverTimeout504,
}

/// The description each query error displays as.
pub open spec fn query_error_message_view(e: QueryError) -> Seq<char> {
    match e {
        QueryError::InvalidName(m) => "invalid server name given: "@ + m@,
        QueryError::InvalidEndpoint(m, url) => "invalid endpoint ("@ + url@ + "): "@ + m@,
        QueryError::Connection(m) => "connection error: "@ + m@,
        QueryError::ReadResponse(m) => "error reading response: "@ + m@,
        QueryError::ParseResponse(m) => "error parsing response: "@ + m@,
        QueryError::Unknown => "unknown query error"@,
        QueryError::BadRequest400 => "Problems parsing the GET parameters, or an invalid DNS request message"@,
        QueryError::PayloadTooLarge413 => "An RFC 8484 POST request body exceeded the 512 byte maximum message size"@,
        QueryError::UriTooLong414 => "The GET query header was too large or the dns parameter had a Base64Url encoded DNS message exceeding the 512 byte maximum message size"@,
        QueryError::UnsupportedMediaType415 => "The POST body did not have an application/dns-message Content-Type header"@,
        QueryError::TooManyRequests429 => "The client has sent too many requests in a given amount of time"@,
        QueryError::InternalServerError500 => "Google Public DNS internal DoH errors"@,
        QueryError::NotImplemented501 => "Only GET and POST methods are implemented, other methods get this error"@,
        QueryError::BadGateway502 => "The DoH service could not contact Google Public DNS resolvers"@,
        QueryError::ResolverTimeout504 => "Resolver timeout while waiting for the query response"@,
    }
}

impl QueryError {
    /// A human-readable description of the error.
    pub fn message(&self) -> (r: String)
        ensures
            r@ == query_error_message_view(*self),
    {
        match self {
            QueryError::InvalidName(e) => String::from_str("invalid server name given: ").concat(
                e.as_str(),
            ),
            QueryError::InvalidEndpoint(e, url) => String::from_str("invalid endpoint (").concat(
                url.as_str(),
            ).concat("): ").concat(e.as_str()),
            QueryError::Connection(e) => String::from_str("connection error: ").concat(e.as_str()),
            QueryError::ReadResponse(e) => String::from_str("error reading response: ").concat(
                e.as_str(),
            ),
            QueryError::ParseResponse(e) => String::from_str("error parsing response: ").concat(
                e.as_str(),
            ),
            QueryError::Unknown => String::from_str("unknown query error"),
            QueryError::BadRequest400 => String::from_str(
                "Problems parsing the GET parameters, or an invalid DNS request message",
            ),
            QueryError::PayloadTooLarge413 => String::from_str(
                "An RFC 8484 POST request body exceeded the 512 byte maximum message size",
            ),
            QueryError::UriTooLong414 => String::from_str(
                "The GET query header was too large or the dns parameter had a Base64Url encoded DNS message exceeding the 512 byte maximum message size",
            ),
            QueryError::UnsupportedMediaType415 => String::from_str(
                "The POST body did not have an application/dns-message Content-Type header",
            ),
            QueryError::TooManyRequests429 => String::from_str(
                "The client has sent too many requests in a given amount of time",
            ),
            QueryError::InternalServerError500 => String::from_str(
                "Google Public DNS internal DoH errors",
            ),
            QueryError::NotImplemented501 => String::from_str(
                "Only GET and POST methods are implemented, other methods get this error",
            ),
            QueryError::BadGateway502 => String::from_str(
                "The DoH service could not contact Google Public DNS resolvers",
            ),
            QueryError::ResolverTimeout504 => String::from_str(
                "Resolver timeout while waiting for the query response",
            ),
        }
    }
}

} // verus!
