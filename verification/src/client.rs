//! The request engine: query URLs, outcome classification, and the
//! ordered walk over the configured DoH servers.
//!
//! The engine owns every decision of one resolve call — which server to
//! try, whether an outcome is fatal or worth a retry on the next server,
//! and what to hand back — while the HTTPS exchange itself is performed by
//! a driver behind the [`DnsClient`] interface, which reports each
//! attempt's outcome as an [`AttemptEvent`].
use vstd::prelude::*;
use crate::DnsHttpsServer;
use crate::error::{DnsError, QueryError};
use crate::rtype::Rtype;

verus! {

/// The model of one answer record: name, numeric record type, time to
/// live, and record data.
pub struct AnswerData {
    pub name: Seq<char>,
    pub rtype: u32,
    pub ttl: u32,
    pub data: Seq<char>,
}

/// One answer record returned by a DNS over HTTPS server.
#[allow(non_snake_case)]
#[derive(Debug, Clone)]
pub struct DnsAnswer {
    /// The name of the record.
    pub name: String,
    /// The numeric record type; display it with `rtype_name`.
    pub rtype: u32,
    /// The time to live in seconds for this record.
    pub TTL: u32,
    /// The data associated with the record.
    pub data: String,
}

impl View for DnsAnswer {
    type V = AnswerData;

    open spec fn view(&self) -> AnswerData {
        AnswerData { name: self.name@, rtype: self.rtype, ttl: self.TTL, data: self.data@ }
    }
}

impl DeepView for DnsAnswer {
    type V = AnswerData;

    open spec fn deep_view(&self) -> AnswerData {
        self.view()
    }
}

/// The decoded body of a successful DoH exchange: the DNS status and the
/// answer records; an absent answer list stands for an empty one.
#[allow(non_snake_case)]
#[derive(Debug, Clone)]
pub struct DnsResponse {
    pub Status: u32,
    pub Answer: Option<Vec<DnsAnswer>>,
}

/// The answer records of a response, in received order; an absent list is
/// empty.
pub open spec fn answers_view(res: DnsResponse) -> Seq<AnswerData> {
    match res.Answer {
        Some(v) => v.deep_view(),
        None => Seq::empty(),
    }
}

/// Performs one full DoH query — request, retries, decode — and returns
/// the decoded response.  A transport driver implements this by running
/// the engine's decisions; tests may substitute their own.
pub trait DnsClient {
    fn request(&self, name: &str, rtype: &Rtype) -> Result<DnsResponse, QueryError>;
}

/// What one attempt against one server observed, as reported by the
/// driver that performs the HTTPS exchange.
#[derive(Debug, Clone)]
pub enum AttemptEvent {
    /// The per-server deadline elapsed before a response arrived; any
    /// late response is discarded.  Carries a diagnostic message.
    Timeout(String),
    /// The exchange failed below HTTP: connect or TLS trouble.
    TransportError(String),
    /// The transport refused the query URL; carries the reason and the
    /// URL.
    InvalidUrl(String, String),
    /// The exchange completed with a status other than 200.
    HttpStatus(u16),
    /// Status 200, but the response body could not be read.
    ReadError(String),
    /// Status 200, but the body was not a decodable response.
    DecodeError(String),
    /// Status 200 and a decoded body.
    Decoded(DnsResponse),
}

/// How one attempt's outcome is acted on: surface a decoded response,
/// abort the whole call, or move to the next server.
#[derive(Debug, Clone)]
pub enum Classification {
    /// The attempt succeeded with this decoded response.
    Success(DnsResponse),
    /// The attempt failed for a reason no other server can mend; the
    /// call aborts with this error.
    Fatal(QueryError),
    /// The attempt failed transiently or server-specifically; the next
    /// configured server, if any, is worth trying.
    Retryable(QueryError),
}

/// Whether an HTTP status aborts the call at once: the request itself is
/// malformed or unsupported, identically on every server.
pub open spec fn is_fatal_status(s: u16) -> bool {
    s == 400 || s == 413 || s == 414 || s == 415 || s == 501
}

/// Whether an HTTP status names transient or server-specific trouble,
/// worth a retry on the next configured server.
pub open spec fn is_retryable_status(s: u16) -> bool {
    s == 429 || s == 500 || s == 502 || s == 504
}

/// The classification of one attempt's outcome.  Timeouts and transport
/// failures retry as connection errors; an unbuildable URL, an unreadable
/// body and an undecodable body are fatal; statuses map by the fatal /
/// retryable split, every unlisted status retrying as `Unknown`.
pub open spec fn classify_spec(event: AttemptEvent) -> Classification {
    match event {
        AttemptEvent::Timeout(m) => Classification::Retryable(QueryError::Connection(m)),
        AttemptEvent::TransportError(m) => Classification::Retryable(QueryError::Connection(m)),
        AttemptEvent::InvalidUrl(m, url) => Classification::Fatal(
            QueryError::InvalidEndpoint(m, url),
        ),
        AttemptEvent::HttpStatus(s) => if s == 400 {
            Classification::Fatal(QueryError::BadRequest400)
        } else if s == 413 {
            Classification::Fatal(QueryError::PayloadTooLarge413)
        } else if s == 414 {
            Classification::Fatal(QueryError::UriTooLong414)
        } else if s == 415 {
            Classification::Fatal(QueryError::UnsupportedMediaType415)
        } else if s == 501 {
            Classification::Fatal(QueryError::NotImplemented501)
        } else if s == 429 {
            Classification::Retryable(QueryError::TooManyRequests429)
        } else if s == 500 {
            Classification::Retryable(QueryError::InternalServerError500)
        } else if s == 502 {
            Classification::Retryable(QueryError::BadGateway502)
        } else if s == 504 {
            Classification::Retryable(QueryError::ResolverTimeout504)
        } else {
            Classification::Retryable(QueryError::Unknown)
        },
        AttemptEvent::ReadError(m) => Classification::Fatal(QueryError::ReadResponse(m)),
        AttemptEvent::DecodeError(m) => Classification::Fatal(QueryError::ParseResponse(m)),
        AttemptEvent::Decoded(res) => Classification::Success(res),
    }
}

/// Classifies one attempt's outcome, independently of which servers
/// exist.  The driver reports a completed exchange as `HttpStatus` only
/// for a status other than 200: a 200 goes on to the body instead.
pub fn classify(event: AttemptEvent) -> (r: Classification)
    requires
        event matches AttemptEvent::HttpStatus(s) ==> s != 200,
    ensures
        r == classify_spec(event),
{
    match event {
        AttemptEvent::Timeout(m) => Classification::Retryable(QueryError::Connection(m)),
        AttemptEvent::TransportError(m) => Classification::Retryable(QueryError::Connection(m)),
        AttemptEvent::InvalidUrl(m, url) => Classification::Fatal(
            QueryError::InvalidEndpoint(m, url),
        ),
        AttemptEvent::HttpStatus(s) => match s {
            400 => Classification::Fatal(QueryError::BadRequest400),
            413 => Classification::Fatal(QueryError::PayloadTooLarge413),
            414 => Classification::Fatal(QueryError::UriTooLong414),
            415 => Classification::Fatal(QueryError::UnsupportedMediaType415),
            501 => Classification::Fatal(QueryError::NotImplemented501),
            429 => Classification::Retryable(QueryError::TooManyRequests429),
            500 => Classification::Retryable(QueryError::InternalServerError500),
            502 => Classification::Retryable(QueryError::BadGateway502),
            504 => Classification::Retryable(QueryError::ResolverTimeout504),
            _ => Classification::Retryable(QueryError::Unknown),
        },
        AttemptEvent::ReadError(m) => Classification::Fatal(QueryError::ReadResponse(m)),
        AttemptEvent::DecodeError(m) => Classification::Fatal(QueryError::ParseResponse(m)),
        AttemptEvent::Decoded(res) => Classification::Success(res),
    }
}

/// Law: the fatal / retryable split of HTTP statuses.  Each status in
/// {400, 413, 414, 415, 501} aborts the call after exactly one attempt,
/// whatever servers remain; each status in {429, 500, 502, 504} retries;
/// every other status retries as `Unknown`.
pub proof fn lemma_fatal_vs_retryable(s: u16)
    ensures
        is_fatal_status(s) ==> classify_spec(AttemptEvent::HttpStatus(s)) matches
            Classification::Fatal(_),
        is_retryable_status(s) ==> classify_spec(AttemptEvent::HttpStatus(s)) matches
            Classification::Retryable(_),
        !is_fatal_status(s) && !is_retryable_status(s) ==> classify_spec(
            AttemptEvent::HttpStatus(s),
        ) == Classification::Retryable(QueryError::Unknown),
{
}

/// The position of one resolve call inside the server walk: the encoded
/// name and type symbol being queried, the index of the server being
/// tried, and the most recent retryable error.
#[derive(Debug, Clone)]
pub struct EngineState {
    /// The queried name, already encoded to ASCII.
    pub ascii_name: String,
    /// The lower-case symbol of the queried record type.
    pub symbol: String,
    /// The index of the server currently being tried.
    pub idx: usize,
    /// The most recent retryable error, surfaced when every server has
    /// been tried.
    pub last_error: QueryError,
}

/// What the driver is to do next: perform one attempt, or finish the
/// call with this outcome.
#[derive(Debug)]
pub enum EngineAction {
    /// Send one GET for the given URL against the server at this index,
    /// under that server's timeout, and report the outcome.
    Attempt { index: usize, url: String },
    /// The call is over; hand this to the caller.
    Finish(Result<DnsResponse, QueryError>),
}

/// The query URL for one server: `https://{domain}/{path}?name={name}&type={symbol}`.
pub open spec fn url_spec(server: DnsHttpsServer, name: Seq<char>, symbol: Seq<char>) -> Seq<
    char,
> {
    "https://"@ + server.domain_view() + "/"@ + server.path_view() + "?name="@ + name + "&type="@
        + symbol
}

/// The UTS 46 ToASCII form of a domain name, `None` for a name the
/// encoder rejects.  Whether a name encodes, and to what, are both
/// functions of the name alone.
pub uninterp spec fn ascii_encoding(s: Seq<char>) -> Option<Seq<char>>;

/// Relies on `idna::domain_to_ascii`: the UTS 46 ToASCII form of the
/// name; success and result are functions of the name alone.  An error
/// carries idna's rendering of its reasons.
#[verifier::external_body]
fn domain_to_ascii(name: &str) -> (r: Result<String, String>)
    ensures
        r matches Ok(a) ==> ascii_encoding(name@) == Some(a@),
        r is Err ==> ascii_encoding(name@) is None,
{
    match idna::domain_to_ascii(name) {
        Ok(a) => Ok(a),
        Err(e) => Err(format!("{:?}", e)),
    }
}

/// Walks an ordered, non-empty list of DoH servers for each query,
/// deciding after every attempt whether to surface the outcome or try
/// the next server.
pub struct RequestEngine {
    servers: Vec<DnsHttpsServer>,
}

impl View for RequestEngine {
    type V = Seq<DnsHttpsServer>;

    closed spec fn view(&self) -> Seq<DnsHttpsServer> {
        self.servers@
    }
}

impl RequestEngine {
    /// An engine over the given servers, tried in the given order; an
    /// empty list is refused before any network activity.
    pub fn with_servers(servers: Vec<DnsHttpsServer>) -> (r: Result<RequestEngine, DnsError>)
        ensures
            servers@.len() == 0 <==> r is Err,
            r matches Err(e) ==> e == DnsError::NoServers,
            r matches Ok(engine) ==> engine@ == servers@,
    {
        if servers.is_empty() {
            Err(DnsError::NoServers)
        } else {
            Ok(RequestEngine { servers })
        }
    }

    /// How many servers are configured.
    pub fn server_count(&self) -> (r: usize)
        ensures
            r == self@.len(),
    {
        self.servers.len()
    }

    /// The server at the given position.
    pub fn server(&self, i: usize) -> (r: &DnsHttpsServer)
        requires
            i < self@.len(),
        ensures
            *r == self@[i as int],
    {
        &self.servers[i]
    }

    /// The query URL for the server at the given position.
    pub fn url_for(&self, i: usize, name: &str, symbol: &str) -> (r: String)
        requires
            i < self@.len(),
        ensures
            r@ == url_spec(self@[i as int], name@, symbol@),
    {
        let server = &self.servers[i];
        let mut u = String::from_str("https://");
        u.append(server.domain());
        u.append("/");
        u.append(server.path());
        u.append("?name=");
        u.append(name);
        u.append("&type=");
        u.append(symbol);
        proof {
            assert(u@ =~= url_spec(self@[i as int], name@, symbol@));
        }
        u
    }

    /// Starts one resolve call: encodes the name to ASCII and directs the
    /// driver at the first server; a name the encoder rejects finishes at
    /// once with the invalid-name error, before any server is contacted.
    pub fn begin(&self, name: &str, rtype: &Rtype) -> (r: (EngineState, EngineAction))
        requires
            self@.len() > 0,
        ensures
            (r.1 is Attempt) <==> (ascii_encoding(name@) is Some),
            r.1 matches EngineAction::Finish(out) ==> out matches Err(
                QueryError::InvalidName(_),
            ),
            r.1 matches EngineAction::Attempt { index, url } ==> index == 0 && r.0.idx == 0
                && Some(r.0.ascii_name@) == ascii_encoding(name@) && r.0.symbol@ == rtype.1@
                && r.0.last_error == QueryError::Unknown && url@ == url_spec(
                self@[0],
                r.0.ascii_name@,
                rtype.1@,
            ),
    {
        match domain_to_ascii(name) {
            Err(m) => {
                let state = EngineState {
                    ascii_name: String::new(),
                    symbol: String::from_str(rtype.1),
                    idx: 0,
                    last_error: QueryError::Unknown,
                };
                (state, EngineAction::Finish(Err(QueryError::InvalidName(m))))
            },
            Ok(ascii_name) => {
                let url = self.url_for(0, ascii_name.as_str(), rtype.1);
                let state = EngineState {
                    ascii_name,
                    symbol: String::from_str(rtype.1),
                    idx: 0,
                    last_error: QueryError::Unknown,
                };
                (state, EngineAction::Attempt { index: 0, url })
            },
        }
    }

    /// Advances one resolve call by one attempt's outcome: a success or a
    /// fatal error finishes at once; a retryable error moves to the next
    /// server in order, or finishes with that error when the server just
    /// tried was the last.
    pub fn step(&self, state: EngineState, event: AttemptEvent) -> (r: (
        EngineState,
        EngineAction,
    ))
        requires
            self@.len() > 0,
            state.idx < self@.len(),
            event matches AttemptEvent::HttpStatus(s) ==> s != 200,
        ensures
            classify_spec(event) matches Classification::Success(res) ==> r.1
                == EngineAction::Finish(Ok(res)),
            classify_spec(event) matches Classification::Fatal(e) ==> r.1 == EngineAction::Finish(
                Err(e),
            ),
            classify_spec(event) matches Classification::Retryable(e) ==> if state.idx + 1
                < self@.len() {
                r.0.idx == state.idx + 1 && r.0.last_error == e && r.0.ascii_name
                    == state.ascii_name && r.0.symbol == state.symbol && (
                r.1 matches EngineAction::Attempt { index, url } && index == state.idx + 1 && url@
                    == url_spec(self@[state.idx + 1], state.ascii_name@, state.symbol@))
            } else {
                r.1 == EngineAction::Finish(Err(e))
            },
    {
        match classify(event) {
            Classification::Success(res) => (state, EngineAction::Finish(Ok(res))),
            Classification::Fatal(e) => (state, EngineAction::Finish(Err(e))),
            Classification::Retryable(e) => {
                let n = self.servers.len();
                proof {
                    assert(state.idx < n);
                }
                let next = state.idx + 1;
                if next < self.servers.len() {
                    let url = self.url_for(next, state.ascii_name.as_str(), state.symbol.as_str());
                    let new_state = EngineState {
                        ascii_name: state.ascii_name,
                        symbol: state.symbol,
                        idx: next,
                        last_error: e,
                    };
                    (new_state, EngineAction::Attempt { index: next, url })
                } else {
                    (state, EngineAction::Finish(Err(e)))
                }
            },
        }
    }
}

} // verus!
