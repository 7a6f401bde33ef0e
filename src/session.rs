//! A session: one device identity bound to one proxy, and the decisions of
//! its reader loop. The loop itself, the writer and the keepalive timer run
//! around these decisions.
use vstd::prelude::*;
use crate::inbound::{inbound_of, parse_frame, Inbound, InboundView, ProtocolError};
use crate::router::{dispatch_of, is_forged_body, route, Config, Dispatch, DispatchView};
use crate::wire::{http_reply_frame, http_reply_text, ping_frame, ping_text};

verus! {

#[verifier::external_type_specification]
#[verifier::external_body]
pub struct ExClient(reqwest::Client);

#[verifier::external_type_specification]
#[verifier::external_body]
pub struct ExReqwestError(reqwest::Error);

/// Standard base64 text (with padding) of the bytes.
pub uninterp spec fn base64_of(b: Seq<u8>) -> Seq<char>;

/// Whether reqwest accepts the text as a proxy url.
pub uninterp spec fn proxy_url_parses(url: Seq<char>) -> bool;

/// Relies on reqwest::Proxy::all: whether the url parses as a proxy
/// address (which depends on the text alone).
#[verifier::external_body]
fn proxy_parses(url: &str) -> (r: bool)
    ensures
        r == proxy_url_parses(url@),
{
    reqwest::Proxy::all(url).is_ok()
}

/// The transport of a session: an HTTP/WebSocket client, with the settings
/// it was built with.
pub struct Transport {
    client: reqwest::Client,
    proxy: Option<String>,
    accept_invalid_tls: bool,
}

impl Transport {
    /// The proxy all traffic is sent through, if any.
    pub closed spec fn spec_proxy(&self) -> Option<Seq<char>> {
        match self.proxy {
            Some(p) => Some(p@),
            None => None,
        }
    }

    /// Whether invalid certificates and host names are accepted.
    pub closed spec fn spec_accepts_invalid_tls(&self) -> bool {
        self.accept_invalid_tls
    }
}

/// Relies on reqwest::Proxy::all and reqwest::ClientBuilder: a client that
/// sends all traffic through `proxy` (an error when it does not parse), with
/// certificate and host name validation switched off when asked.
#[verifier::external_body]
fn build_transport(proxy: Option<&str>, accept_invalid_tls: bool) -> (r: Result<Transport, reqwest::Error>)
    ensures
        r matches Ok(t) ==> {
            &&& proxy matches Some(p) ==> t.spec_proxy() == Some(p@)
            &&& proxy is None ==> t.spec_proxy() is None
            &&& t.spec_accepts_invalid_tls() == accept_invalid_tls
        },
        proxy matches Some(p) && !proxy_url_parses(p@) ==> r is Err,
{
    let mut builder = reqwest::ClientBuilder::new();
    if let Some(p) = proxy {
        builder = builder.proxy(reqwest::Proxy::all(p)?);
    }
    let client = builder.danger_accept_invalid_certs(accept_invalid_tls)
        .danger_accept_invalid_hostnames(accept_invalid_tls).build()?;
    Ok(Transport { client, proxy: proxy.map(|p| p.to_string()), accept_invalid_tls })
}

pub open spec fn is_lower_hex(c: char) -> bool {
    ('0' <= c && c <= '9') || ('a' <= c && c <= 'f')
}

/// The text form of a random (version 4, RFC 4122 variant) UUID: 36
/// characters, hyphens at 8, 13, 18 and 23, lower-case hex digits elsewhere,
/// the version digit `4` at 14 and one of `8`, `9`, `a`, `b` at 19.
pub open spec fn is_uuid_v4_text(s: Seq<char>) -> bool {
    &&& s.len() == 36
    &&& forall|i: int| 0 <= i < 36 ==> if i == 8 || i == 13 || i == 18 || i == 23 {
        #[trigger] s[i] == '-'
    } else {
        is_lower_hex(s[i])
    }
    &&& s[14] == '4'
    &&& (s[19] == '8' || s[19] == '9' || s[19] == 'a' || s[19] == 'b')
}

/// Relies on uuid::Uuid::new_v4 (random bits with the version and variant
/// bits set) and its `Display`, the lower-case hyphenated form.
#[verifier::external_body]
fn new_uuid_text() -> (r: String)
    ensures
        is_uuid_v4_text(r@),
{
    uuid::Uuid::new_v4().to_string()
}

/// Relies on chrono::Utc::now and `timestamp`: seconds since the Unix epoch.
#[verifier::external_body]
fn unix_now() -> (r: i64) {
    chrono::Utc::now().timestamp()
}

/// Relies on random_string::generate: `len` characters, each drawn from
/// `charset` (which must not be empty).
#[verifier::external_body]
fn random_text(len: usize, charset: &str) -> (r: String)
    requires
        charset@.len() > 0,
    ensures
        r@.len() == len,
        forall|i: int| 0 <= i < r@.len() ==> charset@.contains(#[trigger] r@[i]),
{
    random_string::generate(len, charset)
}

/// Relies on base64's `STANDARD` engine `encode`, which panics only when the
/// encoded length overflows `usize`.
#[verifier::external_body]
fn base64_encode(b: &[u8]) -> (r: String)
    requires
        b@.len() <= usize::MAX / 2,
    ensures
        r@ == base64_of(b@),
{
    base64::Engine::encode(&base64::prelude::BASE64_STANDARD, b)
}

/// Why a session could not be set up.
#[derive(Clone, Copy, Debug, PartialEq, Eq, Structural)]
pub enum ConfigError {
    /// The proxy address does not parse.
    InvalidProxy,
    /// The transport could not be built with the requested options.
    ClientBuild,
}

/// What the reader loop got from the transport.
#[derive(Debug)]
pub enum ReadEvent {
    Text(String),
    /// A binary, ping or other control message.
    NonText,
    /// The transport reported an error.
    Failed,
    /// The stream ended.
    Closed,
}

/// What the reader loop does next.
#[derive(Debug)]
pub enum ReaderStep {
    /// Carry out the dispatch and read on.
    Handle(Dispatch),
    /// The frame was dropped; read on.
    Dropped(ProtocolError),
    /// Nothing to do; read on.
    Skip,
    /// Leave the loop: with an error when the transport failed.
    Stop { failed: bool },
}

/// One session of the node.
pub struct Grass {
    transport: Transport,
    config: Config,
    log_target: String,
    pub user_id: String,
    pub device_id: String,
}

impl Grass {
    pub open spec fn wf(&self) -> bool {
        &&& self.spec_config().wf()
    }

    pub closed spec fn spec_config(&self) -> Config {
        self.config
    }

    pub closed spec fn spec_user_id(&self) -> Seq<char> {
        self.user_id@
    }

    pub closed spec fn spec_device_id(&self) -> Seq<char> {
        self.device_id@
    }

    pub closed spec fn spec_proxy(&self) -> Option<Seq<char>> {
        self.transport.spec_proxy()
    }

    pub closed spec fn spec_accepts_invalid_tls(&self) -> bool {
        self.transport.spec_accepts_invalid_tls()
    }

    pub closed spec fn spec_log_target(&self) -> Seq<char> {
        self.log_target@
    }

    /// A session with the feature-complete configuration.
    pub fn new(log_target: String, user_id: String, proxy: Option<&str>) -> (r: Result<Grass, ConfigError>)
        ensures
            match r {
                Ok(g) => {
                    &&& g.wf()
                    &&& g.spec_config().is_full()
                    &&& is_uuid_v4_text(g.spec_device_id())
                    &&& g.spec_user_id() == user_id@
                    &&& g.spec_log_target() == log_target@
                    &&& proxy matches Some(p) ==> proxy_url_parses(p@) && g.spec_proxy() == Some(p@)
                    &&& proxy is None ==> g.spec_proxy() is None
                    &&& g.spec_accepts_invalid_tls() == g.spec_config().accept_invalid_tls
                },
                Err(e) => e == ConfigError::InvalidProxy <==> (proxy matches Some(p) && !proxy_url_parses(p@)),
            },
    {
        Grass::with_config(log_target, user_id, proxy, Config::full())
    }

    /// A session with the given configuration and a freshly drawn device id.
    pub fn with_config(log_target: String, user_id: String, proxy: Option<&str>, config: Config) -> (r: Result<Grass, ConfigError>)
        requires
            config.wf(),
        ensures
            match r {
                Ok(g) => {
                    &&& g.wf()
                    &&& g.spec_config() == config
                    &&& is_uuid_v4_text(g.spec_device_id())
                    &&& g.spec_user_id() == user_id@
                    &&& g.spec_log_target() == log_target@
                    &&& proxy matches Some(p) ==> proxy_url_parses(p@) && g.spec_proxy() == Some(p@)
                    &&& proxy is None ==> g.spec_proxy() is None
                    &&& g.spec_accepts_invalid_tls() == g.spec_config().accept_invalid_tls
                },
                Err(e) => e == ConfigError::InvalidProxy <==> (proxy matches Some(p) && !proxy_url_parses(p@)),
            },
    {
        let device_id = new_uuid_text();
        Grass::with_device_id(log_target, user_id, proxy, config, device_id)
    }

    /// A session with the given configuration under the given device id,
    /// which the caller draws afresh for each session.
    pub fn with_device_id(
        log_target: String,
        user_id: String,
        proxy: Option<&str>,
        config: Config,
        device_id: String,
    ) -> (r: Result<Grass, ConfigError>)
        requires
            config.wf(),
        ensures
            match r {
                Ok(g) => {
                    &&& g.wf()
                    &&& g.spec_config() == config
                    &&& g.spec_device_id() == device_id@
                    &&& g.spec_user_id() == user_id@
                    &&& g.spec_log_target() == log_target@
                    &&& proxy matches Some(p) ==> proxy_url_parses(p@) && g.spec_proxy() == Some(p@)
                    &&& proxy is None ==> g.spec_proxy() is None
                    &&& g.spec_accepts_invalid_tls() == g.spec_config().accept_invalid_tls
                },
                Err(e) => e == ConfigError::InvalidProxy <==> (proxy matches Some(p) && !proxy_url_parses(p@)),
            },
    {
        if let Some(p) = proxy {
            if !proxy_parses(p) {
                return Err(ConfigError::InvalidProxy);
            }
        }
        let transport = match build_transport(proxy, config.accept_invalid_tls) {
            Ok(t) => t,
            Err(_) => return Err(ConfigError::ClientBuild),
        };
        Ok(Grass { transport, config, log_target, user_id, device_id })
    }

    /// The proxy the session's traffic goes through, if any.
    pub fn proxy(&self) -> (r: Option<&str>)
        ensures
            self.spec_proxy() matches Some(p) ==> r matches Some(q) && q@ == p,
            self.spec_proxy() is None ==> r is None,
    {
        match &self.transport.proxy {
            Some(p) => Some(p.as_str()),
            None => None,
        }
    }

    /// Whether the transport accepts invalid certificates and host names.
    pub fn accepts_invalid_tls(&self) -> (r: bool)
        ensures
            r == self.spec_accepts_invalid_tls(),
    {
        self.transport.accept_invalid_tls
    }

    pub fn client(&self) -> &reqwest::Client {
        &self.transport.client
    }

    pub fn config(&self) -> (r: &Config)
        ensures
            *r == self.spec_config(),
    {
        &self.config
    }

    pub fn log_target(&self) -> (r: &str)
        ensures
            r@ == self.spec_log_target(),
    {
        self.log_target.as_str()
    }

    /// `d` is a correct answer of this session to the frame text: the
    /// routing of the frame for some clock reading and, for a forged
    /// response, some admissible body.
    pub open spec fn answers(&self, text: Seq<char>, d: DispatchView) -> bool {
        match inbound_of(text, self.spec_config().supports_http_request_forging) {
            Ok(f) => exists|ts: i64, body: Seq<char>|
                (f is HttpRequest ==> is_forged_body(self.spec_config(), body))
                && d == dispatch_of(self.spec_config(), self.spec_device_id(), self.spec_user_id(), f, ts, body),
            Err(_) => false,
        }
    }

    /// Handles one inbound text frame: fails with the protocol error exactly
    /// when the frame does not read, and otherwise answers it.
    pub fn handle_message(&self, text: &str) -> (r: Result<Dispatch, ProtocolError>)
        requires
            self.wf(),
        ensures
            match r {
                Ok(d) => self.answers(text@, d@),
                Err(e) => inbound_of(text@, self.spec_config().supports_http_request_forging) == Err::<InboundView, ProtocolError>(e),
            },
    {
        let frame = match parse_frame(text, self.config.supports_http_request_forging) {
            Ok(f) => f,
            Err(e) => return Err(e),
        };
        let timestamp: i64 = match &frame {
            Inbound::Auth { .. } => unix_now(),
            _ => 0,
        };
        let forged_body = match &frame {
            Inbound::HttpRequest { .. } => random_text(self.config.forged_body_len, self.config.forged_charset.as_str()),
            _ => String::new(),
        };
        let d = route(&self.config, self.device_id.as_str(), self.user_id.as_str(), &frame, timestamp, forged_body.as_str());
        assert((frame@ is HttpRequest ==> is_forged_body(self.config, forged_body@))
            && d@ == dispatch_of(self.config, self.device_id@, self.user_id@, frame@, timestamp, forged_body@));
        Ok(d)
    }

    /// The step of the reader loop that follows a read: a text frame is
    /// handled or dropped, other messages are skipped, and a transport error
    /// or the end of the stream ends the loop.
    pub open spec fn step_allowed(&self, ev: ReadEvent, step: ReaderStep) -> bool {
        match ev {
            ReadEvent::Text(t) => match step {
                ReaderStep::Handle(d) => self.answers(t@, d@),
                ReaderStep::Dropped(e) => inbound_of(t@, self.spec_config().supports_http_request_forging) == Err::<InboundView, ProtocolError>(e),
                _ => false,
            },
            ReadEvent::NonText => step is Skip,
            ReadEvent::Failed => step == (ReaderStep::Stop { failed: true }),
            ReadEvent::Closed => step == (ReaderStep::Stop { failed: false }),
        }
    }

    pub fn on_read(&self, ev: ReadEvent) -> (r: ReaderStep)
        requires
            self.wf(),
        ensures
            self.step_allowed(ev, r),
    {
        match ev {
            ReadEvent::Text(t) => match self.handle_message(t.as_str()) {
                Ok(d) => ReaderStep::Handle(d),
                Err(e) => ReaderStep::Dropped(e),
            },
            ReadEvent::NonText => ReaderStep::Skip,
            ReadEvent::Failed => ReaderStep::Stop { failed: true },
            ReadEvent::Closed => ReaderStep::Stop { failed: false },
        }
    }

    /// A keepalive frame with a freshly drawn id.
    pub fn keepalive_frame(&self) -> (r: String)
        ensures
            exists|id: Seq<char>| is_uuid_v4_text(id) && r@ == ping_text(id, self.spec_config().ping_version@),
    {
        let id = new_uuid_text();
        let r = ping_frame(id.as_str(), self.config.ping_version.as_str());
        assert(is_uuid_v4_text(id@) && r@ == ping_text(id@, self.config.ping_version@));
        r
    }
}

/// A response to a real fetch: its status, headers in order, and body bytes.
#[derive(Debug)]
pub struct FetchedResponse {
    pub status: u16,
    pub headers: Vec<(String, String)>,
    pub body: Vec<u8>,
}

/// The frame answering a `Fetch` dispatch: built from the response when the
/// fetch succeeded and the body can be encoded; nothing when the fetch
/// failed, and then no reply is sent.
pub fn answer_fetch(id: &str, url: &str, response: Option<FetchedResponse>) -> (r: Option<String>)
    ensures
        match response {
            Some(resp) => if resp.body@.len() <= usize::MAX / 2 {
                r matches Some(s) && s@ == http_reply_text(id@, url@, resp.status, resp.headers@, base64_of(resp.body@))
            } else {
                r is None
            },
            None => r is None,
        },
{
    match response {
        Some(resp) => {
            if resp.body.len() <= usize::MAX / 2 {
                Some(fetch_reply(id, url, resp.status, &resp.headers, resp.body.as_slice()))
            } else {
                None
            }
        },
        None => None,
    }
}

/// What the reader loop does once a reply was offered to the write queue:
/// it reads on while the queue takes frames; a closed queue ends the session
/// with an error.
pub fn after_push(accepted: bool) -> (r: ReaderStep)
    ensures
        accepted ==> r is Skip,
        !accepted ==> r == (ReaderStep::Stop { failed: true }),
{
    if accepted {
        ReaderStep::Skip
    } else {
        ReaderStep::Stop { failed: true }
    }
}

/// The answer to a `Fetch` dispatch, from the real response: its status,
/// headers in order, and body bytes in base64.
pub fn fetch_reply(id: &str, url: &str, status: u16, headers: &Vec<(String, String)>, body: &[u8]) -> (r: String)
    requires
        body@.len() <= usize::MAX / 2,
    ensures
        r@ == http_reply_text(id@, url@, status, headers@, base64_of(body@)),
{
    let encoded = base64_encode(body);
    http_reply_frame(id, url, status, headers, encoded.as_str())
}

} // verus!
