//! The message router: what a session answers to each inbound frame.
use vstd::prelude::*;
use crate::inbound::{Inbound, InboundView};
use crate::wire::{auth_frame, auth_text, http_reply_frame, http_reply_text, pong_frame, pong_text};

verus! {

/// Parameters of a session's protocol behaviour.
#[derive(Debug)]
pub struct Config {
    /// The service's WebSocket endpoint.
    pub endpoint: String,
    /// Frames that may wait in a session's write queue before producers
    /// have to wait for the writer.
    pub write_queue_capacity: usize,
    /// Seconds between two keepalive frames.
    pub keepalive_interval_secs: u64,
    /// Browser identification sent in the handshake and in `AUTH` replies.
    pub user_agent: String,
    /// Client version reported in `AUTH` replies.
    pub protocol_version: String,
    /// Version carried by keepalive frames.
    pub ping_version: String,
    /// Whether `HTTP_REQUEST` frames are served (really or forged).
    pub supports_http_request_forging: bool,
    /// Urls whose authority is this host are fetched for real; all others
    /// are forged.
    pub verification_host: String,
    /// Length of a forged response body.
    pub forged_body_len: usize,
    /// Characters a forged response body is drawn from.
    pub forged_charset: String,
    /// Whether the transport accepts invalid certificates and host names, as
    /// proxies that intercept TLS require.
    pub accept_invalid_tls: bool,
}

impl Config {
    pub open spec fn wf(&self) -> bool {
        &&& self.forged_charset@.len() > 0
        &&& self.write_queue_capacity > 0
        &&& self.keepalive_interval_secs > 0
    }

    /// The parameters of the feature-complete variant.
    pub open spec fn is_full(&self) -> bool {
        &&& self.endpoint@ == "wss://proxy2.wynd.network:4444/"@
        &&& self.write_queue_capacity == 32
        &&& self.keepalive_interval_secs == 120
        &&& self.supports_http_request_forging
        &&& self.accept_invalid_tls
        &&& self.forged_body_len == 16
        &&& self.user_agent@ == "Mozilla/5.0 (Windows NT 10.0; Win64; x64) AppleWebKit/537.36 (KHTML, like Gecko) Chrome/126.0.0.0 Safari/537.36"@
        &&& self.protocol_version@ == "4.26.2"@
        &&& self.ping_version@ == "1.0.0"@
        &&& self.verification_host@ == "api.getgrass.io"@
        &&& self.forged_charset@ == "hahafunnylolxd"@
    }

    /// The feature-complete variant.
    pub fn full() -> (r: Config)
        ensures
            r.wf(),
            r.is_full(),
    {
        let r = Config {
            endpoint: String::from_str("wss://proxy2.wynd.network:4444/"),
            write_queue_capacity: 32,
            keepalive_interval_secs: 120,
            user_agent: String::from_str("Mozilla/5.0 (Windows NT 10.0; Win64; x64) AppleWebKit/537.36 (KHTML, like Gecko) Chrome/126.0.0.0 Safari/537.36"),
            protocol_version: String::from_str("4.26.2"),
            ping_version: String::from_str("1.0.0"),
            supports_http_request_forging: true,
            accept_invalid_tls: true,
            verification_host: String::from_str("api.getgrass.io"),
            forged_body_len: 16,
            forged_charset: String::from_str("hahafunnylolxd"),
        };
        proof {
            reveal_strlit("hahafunnylolxd");
        }
        r
    }
}

/// What the session does about one inbound frame.
#[derive(Debug)]
pub enum Dispatch {
    /// Queue this frame for the writer.
    Reply(String),
    /// Fetch `url` for real and answer with the response (see `fetch_reply`).
    Fetch { id: String, url: String },
    /// Nothing to send.
    Ignore,
}

pub enum DispatchView {
    Reply(Seq<char>),
    Fetch { id: Seq<char>, url: Seq<char> },
    Ignore,
}

impl View for Dispatch {
    type V = DispatchView;

    open spec fn view(&self) -> DispatchView {
        match self {
            Dispatch::Reply(s) => DispatchView::Reply(s@),
            Dispatch::Fetch { id, url } => DispatchView::Fetch { id: id@, url: url@ },
            Dispatch::Ignore => DispatchView::Ignore,
        }
    }
}

/// Whether `c` ends a search: a `:` when looking for the scheme's end, else
/// one of the characters that end a url's authority (`/`, `?`, `#`).
pub open spec fn is_stop(c: char, colon: bool) -> bool {
    if colon {
        c == ':'
    } else {
        c == '/' || c == '?' || c == '#'
    }
}

/// The first position at or after `i` whose character is a stop, or the
/// length of `s` when there is none.
pub open spec fn find_from(s: Seq<char>, i: int, colon: bool) -> int
    decreases s.len() - i,
{
    if i < 0 || i >= s.len() {
        s.len() as int
    } else if is_stop(s[i], colon) {
        i
    } else {
        find_from(s, i + 1, colon)
    }
}

/// The authority of a url: the text after `scheme://` up to the first `/`,
/// `?` or `#`; nothing when the url has no `scheme://`.
pub open spec fn authority_of(url: Seq<char>) -> Option<Seq<char>> {
    let c = find_from(url, 0, true);
    if c + 2 < url.len() && url[c + 1] == '/' && url[c + 2] == '/' {
        Some(url.subrange(c + 3, find_from(url, c + 3, false)))
    } else {
        None
    }
}

/// Whether the url is one of the vendor's own verification endpoints: its
/// authority is the verification host.
pub open spec fn is_verification_url(host: Seq<char>, url: Seq<char>) -> bool {
    authority_of(url) == Some(host)
}

/// A body the session may present as a forged response.
pub open spec fn is_forged_body(cfg: Config, body: Seq<char>) -> bool {
    &&& body.len() == cfg.forged_body_len
    &&& forall|i: int| 0 <= i < body.len() ==> cfg.forged_charset@.contains(#[trigger] body[i])
}

/// The decision for a frame, given the clock reading and the forged body to
/// use should either be needed.
pub open spec fn dispatch_of(
    cfg: Config,
    device_id: Seq<char>,
    user_id: Seq<char>,
    frame: InboundView,
    timestamp: i64,
    forged_body: Seq<char>,
) -> DispatchView {
    match frame {
        InboundView::Pong { id } => DispatchView::Reply(pong_text(id)),
        InboundView::Auth { id } => DispatchView::Reply(
            auth_text(id, device_id, user_id, cfg.user_agent@, timestamp, cfg.protocol_version@),
        ),
        InboundView::HttpRequest { id, url, method } => {
            if !cfg.supports_http_request_forging {
                DispatchView::Ignore
            } else if is_verification_url(cfg.verification_host@, url) {
                DispatchView::Fetch { id, url }
            } else {
                DispatchView::Reply(http_reply_text(id, url, 200, Seq::empty(), forged_body))
            }
        },
        InboundView::Other { .. } => DispatchView::Ignore,
    }
}

fn find_char_from(s: &str, n: usize, i: usize, colon: bool) -> (r: usize)
    requires
        n == s@.len(),
        i <= n,
    ensures
        r as int == find_from(s@, i as int, colon),
        i <= r <= n,
{
    let mut j: usize = i;
    while j < n
        invariant
            i <= j <= n,
            n == s@.len(),
            find_from(s@, i as int, colon) == find_from(s@, j as int, colon),
        decreases n - j,
    {
        let c = s.get_char(j);
        let hit = if colon { c == ':' } else { c == '/' || c == '?' || c == '#' };
        if hit {
            return j;
        }
        j = j + 1;
    }
    j
}

/// The authority of a url (see `authority_of`).
pub fn authority(url: &str) -> (r: Option<String>)
    ensures
        match r {
            Some(a) => authority_of(url@) == Some(a@),
            None => authority_of(url@) is None,
        },
{
    let n = url.unicode_len();
    let c = find_char_from(url, n, 0, true);
    if c < n && n - c > 2 && url.get_char(c + 1) == '/' && url.get_char(c + 2) == '/' {
        let end = find_char_from(url, n, c + 3, false);
        Some(String::from_str(url.substring_char(c + 3, end)))
    } else {
        None
    }
}

/// Whether the url's authority is `host`.
pub fn is_verification(url: &str, host: &String) -> (r: bool)
    ensures
        r == is_verification_url(host@, url@),
{
    match authority(url) {
        Some(a) => a == *host,
        None => false,
    }
}

/// Decides the answer to one frame. `timestamp` is the current Unix time and
/// `forged_body` the body of a forged response; each is only used where the
/// frame calls for it.
pub fn route(
    cfg: &Config,
    device_id: &str,
    user_id: &str,
    frame: &Inbound,
    timestamp: i64,
    forged_body: &str,
) -> (r: Dispatch)
    ensures
        r@ == dispatch_of(*cfg, device_id@, user_id@, frame@, timestamp, forged_body@),
{
    match frame {
        Inbound::Pong { id } => Dispatch::Reply(pong_frame(id.as_str())),
        Inbound::Auth { id } => Dispatch::Reply(
            auth_frame(
                id.as_str(),
                device_id,
                user_id,
                cfg.user_agent.as_str(),
                timestamp,
                cfg.protocol_version.as_str(),
            ),
        ),
        Inbound::HttpRequest { id, url, method: _ } => {
            if !cfg.supports_http_request_forging {
                Dispatch::Ignore
            } else if is_verification(url.as_str(), &cfg.verification_host) {
                Dispatch::Fetch { id: id.clone(), url: url.clone() }
            } else {
                let no_headers: Vec<(String, String)> = Vec::new();
                Dispatch::Reply(http_reply_frame(id.as_str(), url.as_str(), 200, &no_headers, forged_body))
            }
        },
        Inbound::Other { .. } => Dispatch::Ignore,
    }
}

} // verus!
