//! Inbound frames: reading the JSON text into a tagged frame that the router
//! can dispatch on exhaustively.
use vstd::prelude::*;

verus! {

/// Whether `serde_json` accepts the text as a JSON document.
pub uninterp spec fn json_parses(text: Seq<char>) -> bool;

/// The string that `serde_json` finds in the document `text` at the JSON
/// pointer `pointer`, if the text parses and a string stands there.
pub uninterp spec fn json_str_at(text: Seq<char>, pointer: Seq<char>) -> Option<Seq<char>>;

/// Relies on serde_json::from_str into a `Value`: whether the text is JSON.
#[verifier::external_body]
fn is_json(text: &str) -> (r: bool)
    ensures
        r == json_parses(text@),
{
    serde_json::from_str::<serde_json::Value>(text).is_ok()
}

/// Relies on serde_json::from_str, `Value::pointer` and `Value::as_str`: the
/// string at a pointer of the parsed document; nothing when the text does not
/// parse.
#[verifier::external_body]
fn str_at(text: &str, pointer: &str) -> (r: Option<String>)
    ensures
        r matches Some(s) ==> json_str_at(text@, pointer@) == Some(s@),
        r is None ==> json_str_at(text@, pointer@) is None,
        !json_parses(text@) ==> r is None,
{
    let v = serde_json::from_str::<serde_json::Value>(text).ok()?;
    v.pointer(pointer).and_then(|x| x.as_str()).map(|x| x.to_string())
}

/// Why an inbound frame was dropped.
#[derive(Clone, Copy, Debug, PartialEq, Eq, Structural)]
pub enum ProtocolError {
    NotJson,
    MissingAction,
    MissingId,
    MissingUrl,
    MissingMethod,
}

/// An inbound frame, classified by its `action`.
#[derive(Debug)]
pub enum Inbound {
    Pong { id: String },
    Auth { id: String },
    HttpRequest { id: String, url: String, method: String },
    Other { id: String, action: String },
}

/// The model of an inbound frame: its fields as character sequences.
pub enum InboundView {
    Pong { id: Seq<char> },
    Auth { id: Seq<char> },
    HttpRequest { id: Seq<char>, url: Seq<char>, method: Seq<char> },
    Other { id: Seq<char>, action: Seq<char> },
}

impl View for Inbound {
    type V = InboundView;

    open spec fn view(&self) -> InboundView {
        match self {
            Inbound::Pong { id } => InboundView::Pong { id: id@ },
            Inbound::Auth { id } => InboundView::Auth { id: id@ },
            Inbound::HttpRequest { id, url, method } => InboundView::HttpRequest {
                id: id@,
                url: url@,
                method: method@,
            },
            Inbound::Other { id, action } => InboundView::Other { id: id@, action: action@ },
        }
    }
}

pub open spec fn action_at(text: Seq<char>) -> Option<Seq<char>> {
    json_str_at(text, "/action"@)
}

pub open spec fn id_at(text: Seq<char>) -> Option<Seq<char>> {
    json_str_at(text, "/id"@)
}

pub open spec fn url_at(text: Seq<char>) -> Option<Seq<char>> {
    json_str_at(text, "/data/url"@)
}

pub open spec fn method_at(text: Seq<char>) -> Option<Seq<char>> {
    json_str_at(text, "/data/method"@)
}

/// How a frame text reads. `action` is looked at first, then `id`; an
/// `HTTP_REQUEST` also needs `data.url` and `data.method`, unless the session
/// does not serve such requests, when it counts as any other action.
pub open spec fn inbound_of(text: Seq<char>, serve_http: bool) -> Result<InboundView, ProtocolError> {
    if !json_parses(text) {
        Err(ProtocolError::NotJson)
    } else if action_at(text) is None {
        Err(ProtocolError::MissingAction)
    } else if id_at(text) is None {
        Err(ProtocolError::MissingId)
    } else {
        let action = action_at(text).unwrap();
        let id = id_at(text).unwrap();
        if action == "PONG"@ {
            Ok(InboundView::Pong { id })
        } else if action == "AUTH"@ {
            Ok(InboundView::Auth { id })
        } else if action == "HTTP_REQUEST"@ && serve_http {
            if url_at(text) is None {
                Err(ProtocolError::MissingUrl)
            } else if method_at(text) is None {
                Err(ProtocolError::MissingMethod)
            } else {
                Ok(InboundView::HttpRequest {
                    id,
                    url: url_at(text).unwrap(),
                    method: method_at(text).unwrap(),
                })
            }
        } else {
            Ok(InboundView::Other { id, action })
        }
    }
}

/// Reads a frame text; fails closed on anything the protocol does not allow.
pub fn parse_frame(text: &str, serve_http: bool) -> (r: Result<Inbound, ProtocolError>)
    ensures
        match r {
            Ok(f) => inbound_of(text@, serve_http) == Ok::<InboundView, ProtocolError>(f@),
            Err(e) => inbound_of(text@, serve_http) == Err::<InboundView, ProtocolError>(e),
        },
{
    if !is_json(text) {
        return Err(ProtocolError::NotJson);
    }
    let action = match str_at(text, "/action") {
        Some(a) => a,
        None => return Err(ProtocolError::MissingAction),
    };
    let id = match str_at(text, "/id") {
        Some(i) => i,
        None => return Err(ProtocolError::MissingId),
    };
    if action == String::from_str("PONG") {
        Ok(Inbound::Pong { id })
    } else if action == String::from_str("AUTH") {
        Ok(Inbound::Auth { id })
    } else if serve_http && action == String::from_str("HTTP_REQUEST") {
        let url = match str_at(text, "/data/url") {
            Some(u) => u,
            None => return Err(ProtocolError::MissingUrl),
        };
        let method = match str_at(text, "/data/method") {
            Some(m) => m,
            None => return Err(ProtocolError::MissingMethod),
        };
        Ok(Inbound::HttpRequest { id, url, method })
    } else {
        Ok(Inbound::Other { id, action })
    }
}

} // verus!
