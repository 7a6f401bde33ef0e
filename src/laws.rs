//! Properties of a session's answers that hold for every frame.
use vstd::prelude::*;
use crate::inbound::{action_at, inbound_of, InboundView, ProtocolError};
use crate::router::{dispatch_of, is_forged_body, is_verification_url, DispatchView};
use crate::session::{Grass, ReadEvent, ReaderStep};
use crate::wire::{auth_text, http_reply_text, pong_text};

verus! {

/// Every answer to an `AUTH` frame is a reply that echoes the frame's id and
/// gives the session's device id as `browser_id` and its user id as `user_id`.
pub proof fn auth_reply_names_the_session(g: &Grass, text: Seq<char>, id: Seq<char>, d: DispatchView)
    requires
        inbound_of(text, g.spec_config().supports_http_request_forging) == Ok::<InboundView, ProtocolError>(InboundView::Auth { id }),
        g.answers(text, d),
    ensures
        exists|ts: i64| d == DispatchView::Reply(auth_text(
            id,
            g.spec_device_id(),
            g.spec_user_id(),
            g.spec_config().user_agent@,
            ts,
            g.spec_config().protocol_version@,
        )),
{
    let (ts, body) = choose|ts: i64, body: Seq<char>|
        (InboundView::Auth { id } is HttpRequest ==> is_forged_body(g.spec_config(), body))
        && d == dispatch_of(g.spec_config(), g.spec_device_id(), g.spec_user_id(), InboundView::Auth { id }, ts, body);
    assert(d == DispatchView::Reply(auth_text(id, g.spec_device_id(), g.spec_user_id(), g.spec_config().user_agent@, ts, g.spec_config().protocol_version@)));
}

/// A request for a url outside the verification domain is never fetched: it
/// is answered by a forged reply with status 200, no headers, and a body of
/// the configured length drawn from the configured characters.
pub proof fn outside_requests_are_forged(
    g: &Grass,
    text: Seq<char>,
    id: Seq<char>,
    url: Seq<char>,
    method: Seq<char>,
    d: DispatchView,
)
    requires
        inbound_of(text, g.spec_config().supports_http_request_forging) == Ok::<InboundView, ProtocolError>(InboundView::HttpRequest { id, url, method }),
        !is_verification_url(g.spec_config().verification_host@, url),
        g.answers(text, d),
    ensures
        exists|body: Seq<char>| is_forged_body(g.spec_config(), body)
            && d == DispatchView::Reply(http_reply_text(id, url, 200, Seq::empty(), body)),
{
    let f = InboundView::HttpRequest { id, url, method };
    let (ts, body) = choose|ts: i64, body: Seq<char>|
        (f is HttpRequest ==> is_forged_body(g.spec_config(), body))
        && d == dispatch_of(g.spec_config(), g.spec_device_id(), g.spec_user_id(), f, ts, body);
    assert(g.spec_config().supports_http_request_forging);
    assert(is_forged_body(g.spec_config(), body)
        && d == DispatchView::Reply(http_reply_text(id, url, 200, Seq::empty(), body)));
}

/// A request for a url inside the verification domain is answered by
/// fetching that url for real, under the frame's id (the reply is then built
/// by `fetch_reply` from the real response).
pub proof fn verification_requests_are_fetched(
    g: &Grass,
    text: Seq<char>,
    id: Seq<char>,
    url: Seq<char>,
    method: Seq<char>,
    d: DispatchView,
)
    requires
        inbound_of(text, g.spec_config().supports_http_request_forging) == Ok::<InboundView, ProtocolError>(InboundView::HttpRequest { id, url, method }),
        is_verification_url(g.spec_config().verification_host@, url),
        g.answers(text, d),
    ensures
        d == (DispatchView::Fetch { id, url }),
{
    let f = InboundView::HttpRequest { id, url, method };
    let (ts, body) = choose|ts: i64, body: Seq<char>|
        (f is HttpRequest ==> is_forged_body(g.spec_config(), body))
        && d == dispatch_of(g.spec_config(), g.spec_device_id(), g.spec_user_id(), f, ts, body);
    assert(g.spec_config().supports_http_request_forging);
}

/// Two `PONG` frames handled one after the other are each answered with
/// their own id and nothing else: the answer to the second does not depend
/// on the first.
pub proof fn pong_replies_are_independent(
    g: &Grass,
    first: Seq<char>,
    second: Seq<char>,
    first_id: Seq<char>,
    second_id: Seq<char>,
    first_reply: DispatchView,
    second_reply: DispatchView,
)
    requires
        inbound_of(first, g.spec_config().supports_http_request_forging) == Ok::<InboundView, ProtocolError>(InboundView::Pong { id: first_id }),
        inbound_of(second, g.spec_config().supports_http_request_forging) == Ok::<InboundView, ProtocolError>(InboundView::Pong { id: second_id }),
        g.answers(first, first_reply),
        g.answers(second, second_reply),
    ensures
        first_reply == DispatchView::Reply(pong_text(first_id)),
        second_reply == DispatchView::Reply(pong_text(second_id)),
{
    let f1 = InboundView::Pong { id: first_id };
    let f2 = InboundView::Pong { id: second_id };
    let (t1, b1) = choose|ts: i64, body: Seq<char>|
        (f1 is HttpRequest ==> is_forged_body(g.spec_config(), body))
        && first_reply == dispatch_of(g.spec_config(), g.spec_device_id(), g.spec_user_id(), f1, ts, body);
    let (t2, b2) = choose|ts: i64, body: Seq<char>|
        (f2 is HttpRequest ==> is_forged_body(g.spec_config(), body))
        && second_reply == dispatch_of(g.spec_config(), g.spec_device_id(), g.spec_user_id(), f2, ts, body);
}

/// A text frame without an `action` is dropped with a protocol error and the
/// reader loop goes on; handling it changes nothing in the session, so the
/// next frame is answered as if it had not come.
pub proof fn frame_without_action_is_dropped(g: &Grass, bad: String, step: ReaderStep)
    requires
        action_at(bad@) is None,
        g.step_allowed(ReadEvent::Text(bad), step),
    ensures
        step matches ReaderStep::Dropped(e) && (e == ProtocolError::NotJson || e == ProtocolError::MissingAction),
{
}

} // verus!
