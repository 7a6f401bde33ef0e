use base64::Engine;
use grass::{
    after_push, answer_fetch, decimal, FetchedResponse,
    auth_frame, fetch_reply, headers_frame, http_reply_frame, parse_frame, ping_frame, pong_frame, route,
    authority, is_verification, Config, ConfigError, Dispatch, Grass, Inbound, ProtocolError, ReadEvent, ReaderStep,
};
use serde_json::Value;

fn session() -> Grass {
    Grass::new("worker-1".to_string(), "user-42".to_string(), None).expect("client")
}

fn reply_of(d: Dispatch) -> Value {
    match d {
        Dispatch::Reply(text) => serde_json::from_str(&text).expect("reply is JSON"),
        other => panic!("expected a reply, got {:?}", other),
    }
}

#[test]
fn pong_frame_exact_text() {
    assert_eq!(pong_frame("7"), r#"{"id":"7","origin_action":"PONG"}"#);
}

#[test]
fn pong_frame_escapes_the_id() {
    let text = pong_frame("a\"b\\c");
    assert_eq!(text, r#"{"id":"a\"b\\c","origin_action":"PONG"}"#);
    let v: Value = serde_json::from_str(&text).unwrap();
    assert_eq!(v["id"], "a\"b\\c");
}

#[test]
fn auth_frame_exact_text() {
    let text = auth_frame("1", "dev", "usr", "UA", -42, "4.26.2");
    assert_eq!(
        text,
        r#"{"id":"1","origin_action":"AUTH","result":{"browser_id":"dev","device_type":"desktop","timestamp":-42,"user_agent":"UA","user_id":"usr","version":"4.26.2"}}"#
    );
}

#[test]
fn ping_frame_exact_text() {
    assert_eq!(
        ping_frame("abc", "1.0.0"),
        r#"{"action":"PING","data":{},"id":"abc","version":"1.0.0"}"#
    );
}

#[test]
fn headers_frame_lists_pairs_in_order() {
    assert_eq!(headers_frame(&vec![]), "[]");
    let hs = vec![
        ("content-type".to_string(), "text/plain".to_string()),
        ("x-a".to_string(), "1".to_string()),
    ];
    assert_eq!(headers_frame(&hs), r#"[["content-type","text/plain"],["x-a","1"]]"#);
}

#[test]
fn http_reply_frame_exact_text() {
    let hs = vec![("k".to_string(), "v".to_string())];
    assert_eq!(
        http_reply_frame("9", "https://x/", 404, &hs, "Ym9keQ=="),
        r#"{"data":{"body":"Ym9keQ==","headers":[["k","v"]],"status":404,"status_text":"","url":"https://x/"},"id":"9","origin_action":"HTTP_REQUEST"}"#
    );
}

#[test]
fn fetch_reply_encodes_body_in_base64() {
    let hs = vec![("server".to_string(), "nginx".to_string())];
    let text = fetch_reply("5", "https://api.getgrass.io/check", 201, &hs, b"hello");
    let v: Value = serde_json::from_str(&text).unwrap();
    assert_eq!(v["id"], "5");
    assert_eq!(v["origin_action"], "HTTP_REQUEST");
    assert_eq!(v["data"]["body"], "aGVsbG8=");
    assert_eq!(v["data"]["status"], 201);
    assert_eq!(v["data"]["url"], "https://api.getgrass.io/check");
    assert_eq!(v["data"]["headers"], serde_json::from_str::<Value>(r#"[["server","nginx"]]"#).unwrap());
    let body = v["data"]["body"].as_str().unwrap();
    assert_eq!(base64::prelude::BASE64_STANDARD.decode(body).unwrap(), b"hello".to_vec());
}

#[test]
fn fetch_reply_empty_body() {
    let text = fetch_reply("5", "https://api.getgrass.io/", 200, &vec![], b"");
    let v: Value = serde_json::from_str(&text).unwrap();
    assert_eq!(v["data"]["body"], "");
    assert_eq!(v["data"]["headers"], serde_json::from_str::<Value>("[]").unwrap());
}

#[test]
fn authority_of_urls() {
    assert_eq!(authority("https://api.getgrass.io/x").as_deref(), Some("api.getgrass.io"));
    assert_eq!(authority("https://api.getgrass.io").as_deref(), Some("api.getgrass.io"));
    assert_eq!(authority("http://api.getgrass.io?q=1").as_deref(), Some("api.getgrass.io"));
    assert_eq!(authority("https://host:8443#frag").as_deref(), Some("host:8443"));
    assert_eq!(authority("https://").as_deref(), Some(""));
    assert_eq!(authority("api.getgrass.io/x"), None);
    assert_eq!(authority("mailto:x@y"), None);
    assert_eq!(authority(""), None);
}

#[test]
fn verification_is_decided_by_authority() {
    let host = "api.getgrass.io".to_string();
    assert!(is_verification("https://api.getgrass.io/check", &host));
    assert!(is_verification("https://api.getgrass.io", &host));
    assert!(is_verification("http://api.getgrass.io/x", &host));
    assert!(is_verification("https://api.getgrass.io?x", &host));
    assert!(!is_verification("https://example.com/?r=https://api.getgrass.io/", &host));
    assert!(!is_verification("https://api.getgrass.io.evil.com/", &host));
    assert!(!is_verification("https://example.com/", &host));
}

#[test]
fn parse_frame_errors() {
    assert_eq!(parse_frame("not json", true).unwrap_err(), ProtocolError::NotJson);
    assert_eq!(parse_frame(r#"{"id":"1"}"#, true).unwrap_err(), ProtocolError::MissingAction);
    assert_eq!(parse_frame(r#"{"id":"1","action":3}"#, true).unwrap_err(), ProtocolError::MissingAction);
    assert_eq!(parse_frame(r#"{"action":"PONG"}"#, true).unwrap_err(), ProtocolError::MissingId);
    assert_eq!(
        parse_frame(r#"{"id":"1","action":"HTTP_REQUEST","data":{"method":"GET"}}"#, true).unwrap_err(),
        ProtocolError::MissingUrl
    );
    assert_eq!(
        parse_frame(r#"{"id":"1","action":"HTTP_REQUEST","data":{"url":"u"}}"#, true).unwrap_err(),
        ProtocolError::MissingMethod
    );
}

#[test]
fn parse_frame_variants() {
    assert!(matches!(parse_frame(r#"{"id":"1","action":"PONG"}"#, true), Ok(Inbound::Pong { id }) if id == "1"));
    assert!(matches!(parse_frame(r#"{"id":"2","action":"AUTH"}"#, true), Ok(Inbound::Auth { id }) if id == "2"));
    match parse_frame(r#"{"id":"3","action":"HTTP_REQUEST","data":{"url":"u","method":"GET"}}"#, true) {
        Ok(Inbound::HttpRequest { id, url, method }) => {
            assert_eq!((id.as_str(), url.as_str(), method.as_str()), ("3", "u", "GET"));
        }
        other => panic!("{:?}", other),
    }
    assert!(matches!(
        parse_frame(r#"{"id":"3","action":"HTTP_REQUEST"}"#, false),
        Ok(Inbound::Other { id, action }) if id == "3" && action == "HTTP_REQUEST"
    ));
    assert!(matches!(
        parse_frame(r#"{"id":"4","action":"DANCE"}"#, true),
        Ok(Inbound::Other { id, action }) if id == "4" && action == "DANCE"
    ));
}

#[test]
fn route_forges_with_given_body() {
    let cfg = Config::full();
    let frame = Inbound::HttpRequest { id: "8".into(), url: "https://example.com/".into(), method: "GET".into() };
    let v = reply_of(route(&cfg, "dev", "usr", &frame, 0, "hahahaha"));
    assert_eq!(v["data"]["body"], "hahahaha");
    assert_eq!(v["data"]["status"], 200);
}

#[test]
fn new_rejects_malformed_proxy() {
    let r = Grass::new("w".to_string(), "u".to_string(), Some("http://[::1"));
    assert_eq!(r.err(), Some(ConfigError::InvalidProxy));
}

#[test]
fn new_accepts_proxy_and_draws_device_id() {
    let g = Grass::new("w".to_string(), "u".to_string(), Some("http://127.0.0.1:8080")).expect("client");
    assert_eq!(g.device_id.len(), 36);
    assert_eq!(g.user_id, "u");
    assert_eq!(g.log_target(), "w");
    assert_eq!(g.proxy(), Some("http://127.0.0.1:8080"));
    assert!(g.accepts_invalid_tls());
    let h = Grass::new("w".to_string(), "u".to_string(), Some("http://127.0.0.1:8080")).expect("client");
    assert_ne!(g.device_id, h.device_id);
}

#[test]
fn auth_reply_carries_session_identity() {
    let g = session();
    let v = reply_of(g.handle_message(r#"{"id":"abc","action":"AUTH"}"#).unwrap());
    assert_eq!(v["id"], "abc");
    assert_eq!(v["origin_action"], "AUTH");
    assert_eq!(v["result"]["browser_id"], g.device_id.as_str());
    assert_eq!(v["result"]["user_id"], "user-42");
    assert_eq!(v["result"]["device_type"], "desktop");
    assert_eq!(v["result"]["version"], "4.26.2");
    assert!(v["result"]["timestamp"].as_i64().unwrap() > 1_600_000_000);
}

#[test]
fn outside_request_is_forged() {
    let g = session();
    let d = g
        .handle_message(r#"{"id":"q","action":"HTTP_REQUEST","data":{"url":"https://example.org/a","method":"GET"}}"#)
        .unwrap();
    let v = reply_of(d);
    assert_eq!(v["data"]["status"], 200);
    assert_eq!(v["data"]["status_text"], "");
    assert_eq!(v["data"]["headers"].as_array().unwrap().len(), 0);
    let body = v["data"]["body"].as_str().unwrap();
    assert_eq!(body.chars().count(), 16);
    assert!(body.chars().all(|c| "hahafunnylolxd".contains(c)));
}

#[test]
fn verification_request_is_fetched() {
    let g = session();
    let d = g
        .handle_message(r#"{"id":"v","action":"HTTP_REQUEST","data":{"url":"https://api.getgrass.io/x","method":"GET"}}"#)
        .unwrap();
    match d {
        Dispatch::Fetch { id, url } => {
            assert_eq!(id, "v");
            assert_eq!(url, "https://api.getgrass.io/x");
        }
        other => panic!("{:?}", other),
    }
}

#[test]
fn two_pongs_are_answered_independently() {
    let g = session();
    let a = g.handle_message(r#"{"id":"p1","action":"PONG"}"#).unwrap();
    let b = g.handle_message(r#"{"id":"p2","action":"PONG"}"#).unwrap();
    assert!(matches!(a, Dispatch::Reply(t) if t == r#"{"id":"p1","origin_action":"PONG"}"#));
    assert!(matches!(b, Dispatch::Reply(t) if t == r#"{"id":"p2","origin_action":"PONG"}"#));
}

#[test]
fn malformed_frame_is_dropped_and_reading_goes_on() {
    let g = session();
    let step = g.on_read(ReadEvent::Text(r#"{"id":"1"}"#.to_string()));
    assert!(matches!(step, ReaderStep::Dropped(ProtocolError::MissingAction)));
    let step = g.on_read(ReadEvent::Text(r#"{"id":"2","action":"PONG"}"#.to_string()));
    assert!(matches!(step, ReaderStep::Handle(Dispatch::Reply(t)) if t == r#"{"id":"2","origin_action":"PONG"}"#));
}

#[test]
fn reader_steps_for_transport_events() {
    let g = session();
    assert!(matches!(g.on_read(ReadEvent::NonText), ReaderStep::Skip));
    assert!(matches!(g.on_read(ReadEvent::Failed), ReaderStep::Stop { failed: true }));
    assert!(matches!(g.on_read(ReadEvent::Closed), ReaderStep::Stop { failed: false }));
}

#[test]
fn unknown_action_is_ignored() {
    let g = session();
    assert!(matches!(g.handle_message(r#"{"id":"1","action":"DANCE"}"#), Ok(Dispatch::Ignore)));
}

#[test]
fn partial_variant_ignores_http_requests() {
    let mut cfg = Config::full();
    cfg.supports_http_request_forging = false;
    let g = Grass::with_config("w".to_string(), "u".to_string(), None, cfg).unwrap();
    let d = g.handle_message(r#"{"id":"1","action":"HTTP_REQUEST","data":{"url":"https://example.org/","method":"GET"}}"#);
    assert!(matches!(d, Ok(Dispatch::Ignore)));
}

#[test]
fn keepalive_frame_has_fresh_id() {
    let g = session();
    let a: Value = serde_json::from_str(&g.keepalive_frame()).unwrap();
    let b: Value = serde_json::from_str(&g.keepalive_frame()).unwrap();
    assert_eq!(a["action"], "PING");
    assert_eq!(a["version"], "1.0.0");
    assert_eq!(a["id"].as_str().unwrap().len(), 36);
    assert_ne!(a["id"], b["id"]);
}

#[test]
fn full_config_values() {
    let cfg = Config::full();
    assert_eq!(cfg.keepalive_interval_secs, 120);
    assert_eq!(cfg.forged_body_len, 16);
    assert!(cfg.accept_invalid_tls);
    assert_eq!(cfg.verification_host, "api.getgrass.io");
    assert_eq!(cfg.write_queue_capacity, 32);
    assert_eq!(cfg.endpoint, "wss://proxy2.wynd.network:4444/");
}

#[test]
fn end_to_end_auth_then_forged_request() {
    let g = session();
    let v = reply_of(g.handle_message(r#"{"id":"1","action":"AUTH"}"#).unwrap());
    assert_eq!(v["origin_action"], "AUTH");
    assert_eq!(v["id"], "1");
    let d = g
        .handle_message(r#"{"id":"2","action":"HTTP_REQUEST","data":{"url":"https://example.com/x","method":"GET"}}"#)
        .unwrap();
    assert!(!matches!(d, Dispatch::Fetch { .. }));
    let v = reply_of(d);
    assert_eq!(v["origin_action"], "HTTP_REQUEST");
    assert_eq!(v["id"], "2");
    assert_eq!(v["data"]["status"], 200);
    assert_eq!(v["data"]["headers"].as_array().unwrap().len(), 0);
    assert_eq!(v["data"]["body"].as_str().unwrap().chars().count(), 16);
}

#[test]
fn verification_host_without_slash_is_fetched() {
    let g = session();
    let d = g
        .handle_message(r#"{"id":"w","action":"HTTP_REQUEST","data":{"url":"https://api.getgrass.io","method":"GET"}}"#)
        .unwrap();
    assert!(matches!(d, Dispatch::Fetch { id, url } if id == "w" && url == "https://api.getgrass.io"));
}

#[test]
fn device_id_has_uuid_v4_form() {
    let g = session();
    let id: Vec<char> = g.device_id.chars().collect();
    assert_eq!(id.len(), 36);
    for (i, c) in id.iter().enumerate() {
        if [8, 13, 18, 23].contains(&i) {
            assert_eq!(*c, '-');
        } else {
            assert!(c.is_ascii_digit() || ('a'..='f').contains(c));
        }
    }
    assert_eq!(id[14], '4');
    assert!("89ab".contains(id[19]));
}

#[test]
fn with_device_id_keeps_the_given_id() {
    let g = Grass::with_device_id("w".to_string(), "u".to_string(), None, Config::full(), "dev-1".to_string()).unwrap();
    assert_eq!(g.device_id, "dev-1");
    let v = reply_of(g.handle_message(r#"{"id":"a","action":"AUTH"}"#).unwrap());
    assert_eq!(v["result"]["browser_id"], "dev-1");
    assert_eq!(v["result"]["user_id"], "u");
}

#[test]
fn answer_fetch_builds_reply_or_nothing() {
    let resp = FetchedResponse { status: 204, headers: vec![("a".to_string(), "b".to_string())], body: b"hi".to_vec() };
    let text = answer_fetch("3", "https://api.getgrass.io/", Some(resp)).unwrap();
    let v: Value = serde_json::from_str(&text).unwrap();
    assert_eq!(v["data"]["status"], 204);
    assert_eq!(v["data"]["body"], "aGk=");
    assert_eq!(answer_fetch("3", "https://api.getgrass.io/", None), None);
}

#[test]
fn closed_queue_ends_the_session() {
    assert!(matches!(after_push(true), ReaderStep::Skip));
    assert!(matches!(after_push(false), ReaderStep::Stop { failed: true }));
}

#[test]
fn decimal_text_of_integers() {
    assert_eq!(decimal(0), "0");
    assert_eq!(decimal(7), "7");
    assert_eq!(decimal(1_700_000_000), "1700000000");
    assert_eq!(decimal(-42), "-42");
    assert_eq!(decimal(i64::MAX), "9223372036854775807");
    assert_eq!(decimal(i64::MIN), "-9223372036854775808");
}

#[test]
fn transport_settings_follow_the_config() {
    let g = session();
    assert_eq!(g.proxy(), None);
    assert!(g.accepts_invalid_tls());
    let mut cfg = Config::full();
    cfg.accept_invalid_tls = false;
    let h = Grass::with_config("w".to_string(), "u".to_string(), Some("http://10.0.0.1:3128"), cfg).unwrap();
    assert_eq!(h.proxy(), Some("http://10.0.0.1:3128"));
    assert!(!h.accepts_invalid_tls());
}

#[test]
fn pong_frame_escapes_control_characters() {
    assert_eq!(
        pong_frame("\u{1}\u{1f}\t\n\r\u{8}\u{c}é"),
        "{\"id\":\"\\u0001\\u001f\\t\\n\\r\\b\\fé\",\"origin_action\":\"PONG\"}"
    );
}
