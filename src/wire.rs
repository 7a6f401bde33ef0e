//! JSON text of the frames exchanged with the remote service.
use vstd::prelude::*;

verus! {

/// A lower-case hexadecimal digit.
pub open spec fn hex_char(d: nat) -> char {
    if d < 10 {
        digit_char(d)
    } else if d == 10 { 'a' } else if d == 11 { 'b' } else if d == 12 { 'c' } else if d == 13 { 'd' }
    else if d == 14 { 'e' } else { 'f' }
}

/// How `serde_json` writes one character inside a string literal: the quote
/// and the backslash are escaped, control characters take their short escape
/// or `\u00XX`, and every other character stands as it is.
pub open spec fn escaped_char(c: char) -> Seq<char> {
    if c == '"' {
        seq!['\\', '"']
    } else if c == '\\' {
        seq!['\\', '\\']
    } else if c == '\u{8}' {
        seq!['\\', 'b']
    } else if c == '\t' {
        seq!['\\', 't']
    } else if c == '\n' {
        seq!['\\', 'n']
    } else if c == '\u{c}' {
        seq!['\\', 'f']
    } else if c == '\r' {
        seq!['\\', 'r']
    } else if (c as u32) < 0x20 {
        seq!['\\', 'u', '0', '0', hex_char((c as u32 / 16) as nat), hex_char((c as u32 % 16) as nat)]
    } else {
        seq![c]
    }
}

/// The escaped characters of a string, without the enclosing quotes.
pub open spec fn escaped(s: Seq<char>) -> Seq<char>
    decreases s.len(),
{
    if s.len() == 0 {
        Seq::empty()
    } else {
        escaped(s.drop_last()) + escaped_char(s.last())
    }
}

/// What `serde_json` writes for a string: the quoted and escaped literal.
pub open spec fn json_string_of(s: Seq<char>) -> Seq<char> {
    seq!['"'] + escaped(s) + seq!['"']
}

/// The text of `n` in decimal, with a leading `-` when negative.
pub open spec fn decimal_text(n: int) -> Seq<char> {
    if n < 0 {
        seq!['-'] + digits_of((-n) as nat)
    } else {
        digits_of(n as nat)
    }
}

pub open spec fn digit_char(d: nat) -> char {
    if d == 0 { '0' } else if d == 1 { '1' } else if d == 2 { '2' } else if d == 3 { '3' }
    else if d == 4 { '4' } else if d == 5 { '5' } else if d == 6 { '6' } else if d == 7 { '7' }
    else if d == 8 { '8' } else { '9' }
}

pub open spec fn digits_of(n: nat) -> Seq<char>
    decreases n,
{
    if n < 10 {
        seq![digit_char(n)]
    } else {
        digits_of(n / 10).push(digit_char(n % 10))
    }
}

/// Relies on serde_json::to_string on a `str`: the string quoted, escaped by
/// serde_json's escape table (serialising a string cannot fail).
#[verifier::external_body]
pub(crate) fn json_quote(s: &str) -> (r: String)
    ensures
        r@ == json_string_of(s@),
{
    serde_json::to_string(s).unwrap_or_default()
}

fn digit_str(d: u64) -> (r: &'static str)
    requires
        d < 10,
    ensures
        r@ == seq![digit_char(d as nat)],
{
    proof {
        reveal_strlit("0");
        reveal_strlit("1");
        reveal_strlit("2");
        reveal_strlit("3");
        reveal_strlit("4");
        reveal_strlit("5");
        reveal_strlit("6");
        reveal_strlit("7");
        reveal_strlit("8");
        reveal_strlit("9");
    }
    let r = if d == 0 { "0" } else if d == 1 { "1" } else if d == 2 { "2" } else if d == 3 { "3" }
    else if d == 4 { "4" } else if d == 5 { "5" } else if d == 6 { "6" } else if d == 7 { "7" }
    else if d == 8 { "8" } else { "9" };
    assert(r@ =~= seq![digit_char(d as nat)]);
    r
}

fn digits(n: u64) -> (r: String)
    ensures
        r@ == digits_of(n as nat),
    decreases n,
{
    if n < 10 {
        String::from_str(digit_str(n))
    } else {
        let mut s = digits(n / 10);
        s.append(digit_str(n % 10));
        assert(s@ =~= digits_of(n as nat));
        s
    }
}

/// `n` in decimal notation.
pub fn decimal(n: i64) -> (r: String)
    ensures
        r@ == decimal_text(n as int),
{
    if n < 0 {
        let magnitude: u64 = (0i128 - n as i128) as u64;
        let mut s = String::from_str("-");
        proof {
            reveal_strlit("-");
        }
        s.append(digits(magnitude).as_str());
        assert(s@ =~= decimal_text(n as int));
        s
    } else {
        digits(n as u64)
    }
}

/// Reply to a `PONG` check: the inbound id echoed back.
pub open spec fn pong_text(id: Seq<char>) -> Seq<char> {
    "{\"id\":"@ + json_string_of(id) + ",\"origin_action\":\"PONG\"}"@
}

/// Reply to an `AUTH` request, fields in the order `serde_json` writes them.
pub open spec fn auth_text(
    id: Seq<char>,
    browser_id: Seq<char>,
    user_id: Seq<char>,
    user_agent: Seq<char>,
    timestamp: i64,
    version: Seq<char>,
) -> Seq<char> {
    "{\"id\":"@ + json_string_of(id) + ",\"origin_action\":\"AUTH\",\"result\":{\"browser_id\":"@
        + json_string_of(browser_id) + ",\"device_type\":\"desktop\",\"timestamp\":"@
        + decimal_text(timestamp as int) + ",\"user_agent\":"@ + json_string_of(user_agent)
        + ",\"user_id\":"@ + json_string_of(user_id) + ",\"version\":"@ + json_string_of(version)
        + "}}"@
}

/// Keepalive frame minted by the session itself.
pub open spec fn ping_text(id: Seq<char>, version: Seq<char>) -> Seq<char> {
    "{\"action\":\"PING\",\"data\":{},\"id\":"@ + json_string_of(id) + ",\"version\":"@
        + json_string_of(version) + "}"@
}

/// One header as a two-element JSON array.
pub open spec fn header_text(h: (String, String)) -> Seq<char> {
    "["@ + json_string_of(h.0@) + ","@ + json_string_of(h.1@) + "]"@
}

/// The headers, comma separated, without the enclosing brackets.
pub open spec fn header_items_text(hs: Seq<(String, String)>) -> Seq<char>
    decreases hs.len(),
{
    if hs.len() == 0 {
        Seq::empty()
    } else if hs.len() == 1 {
        header_text(hs[0])
    } else {
        header_items_text(hs.drop_last()) + ","@ + header_text(hs.last())
    }
}

pub open spec fn headers_text(hs: Seq<(String, String)>) -> Seq<char> {
    "["@ + header_items_text(hs) + "]"@
}

/// Reply to an `HTTP_REQUEST`; `body` is the already encoded body text.
pub open spec fn http_reply_text(
    id: Seq<char>,
    url: Seq<char>,
    status: u16,
    headers: Seq<(String, String)>,
    body: Seq<char>,
) -> Seq<char> {
    "{\"data\":{\"body\":"@ + json_string_of(body) + ",\"headers\":"@ + headers_text(headers)
        + ",\"status\":"@ + decimal_text(status as int) + ",\"status_text\":\"\",\"url\":"@
        + json_string_of(url) + "},\"id\":"@ + json_string_of(id)
        + ",\"origin_action\":\"HTTP_REQUEST\"}"@
}

pub fn pong_frame(id: &str) -> (r: String)
    ensures
        r@ == pong_text(id@),
{
    let mut s = String::from_str("{\"id\":");
    s.append(json_quote(id).as_str());
    s.append(",\"origin_action\":\"PONG\"}");
    s
}

pub fn auth_frame(
    id: &str,
    browser_id: &str,
    user_id: &str,
    user_agent: &str,
    timestamp: i64,
    version: &str,
) -> (r: String)
    ensures
        r@ == auth_text(id@, browser_id@, user_id@, user_agent@, timestamp, version@),
{
    let mut s = String::from_str("{\"id\":");
    s.append(json_quote(id).as_str());
    s.append(",\"origin_action\":\"AUTH\",\"result\":{\"browser_id\":");
    s.append(json_quote(browser_id).as_str());
    s.append(",\"device_type\":\"desktop\",\"timestamp\":");
    s.append(decimal(timestamp).as_str());
    s.append(",\"user_agent\":");
    s.append(json_quote(user_agent).as_str());
    s.append(",\"user_id\":");
    s.append(json_quote(user_id).as_str());
    s.append(",\"version\":");
    s.append(json_quote(version).as_str());
    s.append("}}");
    s
}

pub fn ping_frame(id: &str, version: &str) -> (r: String)
    ensures
        r@ == ping_text(id@, version@),
{
    let mut s = String::from_str("{\"action\":\"PING\",\"data\":{},\"id\":");
    s.append(json_quote(id).as_str());
    s.append(",\"version\":");
    s.append(json_quote(version).as_str());
    s.append("}");
    s
}

pub fn headers_frame(headers: &Vec<(String, String)>) -> (r: String)
    ensures
        r@ == headers_text(headers@),
{
    let mut s = String::from_str("[");
    let mut i: usize = 0;
    while i < headers.len()
        invariant
            i <= headers@.len(),
            s@ == "["@ + header_items_text(headers@.subrange(0, i as int)),
        decreases headers@.len() - i,
    {
        let ghost before = s@;
        if i > 0 {
            s.append(",");
        }
        s.append("[");
        s.append(json_quote(headers[i].0.as_str()).as_str());
        s.append(",");
        s.append(json_quote(headers[i].1.as_str()).as_str());
        s.append("]");
        proof {
            let next = headers@.subrange(0, i + 1);
            assert(next.drop_last() =~= headers@.subrange(0, i as int));
            assert(next.last() == headers@[i as int]);
            if i == 0 {
                assert(before =~= "["@ + Seq::<char>::empty());
            }
        }
        i = i + 1;
    }
    assert(headers@.subrange(0, headers@.len() as int) =~= headers@);
    s.append("]");
    s
}

pub fn http_reply_frame(
    id: &str,
    url: &str,
    status: u16,
    headers: &Vec<(String, String)>,
    body: &str,
) -> (r: String)
    ensures
        r@ == http_reply_text(id@, url@, status, headers@, body@),
{
    let mut s = String::from_str("{\"data\":{\"body\":");
    s.append(json_quote(body).as_str());
    s.append(",\"headers\":");
    s.append(headers_frame(headers).as_str());
    s.append(",\"status\":");
    s.append(decimal(status as i64).as_str());
    s.append(",\"status_text\":\"\",\"url\":");
    s.append(json_quote(url).as_str());
    s.append("},\"id\":");
    s.append(json_quote(id).as_str());
    s.append(",\"origin_action\":\"HTTP_REQUEST\"}");
    s
}

} // verus!
