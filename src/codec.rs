//! Decoding of inbound text frames and encoding of the greeting sent to
//! every new connection.
use vstd::prelude::*;

verus! {

#[verifier::external_type_specification]
#[verifier::external_body]
pub struct ExValue(serde_json::Value);

#[verifier::external_type_specification]
#[verifier::external_body]
pub struct ExJsonError(serde_json::Error);

/// Whether serde_json accepts `text` as one JSON document.
pub uninterp spec fn json_accepts(text: Seq<char>) -> bool;

/// The member `key` of the JSON document `text`, when that document is an
/// object and that member is a string.
pub uninterp spec fn json_string_member(text: Seq<char>, key: Seq<char>) -> Option<Seq<char>>;

/// The characters of an optional string.
pub open spec fn text_of(k: Option<String>) -> Option<Seq<char>> {
    match k {
        Some(s) => Some(s@),
        None => None,
    }
}

/// Relies on serde_json::from_str::<Value>, Value::get with a string key and
/// Value::as_str: whether parsing succeeds, and the string member `key` of
/// the document, depend on the text and the key alone.
#[verifier::external_body]
fn parse_member(text: &str, key: &str) -> (r: Result<(serde_json::Value, Option<String>), serde_json::Error>)
    ensures
        r.is_ok() == json_accepts(text@),
        r matches Ok((_, k)) ==> json_string_member(text@, key@) == text_of(k),
{
    let v = serde_json::from_str::<serde_json::Value>(text)?;
    let member = v.get(key).and_then(serde_json::Value::as_str).map(str::to_owned);
    Ok((v, member))
}

/// The hexadecimal digit `d`, in lower case.
pub open spec fn hex_char(d: nat) -> char {
    if d < 10 { digit_char(d) }
    else if d == 10 { 'a' }
    else if d == 11 { 'b' }
    else if d == 12 { 'c' }
    else if d == 13 { 'd' }
    else if d == 14 { 'e' }
    else { 'f' }
}

/// How one character stands inside a JSON string: the quote, the backslash
/// and the control characters are escaped, any other is kept.
pub open spec fn json_escape(c: char) -> Seq<char> {
    if c == '"' { seq!['\\', '"'] }
    else if c == '\\' { seq!['\\', '\\'] }
    else if c == '\u{08}' { seq!['\\', 'b'] }
    else if c == '\t' { seq!['\\', 't'] }
    else if c == '\n' { seq!['\\', 'n'] }
    else if c == '\u{0C}' { seq!['\\', 'f'] }
    else if c == '\r' { seq!['\\', 'r'] }
    else if (c as u32) < 0x20 {
        seq!['\\', 'u', '0', '0', hex_char((c as u32 / 16) as nat), hex_char((c as u32 % 16) as nat)]
    } else { seq![c] }
}

/// The characters of `s`, each escaped for a JSON string.
pub open spec fn json_escaped(s: Seq<char>) -> Seq<char>
    decreases s.len(),
{
    if s.len() == 0 {
        Seq::empty()
    } else {
        json_escaped(s.drop_last()) + json_escape(s.last())
    }
}

/// The compact JSON text of the string `s`.
pub open spec fn json_string_text(s: Seq<char>) -> Seq<char> {
    seq!['"'] + json_escaped(s) + seq!['"']
}

/// Relies on the Display impl of serde_json::Value for a string value: the
/// compact JSON text of `s`.
#[verifier::external_body]
fn json_string(s: &str) -> (r: String)
    ensures
        r@ == json_string_text(s@),
{
    serde_json::Value::String(s.to_owned()).to_string()
}

/// Relies on std::time::SystemTime::now, chrono's From<SystemTime> for
/// DateTime<Utc> and DateTime::timestamp_millis: the current time in
/// milliseconds since the Unix epoch, negative for a clock set before it.
#[verifier::external_body]
fn now_millis() -> (r: i64) {
    chrono::DateTime::<chrono::Utc>::from(std::time::SystemTime::now()).timestamp_millis()
}

/// What one inbound text frame decodes to.
pub enum Inbound {
    /// The text is not JSON.
    Malformed(serde_json::Error),
    /// JSON without a string member `type`.
    Untyped(serde_json::Value),
    /// JSON whose member `type` is the given string.
    Typed(String, serde_json::Value),
}

/// The member of an inbound message that names its type.
pub open spec fn type_key() -> Seq<char> {
    "type"@
}

/// Decodes one text frame. Any JSON document is accepted, whatever members it
/// holds.
pub fn decode(text: &str) -> (r: Inbound)
    ensures
        r is Malformed <==> !json_accepts(text@),
        r matches Inbound::Typed(t, _) ==> json_string_member(text@, type_key()) == Some(t@),
        r is Untyped ==> json_string_member(text@, type_key()) is None,
{
    match parse_member(text, "type") {
        Err(e) => Inbound::Malformed(e),
        Ok((v, Some(t))) => Inbound::Typed(t, v),
        Ok((v, None)) => Inbound::Untyped(v),
    }
}

/// The decimal digit `d`.
pub open spec fn digit_char(d: nat) -> char {
    if d == 0 { '0' }
    else if d == 1 { '1' }
    else if d == 2 { '2' }
    else if d == 3 { '3' }
    else if d == 4 { '4' }
    else if d == 5 { '5' }
    else if d == 6 { '6' }
    else if d == 7 { '7' }
    else if d == 8 { '8' }
    else { '9' }
}

/// The decimal digits of `n`, most significant first, without leading zeros.
pub open spec fn digits(n: nat) -> Seq<char>
    decreases n,
{
    if n < 10 {
        seq![digit_char(n)]
    } else {
        digits(n / 10) + seq![digit_char(n % 10)]
    }
}

/// The decimal text of the integer `i`.
pub open spec fn decimal(i: int) -> Seq<char> {
    if i < 0 {
        seq!['-'] + digits((-i) as nat)
    } else {
        digits(i as nat)
    }
}

/// The greeting for a server of version `version`, sent at `timestamp`
/// milliseconds since the Unix epoch.
pub open spec fn handshake_text(version: Seq<char>, timestamp: int) -> Seq<char> {
    "{\"type\":\"connected\",\"serverVersion\":"@ + json_string_text(version)
        + ",\"timestamp\":"@ + decimal(timestamp) + "}"@
}

fn digit_str(d: u64) -> (r: &'static str)
    requires
        d < 10,
    ensures
        r@ == seq![digit_char(d as nat)],
{
    proof {
        reveal_strlit("0");
        reveal_strlit("1");
        reveal_strlit("2");
        reveal_strlit("3");
        reveal_strlit("4");
        reveal_strlit("5");
        reveal_strlit("6");
        reveal_strlit("7");
        reveal_strlit("8");
        reveal_strlit("9");
    }
    let r = if d == 0 { "0" }
    else if d == 1 { "1" }
    else if d == 2 { "2" }
    else if d == 3 { "3" }
    else if d == 4 { "4" }
    else if d == 5 { "5" }
    else if d == 6 { "6" }
    else if d == 7 { "7" }
    else if d == 8 { "8" }
    else { "9" };
    assert(r@ =~= seq![digit_char(d as nat)]);
    r
}

fn push_digits(out: &mut String, n: u64)
    ensures
        final(out)@ == old(out)@ + digits(n as nat),
    decreases n,
{
    if n >= 10 {
        push_digits(out, n / 10);
    }
    out.append(digit_str(n % 10));
    assert(final(out)@ =~= old(out)@ + digits(n as nat));
}

/// The greeting text for `version` and `timestamp`, in compact JSON.
pub fn encode_handshake(version: &str, timestamp: i64) -> (r: String)
    ensures
        r@ == handshake_text(version@, timestamp as int),
{
    let mut out = String::from_str("{\"type\":\"connected\",\"serverVersion\":");
    let quoted = json_string(version);
    out.append(quoted.as_str());
    out.append(",\"timestamp\":");
    if timestamp < 0 {
        out.append("-");
        proof { reveal_strlit("-"); }
        let magnitude: u64 = (-(timestamp as i128)) as u64;
        push_digits(&mut out, magnitude);
    } else {
        push_digits(&mut out, timestamp as u64);
    }
    out.append("}");
    assert(out@ =~= handshake_text(version@, timestamp as int));
    out
}

/// The greeting for `version`, stamped with the current time.
pub fn handshake_message(version: &str) -> (r: String)
    ensures
        exists|t: i64| r@ == handshake_text(version@, t as int),
{
    let now = now_millis();
    encode_handshake(version, now)
}

} // verus!
