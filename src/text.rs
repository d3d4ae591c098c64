//! Header texts: which bytes a header value may hold, how header names
//! compare, and the outside parsers and encoders the library relies on.
use vstd::prelude::*;
use vstd::string::*;

verus! {

/// A byte that may stand in a header value: a tab, or a byte of at least 32
/// other than DEL.
pub open spec fn is_value_byte(b: u8) -> bool {
    (b >= 32 && b != 127) || b == 9
}

/// A character whose UTF-8 bytes may all stand in a header value. Every byte
/// of a non-ASCII character is at least 128, so only ASCII controls are out.
pub open spec fn is_value_char(c: char) -> bool {
    (c as u32 >= 32 && c as u32 != 127) || c as u32 == 9
}

/// A text that may be sent as a header value.
pub open spec fn is_header_value(s: Seq<char>) -> bool {
    forall|i: int| 0 <= i < s.len() ==> is_value_char(#[trigger] s[i])
}

/// A byte that reads as text in a header value: a tab or visible ASCII.
pub open spec fn is_text_byte(b: u8) -> bool {
    (b >= 32 && b < 127) || b == 9
}

/// Raw header bytes that read as text.
pub open spec fn is_header_text(b: Seq<u8>) -> bool {
    forall|i: int| 0 <= i < b.len() ==> is_text_byte(#[trigger] b[i])
}

/// The characters of ASCII bytes.
pub open spec fn ascii_chars(b: Seq<u8>) -> Seq<char> {
    b.map_values(|x: u8| x as char)
}

/// The code of a character with ASCII upper case folded to lower case.
pub open spec fn folded(c: char) -> u32 {
    if 65 <= c as u32 && c as u32 <= 90 {
        (c as u32 + 32) as u32
    } else {
        c as u32
    }
}

/// Two header names are the same name when they differ in ASCII case only.
pub open spec fn same_name(a: Seq<char>, b: Seq<char>) -> bool {
    a.len() == b.len() && forall|i: int| 0 <= i < a.len() ==> folded(#[trigger] a[i]) == folded(b[i])
}

fn fold_char(c: char) -> (r: u32)
    ensures
        r == folded(c),
{
    let u = c as u32;
    if 65 <= u && u <= 90 {
        u + 32
    } else {
        u
    }
}

/// Compares two header names, ignoring ASCII case.
pub fn names_equal(a: &str, b: &str) -> (r: bool)
    ensures
        r == same_name(a@, b@),
{
    let n = a.unicode_len();
    if n != b.unicode_len() {
        return false;
    }
    let mut i: usize = 0;
    while i < n
        invariant
            n == a@.len(),
            n == b@.len(),
            i <= n,
            forall|j: int| 0 <= j < i ==> folded(#[trigger] a@[j]) == folded(b@[j]),
        decreases n - i,
    {
        if fold_char(a.get_char(i)) != fold_char(b.get_char(i)) {
            return false;
        }
        i = i + 1;
    }
    true
}

/// Tells whether a text may be sent as a header value.
///
/// Relies on `http::HeaderValue::from_str`, which accepts a text exactly when
/// each of its bytes is a tab or at least 32 and not 127.
#[verifier::external_body]
pub(crate) fn check_header_value(s: &str) -> (r: bool)
    ensures
        r == is_header_value(s@),
{
    http::HeaderValue::from_str(s).is_ok()
}

/// Reads raw header bytes as text.
///
/// Relies on `http::HeaderValue::from_bytes` and `http::HeaderValue::to_str`:
/// together they give the bytes back as a text exactly when each byte is a
/// tab or visible ASCII.
#[verifier::external_body]
pub(crate) fn header_bytes_text(b: &[u8]) -> (r: Option<String>)
    ensures
        r is Some <==> is_header_text(b@),
        r matches Some(s) ==> s@ == ascii_chars(b@),
{
    match http::HeaderValue::from_bytes(b) {
        Ok(v) => v.to_str().ok().map(|s| s.to_owned()),
        Err(_) => None,
    }
}

/// The JSON string literal that `serde_json` writes for a text.
pub uninterp spec fn json_quoted(s: Seq<char>) -> Seq<char>;

/// Writes a text as a JSON string literal.
///
/// Relies on `serde_json::to_string` on a `str`, which writes into a `Vec`
/// and so cannot fail.
#[verifier::external_body]
pub(crate) fn json_quote(s: &str) -> (r: String)
    ensures
        r@ == json_quoted(s@),
{
    serde_json::to_string(s).unwrap_or_default()
}

/// Whether `serde_json` reads a text as one JSON value.
pub uninterp spec fn is_json(s: Seq<char>) -> bool;

/// Tells whether a text is one JSON value.
///
/// Relies on `serde_json::from_str` into a `serde_json::Value`.
#[verifier::external_body]
pub(crate) fn check_json(s: &str) -> (r: bool)
    ensures
        r == is_json(s@),
{
    serde_json::from_str::<serde_json::Value>(s).is_ok()
}

/// The text that `http` writes back for a URI it parsed from a text, or
/// `None` where it refuses the text.
pub uninterp spec fn uri_text(s: Seq<char>) -> Option<Seq<char>>;

/// Parses a URI and writes it back as text.
///
/// Relies on `http::Uri`'s `FromStr` and `Display`.
#[verifier::external_body]
pub(crate) fn parse_uri(s: &str) -> (r: Option<String>)
    ensures
        match r {
            Some(t) => uri_text(s@) == Some(t@),
            None => uri_text(s@) is None,
        },
{
    s.parse::<http::Uri>().ok().map(|u| u.to_string())
}

} // verus!
