//! Reading the htmx request headers.
use vstd::prelude::*;

use crate::headers::{
    HX_BOOSTED, HX_CURRENT_URL, HX_HISTORY_RESTORE_REQUEST, HX_PROMPT, HX_REQUEST, HX_TARGET,
    HX_TRIGGER, HX_TRIGGER_NAME,
};
use crate::response::{opt_text, Url};
use crate::text::{ascii_chars, header_bytes_text, is_header_text, names_equal, same_name, uri_text};

verus! {

/// One header of a request, as it came over the wire.
#[derive(Debug, Clone)]
pub struct RawHeader {
    /// The header's name.
    pub name: String,
    /// The header's value, as raw bytes.
    pub value: Vec<u8>,
}

impl RawHeader {
    /// A header with the given name and value bytes.
    pub fn new(name: String, value: Vec<u8>) -> (r: RawHeader)
        ensures
            r.name == name,
            r.value == value,
    {
        RawHeader { name, value }
    }
}

/// The value of the first header whose name is `name`, ignoring ASCII case.
pub open spec fn header_lookup(hs: Seq<RawHeader>, name: Seq<char>) -> Option<Seq<u8>>
    decreases hs.len(),
{
    if hs.len() == 0 {
        None
    } else if same_name(hs[0].name@, name) {
        Some(hs[0].value@)
    } else {
        header_lookup(hs.drop_first(), name)
    }
}

/// The bytes of the text `true`.
pub open spec fn true_bytes() -> Seq<u8> {
    seq![116u8, 114u8, 117u8, 101u8]
}

/// A flag header is set when it is present with the exact value `true`.
pub open spec fn header_flag(hs: Seq<RawHeader>, name: Seq<char>) -> bool {
    header_lookup(hs, name) == Some(true_bytes())
}

/// A text header: present and readable as text, or nothing.
pub open spec fn header_text(hs: Seq<RawHeader>, name: Seq<char>) -> Option<Seq<char>> {
    match header_lookup(hs, name) {
        Some(b) => if is_header_text(b) {
            Some(ascii_chars(b))
        } else {
            None
        },
        None => None,
    }
}

/// A URI header: present, readable as text and a URI, or nothing.
pub open spec fn header_uri(hs: Seq<RawHeader>, name: Seq<char>) -> Option<Seq<char>> {
    match header_text(hs, name) {
        Some(t) => uri_text(t),
        None => None,
    }
}

/// Finds the value of the first header with the given name, ignoring ASCII case.
pub fn find_header<'a>(hs: &'a [RawHeader], name: &str) -> (r: Option<&'a Vec<u8>>)
    ensures
        match r {
            Some(v) => header_lookup(hs@, name@) == Some(v@),
            None => header_lookup(hs@, name@) is None,
        },
{
    let n = hs.len();
    let mut i: usize = 0;
    assert(hs@.subrange(0, n as int) =~= hs@);
    while i < n
        invariant
            n == hs@.len(),
            i <= n,
            header_lookup(hs@, name@) == header_lookup(hs@.subrange(i as int, n as int), name@),
        decreases n - i,
    {
        let ghost rest = hs@.subrange(i as int, n as int);
        assert(rest[0] == hs@[i as int]);
        if names_equal(hs[i].name.as_str(), name) {
            return Some(&hs[i].value);
        }
        assert(rest.drop_first() =~= hs@.subrange(i + 1, n as int));
        i = i + 1;
    }
    None
}

/// Reads a flag header: `true` exactly when the header is present with the
/// value `true`, case included. Absent, `True`, `1` or empty all give `false`.
pub fn extract_header_bool(hs: &[RawHeader], header_name: &str) -> (r: bool)
    ensures
        r == header_flag(hs@, header_name@),
{
    match find_header(hs, header_name) {
        Some(v) => {
            let ok = v.len() == 4 && v[0] == 116u8 && v[1] == 114u8 && v[2] == 117u8 && v[3] == 101u8;
            assert(ok ==> v@ =~= true_bytes());
            ok
        },
        None => false,
    }
}

/// Reads a text header: `Some` with its text when it is present and readable
/// as text, else `None`.
pub fn extract_header_string(hs: &[RawHeader], header_name: &str) -> (r: Option<String>)
    ensures
        opt_text(r) == header_text(hs@, header_name@),
{
    match find_header(hs, header_name) {
        Some(v) => header_bytes_text(v.as_slice()),
        None => None,
    }
}

/// Reads the `HX-Current-URL` header: `Some` when it is present, readable
/// as text and a URI, else `None`.
pub fn extract_current_url(hs: &[RawHeader]) -> (r: Option<Url>)
    ensures
        match r {
            Some(u) => header_uri(hs@, HX_CURRENT_URL@) == Some(u@),
            None => header_uri(hs@, HX_CURRENT_URL@) is None,
        },
{
    match extract_header_string(hs, HX_CURRENT_URL) {
        Some(t) => match Url::parse(t.as_str()) {
            Ok(u) => Some(u),
            Err(_) => None,
        },
        None => None,
    }
}


/// The `HX-Boosted` header: set on requests from an element under `hx-boost`.
#[derive(Debug, Clone, Copy)]
pub struct HxBoosted(pub bool);

impl HxBoosted {
    /// Reads the header; absent or not `true` gives `false`.
    pub fn from_headers(hs: &[RawHeader]) -> (r: Self)
        ensures
            r.0 == header_flag(hs@, HX_BOOSTED@),
    {
        HxBoosted(extract_header_bool(hs, HX_BOOSTED))
    }
}

/// The `HX-Current-URL` header: the browser's current URL.
#[derive(Debug, Clone)]
pub struct HxCurrentUrl(pub Option<Url>);

impl HxCurrentUrl {
    /// Reads the header; absent, not text or not a URI gives `None`.
    pub fn from_headers(hs: &[RawHeader]) -> (r: Self)
        ensures
            match r.0 {
                Some(u) => header_uri(hs@, HX_CURRENT_URL@) == Some(u@),
                None => header_uri(hs@, HX_CURRENT_URL@) is None,
            },
    {
        HxCurrentUrl(extract_current_url(hs))
    }
}

/// The `HX-History-Restore-Request` header.
#[derive(Debug, Clone, Copy)]
pub struct HxHistoryRestoreRequest(pub bool);

impl HxHistoryRestoreRequest {
    /// Reads the header; absent or not `true` gives `false`.
    pub fn from_headers(hs: &[RawHeader]) -> (r: Self)
        ensures
            r.0 == header_flag(hs@, HX_HISTORY_RESTORE_REQUEST@),
    {
        HxHistoryRestoreRequest(extract_header_bool(hs, HX_HISTORY_RESTORE_REQUEST))
    }
}

/// The `HX-Prompt` header: what the user typed into an `hx-prompt` dialog.
#[derive(Debug, Clone)]
pub struct HxPrompt(pub Option<String>);

impl HxPrompt {
    /// Reads the header; absent or not text gives `None`.
    pub fn from_headers(hs: &[RawHeader]) -> (r: Self)
        ensures
            opt_text(r.0) == header_text(hs@, HX_PROMPT@),
    {
        HxPrompt(extract_header_string(hs, HX_PROMPT))
    }
}

/// The `HX-Request` header: set on every request that htmx makes.
#[derive(Debug, Clone, Copy)]
pub struct HxRequest(pub bool);

impl HxRequest {
    /// Reads the header; absent or not `true` gives `false`.
    pub fn from_headers(hs: &[RawHeader]) -> (r: Self)
        ensures
            r.0 == header_flag(hs@, HX_REQUEST@),
    {
        HxRequest(extract_header_bool(hs, HX_REQUEST))
    }
}

/// The `HX-Target` header: the id of the target element.
#[derive(Debug, Clone)]
pub struct HxTarget(pub Option<String>);

impl HxTarget {
    /// Reads the header; absent or not text gives `None`.
    pub fn from_headers(hs: &[RawHeader]) -> (r: Self)
        ensures
            opt_text(r.0) == header_text(hs@, HX_TARGET@),
    {
        HxTarget(extract_header_string(hs, HX_TARGET))
    }
}

/// The `HX-Trigger-Name` header: the name of the triggering element.
#[derive(Debug, Clone)]
pub struct HxTriggerName(pub Option<String>);

impl HxTriggerName {
    /// Reads the header; absent or not text gives `None`.
    pub fn from_headers(hs: &[RawHeader]) -> (r: Self)
        ensures
            opt_text(r.0) == header_text(hs@, HX_TRIGGER_NAME@),
    {
        HxTriggerName(extract_header_string(hs, HX_TRIGGER_NAME))
    }
}

/// The `HX-Trigger` request header: the id of the triggering element.
#[derive(Debug, Clone)]
pub struct HxTrigger(pub Option<String>);

impl HxTrigger {
    /// Reads the header; absent or not text gives `None`.
    pub fn from_headers(hs: &[RawHeader]) -> (r: Self)
        ensures
            opt_text(r.0) == header_text(hs@, HX_TRIGGER@),
    {
        HxTrigger(extract_header_string(hs, HX_TRIGGER))
    }
}

} // verus!
