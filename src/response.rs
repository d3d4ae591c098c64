//! Values of the htmx response headers and the text each is sent as.
use vstd::prelude::*;
use vstd::string::*;

use crate::error::HxError;
use crate::headers::{HX_TRIGGER, HX_TRIGGER_AFTER_SETTLE, HX_TRIGGER_AFTER_SWAP};
use crate::text::{check_json, is_json, json_quote, json_quoted, parse_uri, uri_text};

verus! {

/// The view of an optional text.
pub open spec fn opt_text(o: Option<String>) -> Option<Seq<char>> {
    match o {
        Some(t) => Some(t@),
        None => None,
    }
}

/// A URI, held as the text that `http` writes back for it.
#[derive(Debug, Clone)]
pub struct Url {
    text: String,
}

impl View for Url {
    type V = Seq<char>;

    closed spec fn view(&self) -> Seq<char> {
        self.text@
    }
}

impl Url {
    /// Parses a URI. Fails with [`HxError::InvalidUri`] exactly where `http`
    /// refuses the text.
    pub fn parse(s: &str) -> (r: Result<Url, HxError>)
        ensures
            match r {
                Ok(u) => uri_text(s@) == Some(u@),
                Err(e) => uri_text(s@) is None && e == HxError::InvalidUri,
            },
    {
        match parse_uri(s) {
            Some(text) => Ok(Url { text }),
            None => Err(HxError::InvalidUri),
        }
    }

    /// The URI as text.
    pub fn as_str(&self) -> (r: &str)
        ensures
            r@ == self@,
    {
        self.text.as_str()
    }
}

/// How the client swaps the response into the page.
#[derive(Debug, Clone, Copy, PartialEq, Eq, Structural)]
pub enum SwapOption {
    /// Replace the inner HTML of the target.
    InnerHtml,
    /// Replace the whole target element.
    OuterHtml,
    /// Insert before the target.
    BeforeBegin,
    /// Insert before the first child of the target.
    AfterBegin,
    /// Insert after the last child of the target.
    BeforeEnd,
    /// Insert after the target.
    AfterEnd,
    /// Delete the target, whatever the response holds.
    Delete,
    /// Do not swap.
    NoSwap,
}

impl SwapOption {
    /// The token htmx reads for this strategy.
    pub open spec fn token(self) -> Seq<char> {
        match self {
            SwapOption::InnerHtml => "innerHTML"@,
            SwapOption::OuterHtml => "outerHTML"@,
            SwapOption::BeforeBegin => "beforebegin"@,
            SwapOption::AfterBegin => "afterbegin"@,
            SwapOption::BeforeEnd => "beforeend"@,
            SwapOption::AfterEnd => "afterend"@,
            SwapOption::Delete => "delete"@,
            SwapOption::NoSwap => "none"@,
        }
    }

    /// The token htmx reads for this strategy.
    pub fn as_str(&self) -> (r: &'static str)
        ensures
            r@ == self.token(),
    {
        match self {
            SwapOption::InnerHtml => "innerHTML",
            SwapOption::OuterHtml => "outerHTML",
            SwapOption::BeforeBegin => "beforebegin",
            SwapOption::AfterBegin => "afterbegin",
            SwapOption::BeforeEnd => "beforeend",
            SwapOption::AfterEnd => "afterend",
            SwapOption::Delete => "delete",
            SwapOption::NoSwap => "none",
        }
    }
}

/// A field of a JSON object whose value is a quoted text, or nothing.
pub open spec fn quoted_field(key: Seq<char>, v: Option<Seq<char>>) -> Seq<char> {
    match v {
        Some(t) => key + json_quoted(t),
        None => Seq::empty(),
    }
}

/// A field of a JSON object whose value is JSON text, or nothing.
pub open spec fn raw_field(key: Seq<char>, v: Option<Seq<char>>) -> Seq<char> {
    match v {
        Some(t) => key + t,
        None => Seq::empty(),
    }
}

/// The `HX-Location` header: a path, with optional swap settings.
#[derive(Debug, Clone)]
pub struct HxLocation {
    /// Where the client goes.
    pub path: String,
    /// Selector of the element to swap into.
    pub target: Option<String>,
    /// How to swap.
    pub swap: Option<SwapOption>,
    /// JSON values to submit with the request.
    pub values: Option<String>,
    /// JSON object of headers to submit with the request.
    pub headers: Option<String>,
    /// Selector of the part of the response to swap in.
    pub select: Option<String>,
}

impl HxLocation {
    /// Whether any option beside the path is set.
    pub open spec fn has_options(self) -> bool {
        self.target is Some || self.swap is Some || self.values is Some || self.headers is Some
            || self.select is Some
    }

    /// The text sent: the bare path without options, else a JSON object with
    /// the path and exactly the options that are set.
    pub open spec fn wire(self) -> Seq<char> {
        if !self.has_options() {
            self.path@
        } else {
            "{\"path\":"@ + json_quoted(self.path@) + quoted_field(",\"target\":"@, opt_text(self.target))
                + quoted_field(
                ",\"swap\":"@,
                match self.swap {
                    Some(s) => Some(s.token()),
                    None => None,
                },
            ) + raw_field(",\"values\":"@, opt_text(self.values)) + raw_field(
                ",\"headers\":"@,
                opt_text(self.headers),
            ) + quoted_field(",\"select\":"@, opt_text(self.select)) + "}"@
        }
    }

    /// The JSON texts it holds are JSON.
    pub open spec fn wf(self) -> bool {
        (self.values matches Some(v) ==> is_json(v@)) && (self.headers matches Some(h) ==> is_json(h@))
    }

    /// A location with a path and no options.
    pub fn from_path(path: String) -> (r: HxLocation)
        ensures
            r.path == path,
            !r.has_options(),
    {
        HxLocation { path, target: None, swap: None, values: None, headers: None, select: None }
    }

    /// The location with a target selector.
    pub fn with_target(self, target: String) -> (r: HxLocation)
        ensures
            r == (HxLocation { target: Some(target), ..self }),
    {
        HxLocation { target: Some(target), ..self }
    }

    /// The location with a swap strategy.
    pub fn with_swap(self, swap: SwapOption) -> (r: HxLocation)
        ensures
            r == (HxLocation { swap: Some(swap), ..self }),
    {
        HxLocation { swap: Some(swap), ..self }
    }

    /// The location with JSON values to submit. Fails with
    /// [`HxError::InvalidJson`] exactly where `values` is not JSON.
    pub fn with_values(self, values: String) -> (r: Result<HxLocation, HxError>)
        ensures
            match r {
                Ok(l) => is_json(values@) && l == (HxLocation { values: Some(values), ..self }),
                Err(e) => !is_json(values@) && e == HxError::InvalidJson,
            },
    {
        if check_json(values.as_str()) {
            Ok(HxLocation { values: Some(values), ..self })
        } else {
            Err(HxError::InvalidJson)
        }
    }

    /// The location with a JSON object of headers to submit. Fails with
    /// [`HxError::InvalidJson`] exactly where `headers` is not JSON.
    pub fn with_headers(self, headers: String) -> (r: Result<HxLocation, HxError>)
        ensures
            match r {
                Ok(l) => is_json(headers@) && l == (HxLocation { headers: Some(headers), ..self }),
                Err(e) => !is_json(headers@) && e == HxError::InvalidJson,
            },
    {
        if check_json(headers.as_str()) {
            Ok(HxLocation { headers: Some(headers), ..self })
        } else {
            Err(HxError::InvalidJson)
        }
    }

    /// The location with a selector for the part of the response to swap in.
    pub fn with_select(self, select: String) -> (r: HxLocation)
        ensures
            r == (HxLocation { select: Some(select), ..self }),
    {
        HxLocation { select: Some(select), ..self }
    }

    /// Writes the text sent in the header.
    pub fn to_header_value(&self) -> (r: String)
        ensures
            r@ == self.wire(),
    {
        if self.target.is_none() && self.swap.is_none() && self.values.is_none()
            && self.headers.is_none() && self.select.is_none() {
            return self.path.clone();
        }
        let mut s = String::from_str("{\"path\":");
        let p = json_quote(self.path.as_str());
        s.append(p.as_str());
        let ghost s0 = s@;
        match &self.target {
            Some(t) => {
                s.append(",\"target\":");
                let q = json_quote(t.as_str());
                s.append(q.as_str());
            },
            None => {},
        }
        assert(s@ =~= s0 + quoted_field(",\"target\":"@, opt_text(self.target)));
        let ghost s1 = s@;
        match &self.swap {
            Some(o) => {
                s.append(",\"swap\":");
                let q = json_quote(o.as_str());
                s.append(q.as_str());
            },
            None => {},
        }
        assert(s@ =~= s1 + quoted_field(
            ",\"swap\":"@,
            match self.swap {
                Some(o) => Some(o.token()),
                None => None,
            },
        ));
        let ghost s2 = s@;
        match &self.values {
            Some(v) => {
                s.append(",\"values\":");
                s.append(v.as_str());
            },
            None => {},
        }
        assert(s@ =~= s2 + raw_field(",\"values\":"@, opt_text(self.values)));
        let ghost s3 = s@;
        match &self.headers {
            Some(h) => {
                s.append(",\"headers\":");
                s.append(h.as_str());
            },
            None => {},
        }
        assert(s@ =~= s3 + raw_field(",\"headers\":"@, opt_text(self.headers)));
        let ghost s4 = s@;
        match &self.select {
            Some(t) => {
                s.append(",\"select\":");
                let q = json_quote(t.as_str());
                s.append(q.as_str());
            },
            None => {},
        }
        assert(s@ =~= s4 + quoted_field(",\"select\":"@, opt_text(self.select)));
        s.append("}");
        s
    }
}

/// The `HX-Push-Url` header: a URL pushed onto the history stack.
#[derive(Debug, Clone)]
pub struct HxPushUrl(pub Url);

/// The `HX-Redirect` header: a URL the client goes to.
#[derive(Debug, Clone)]
pub struct HxRedirect(pub Url);

/// The `HX-Refresh` header: whether the client reloads the page.
#[derive(Debug, Clone, Copy)]
pub struct HxRefresh(pub bool);

/// The `HX-Replace-Url` header: a URL that replaces the current one.
#[derive(Debug, Clone)]
pub struct HxReplaceUrl(pub Url);

/// The `HX-Reswap` header: how the response is swapped in.
#[derive(Debug, Clone, Copy)]
pub struct HxReswap(pub SwapOption);

/// The `HX-Retarget` header: a selector for a new swap target.
#[derive(Debug, Clone)]
pub struct HxRetarget(pub String);

/// The `HX-Reselect` header: a selector for the part of the response to swap in.
#[derive(Debug, Clone)]
pub struct HxReselect(pub String);

/// A client-side event, with an optional JSON payload.
#[derive(Debug, Clone)]
pub struct HxEvent {
    /// The name of the event.
    pub name: String,
    /// The payload, as JSON text.
    pub data: Option<String>,
}

impl HxEvent {
    /// An event without payload.
    pub fn new(name: String) -> (r: HxEvent)
        ensures
            r.name == name,
            r.data is None,
    {
        HxEvent { name, data: None }
    }

    /// An event with a JSON payload. Fails with [`HxError::InvalidJson`]
    /// exactly where the payload is not JSON.
    pub fn new_with_data(name: String, data: String) -> (r: Result<HxEvent, HxError>)
        ensures
            match r {
                Ok(e) => is_json(data@) && e.name == name && e.data == Some(data),
                Err(err) => !is_json(data@) && err == HxError::InvalidJson,
            },
    {
        if check_json(data.as_str()) {
            Ok(HxEvent { name, data: Some(data) })
        } else {
            Err(HxError::InvalidJson)
        }
    }

    /// The event as a member of a JSON object: its quoted name, a colon and
    /// its payload, or `null`.
    pub open spec fn member(self) -> Seq<char> {
        json_quoted(self.name@) + ":"@ + match self.data {
            Some(d) => d@,
            None => "null"@,
        }
    }
}

/// When the client fires the events.
#[derive(Debug, Clone, Copy, PartialEq, Eq, Structural)]
pub enum TriggerMode {
    /// As soon as the response is received.
    Normal,
    /// After the settle step.
    AfterSettle,
    /// After the swap step.
    AfterSwap,
}

impl TriggerMode {
    /// The header that carries events of this timing.
    pub open spec fn header_name(self) -> Seq<char> {
        match self {
            TriggerMode::Normal => HX_TRIGGER@,
            TriggerMode::AfterSettle => HX_TRIGGER_AFTER_SETTLE@,
            TriggerMode::AfterSwap => HX_TRIGGER_AFTER_SWAP@,
        }
    }

    /// The header that carries events of this timing.
    pub fn header(&self) -> (r: &'static str)
        ensures
            r@ == self.header_name(),
    {
        match self {
            TriggerMode::Normal => HX_TRIGGER,
            TriggerMode::AfterSettle => HX_TRIGGER_AFTER_SETTLE,
            TriggerMode::AfterSwap => HX_TRIGGER_AFTER_SWAP,
        }
    }
}

/// Whether some event carries a payload.
pub open spec fn any_data(evs: Seq<HxEvent>) -> bool {
    exists|i: int| 0 <= i < evs.len() && (#[trigger] evs[i]).data is Some
}

/// The names of the events, separated by a comma and a space.
pub open spec fn joined_names(evs: Seq<HxEvent>) -> Seq<char>
    decreases evs.len(),
{
    if evs.len() == 0 {
        Seq::empty()
    } else if evs.len() == 1 {
        evs[0].name@
    } else {
        joined_names(evs.drop_last()) + ", "@ + evs.last().name@
    }
}

/// The events as JSON object members, separated by commas.
pub open spec fn joined_members(evs: Seq<HxEvent>) -> Seq<char>
    decreases evs.len(),
{
    if evs.len() == 0 {
        Seq::empty()
    } else if evs.len() == 1 {
        evs[0].member()
    } else {
        joined_members(evs.drop_last()) + ","@ + evs.last().member()
    }
}

/// The `HX-Trigger`, `HX-Trigger-After-Settle` or `HX-Trigger-After-Swap`
/// header: events that the client fires.
#[derive(Debug, Clone)]
pub struct HxResponseTrigger {
    /// When the events fire; picks the header.
    pub mode: TriggerMode,
    /// The events, in order.
    pub events: Vec<HxEvent>,
}

impl HxResponseTrigger {
    /// The text sent: the bare names where no event has a payload, else a
    /// JSON object from names to payloads.
    pub open spec fn wire(self) -> Seq<char> {
        if any_data(self.events@) {
            "{"@ + joined_members(self.events@) + "}"@
        } else {
            joined_names(self.events@)
        }
    }

    /// Events that fire at the given time.
    pub fn new(mode: TriggerMode, events: Vec<HxEvent>) -> (r: HxResponseTrigger)
        ensures
            r.mode == mode,
            r.events == events,
    {
        HxResponseTrigger { mode, events }
    }

    /// Writes the text sent in the header.
    pub fn to_header_value(&self) -> (r: String)
        ensures
            r@ == self.wire(),
    {
        let n = self.events.len();
        let mut has_data = false;
        let mut i: usize = 0;
        while i < n
            invariant
                n == self.events@.len(),
                i <= n,
                has_data == exists|j: int| 0 <= j < i && (#[trigger] self.events@[j]).data is Some,
            decreases n - i,
        {
            if self.events[i].data.is_some() {
                has_data = true;
            }
            i = i + 1;
        }
        let mut s = String::new();
        i = 0;
        if has_data {
            while i < n
                invariant
                    n == self.events@.len(),
                    i <= n,
                    s@ == joined_members(self.events@.subrange(0, i as int)),
                decreases n - i,
            {
                let e = &self.events[i];
                if i > 0 {
                    s.append(",");
                }
                let q = json_quote(e.name.as_str());
                s.append(q.as_str());
                s.append(":");
                match &e.data {
                    Some(d) => s.append(d.as_str()),
                    None => s.append("null"),
                }
                let ghost sub = self.events@.subrange(0, i + 1);
                assert(sub.drop_last() =~= self.events@.subrange(0, i as int));
                i = i + 1;
            }
            assert(self.events@.subrange(0, n as int) =~= self.events@);
            let mut r = String::from_str("{");
            r.append(s.as_str());
            r.append("}");
            r
        } else {
            while i < n
                invariant
                    n == self.events@.len(),
                    i <= n,
                    s@ == joined_names(self.events@.subrange(0, i as int)),
                decreases n - i,
            {
                if i > 0 {
                    s.append(", ");
                }
                s.append(self.events[i].name.as_str());
                let ghost sub = self.events@.subrange(0, i + 1);
                assert(sub.drop_last() =~= self.events@.subrange(0, i as int));
                i = i + 1;
            }
            assert(self.events@.subrange(0, n as int) =~= self.events@);
            s
        }
    }
}

/// A location without options is sent as its bare path; with any option it
/// is sent as a JSON object that opens with its path field.
pub proof fn lemma_location_forms(l: HxLocation)
    ensures
        !l.has_options() ==> l.wire() == l.path@,
        l.has_options() ==> l.wire().first() == '{' && l.wire().last() == '}',
        l.has_options() ==> l.wire().subrange(0, 8) == "{\"path\":"@,
{
    reveal_strlit("{\"path\":");
    reveal_strlit("}");
    if l.has_options() {
        let w = l.wire();
        let head = "{\"path\":"@;
        assert(w =~= head + (w.subrange(8, w.len() as int)));
        assert(w.subrange(0, 8) =~= head);
    }
}

} // verus!
