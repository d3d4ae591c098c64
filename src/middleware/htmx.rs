//! The per-request buffer of htmx response headers.
//!
//! The middleware makes one [`ResponseHeaders`] handle per request and hands
//! a clone to the handler. The handler queues header values through it; when
//! the handler's response is ready, the middleware drains the buffer and
//! writes what it held onto the response, in a fixed order.
use std::sync::Arc;

use vstd::prelude::*;
use vstd::rwlock::{RwLock, RwLockPredicate};

use crate::error::HxError;
use crate::extract::{
    extract_current_url, extract_header_bool, extract_header_string, header_flag, header_text,
    header_uri, RawHeader,
};
use crate::headers::{
    HX_BOOSTED, HX_CURRENT_URL, HX_HISTORY_RESTORE_REQUEST, HX_LOCATION, HX_PROMPT, HX_PUSH_URL,
    HX_REDIRECT, HX_REFRESH, HX_REPLACE_URL, HX_RESELECT, HX_RESWAP, HX_RETARGET, HX_TARGET,
    HX_TRIGGER, HX_TRIGGER_AFTER_SETTLE, HX_TRIGGER_AFTER_SWAP, HX_TRIGGER_NAME,
};
use crate::response::{
    opt_text, HxLocation, HxPushUrl, HxRedirect, HxRefresh, HxReplaceUrl, HxReselect,
    HxResponseTrigger, HxReswap, HxRetarget, TriggerMode, Url,
};
use crate::text::{check_header_value, is_header_value};

verus! {

/// The htmx request headers of one request, read once before the handler runs.
#[derive(Debug, Clone)]
pub struct RequestHeaders {
    /// `HX-Boosted`.
    pub boosted: bool,
    /// `HX-Current-URL`.
    pub current_url: Option<Url>,
    /// `HX-History-Restore-Request`.
    pub history_restore: bool,
    /// `HX-Prompt`.
    pub prompt: Option<String>,
    /// `HX-Target`.
    pub target: Option<String>,
    /// `HX-Trigger-Name`.
    pub trigger_name: Option<String>,
    /// `HX-Trigger`.
    pub trigger: Option<String>,
}

impl RequestHeaders {
    /// Reads every htmx request header. Never fails: each field falls back
    /// to `false` or `None`.
    pub fn from_headers(hs: &[RawHeader]) -> (r: Self)
        ensures
            r.boosted == header_flag(hs@, HX_BOOSTED@),
            match r.current_url {
                Some(u) => header_uri(hs@, HX_CURRENT_URL@) == Some(u@),
                None => header_uri(hs@, HX_CURRENT_URL@) is None,
            },
            r.history_restore == header_flag(hs@, HX_HISTORY_RESTORE_REQUEST@),
            opt_text(r.prompt) == header_text(hs@, HX_PROMPT@),
            opt_text(r.target) == header_text(hs@, HX_TARGET@),
            opt_text(r.trigger_name) == header_text(hs@, HX_TRIGGER_NAME@),
            opt_text(r.trigger) == header_text(hs@, HX_TRIGGER@),
    {
        RequestHeaders {
            boosted: extract_header_bool(hs, HX_BOOSTED),
            current_url: extract_current_url(hs),
            history_restore: extract_header_bool(hs, HX_HISTORY_RESTORE_REQUEST),
            prompt: extract_header_string(hs, HX_PROMPT),
            target: extract_header_string(hs, HX_TARGET),
            trigger_name: extract_header_string(hs, HX_TRIGGER_NAME),
            trigger: extract_header_string(hs, HX_TRIGGER),
        }
    }
}

/// The number of response header slots.
pub const SLOT_COUNT: usize = 9;

/// One value for one of the response header slots.
#[derive(Debug, Clone)]
pub enum PendingHeader {
    /// For `HX-Location`.
    Location(HxLocation),
    /// For `HX-Push-Url`.
    PushUrl(HxPushUrl),
    /// For `HX-Redirect`.
    Redirect(HxRedirect),
    /// For `HX-Refresh`.
    Refresh(HxRefresh),
    /// For `HX-Replace-Url`.
    ReplaceUrl(HxReplaceUrl),
    /// For `HX-Reswap`.
    Reswap(HxReswap),
    /// For `HX-Retarget`.
    Retarget(HxRetarget),
    /// For `HX-Reselect`.
    Reselect(HxReselect),
    /// For the `HX-Trigger` headers.
    Trigger(HxResponseTrigger),
}

impl PendingHeader {
    /// The slot the value goes to; slots are written in this order.
    pub open spec fn rank(self) -> int {
        match self {
            PendingHeader::Location(_) => 0,
            PendingHeader::PushUrl(_) => 1,
            PendingHeader::Redirect(_) => 2,
            PendingHeader::Refresh(_) => 3,
            PendingHeader::ReplaceUrl(_) => 4,
            PendingHeader::Reswap(_) => 5,
            PendingHeader::Retarget(_) => 6,
            PendingHeader::Reselect(_) => 7,
            PendingHeader::Trigger(_) => 8,
        }
    }

    /// The header name and text the value is sent as; nothing for a refresh
    /// of `false` or a trigger without events.
    pub open spec fn wire(self) -> Option<(Seq<char>, Seq<char>)> {
        match self {
            PendingHeader::Location(l) => Some((HX_LOCATION@, l.wire())),
            PendingHeader::PushUrl(u) => Some((HX_PUSH_URL@, u.0@)),
            PendingHeader::Redirect(u) => Some((HX_REDIRECT@, u.0@)),
            PendingHeader::Refresh(f) => if f.0 {
                Some((HX_REFRESH@, "true"@))
            } else {
                None
            },
            PendingHeader::ReplaceUrl(u) => Some((HX_REPLACE_URL@, u.0@)),
            PendingHeader::Reswap(s) => Some((HX_RESWAP@, s.0.token())),
            PendingHeader::Retarget(t) => Some((HX_RETARGET@, t.0@)),
            PendingHeader::Reselect(t) => Some((HX_RESELECT@, t.0@)),
            PendingHeader::Trigger(t) => if t.events@.len() > 0 {
                Some((t.mode.header_name(), t.wire()))
            } else {
                None
            },
        }
    }
}

/// A header ready to be written onto the response.
#[derive(Debug, Clone)]
pub struct WireHeader {
    /// The header's name.
    pub name: &'static str,
    /// The header's value.
    pub value: String,
}

/// The name and text of a header ready to be written.
pub open spec fn wire_view(h: WireHeader) -> (Seq<char>, Seq<char>) {
    (h.name@, h.value@)
}

/// The names and texts of a list of headers ready to be written.
pub open spec fn wire_views(hs: Seq<WireHeader>) -> Seq<(Seq<char>, Seq<char>)> {
    hs.map_values(|h: WireHeader| wire_view(h))
}

/// Every text may be sent as a header value.
pub open spec fn all_sendable(w: Seq<(Seq<char>, Seq<char>)>) -> bool {
    forall|i: int| 0 <= i < w.len() ==> is_header_value(#[trigger] w[i].1)
}

/// The response headers a handler has asked for, one optional slot per kind.
#[derive(Debug, Clone)]
pub struct PendingResponseHeaders {
    /// `HX-Location`.
    pub location: Option<HxLocation>,
    /// `HX-Push-Url`.
    pub push_url: Option<HxPushUrl>,
    /// `HX-Redirect`.
    pub redirect: Option<HxRedirect>,
    /// `HX-Refresh`.
    pub refresh: Option<HxRefresh>,
    /// `HX-Replace-Url`.
    pub replace_url: Option<HxReplaceUrl>,
    /// `HX-Reswap`.
    pub reswap: Option<HxReswap>,
    /// `HX-Retarget`.
    pub retarget: Option<HxRetarget>,
    /// `HX-Reselect`.
    pub reselect: Option<HxReselect>,
    /// `HX-Trigger`, `HX-Trigger-After-Settle` or `HX-Trigger-After-Swap`.
    pub trigger: Option<HxResponseTrigger>,
}

impl PendingResponseHeaders {
    /// No slot is set.
    pub open spec fn is_empty(self) -> bool {
        self.location is None && self.push_url is None && self.redirect is None
            && self.refresh is None && self.replace_url is None && self.reswap is None
            && self.retarget is None && self.reselect is None && self.trigger is None
    }

    /// The value in the slot of rank `k`.
    pub open spec fn slot(self, k: int) -> Option<PendingHeader> {
        if k == 0 {
            match self.location { Some(v) => Some(PendingHeader::Location(v)), None => None }
        } else if k == 1 {
            match self.push_url { Some(v) => Some(PendingHeader::PushUrl(v)), None => None }
        } else if k == 2 {
            match self.redirect { Some(v) => Some(PendingHeader::Redirect(v)), None => None }
        } else if k == 3 {
            match self.refresh { Some(v) => Some(PendingHeader::Refresh(v)), None => None }
        } else if k == 4 {
            match self.replace_url { Some(v) => Some(PendingHeader::ReplaceUrl(v)), None => None }
        } else if k == 5 {
            match self.reswap { Some(v) => Some(PendingHeader::Reswap(v)), None => None }
        } else if k == 6 {
            match self.retarget { Some(v) => Some(PendingHeader::Retarget(v)), None => None }
        } else if k == 7 {
            match self.reselect { Some(v) => Some(PendingHeader::Reselect(v)), None => None }
        } else if k == 8 {
            match self.trigger { Some(v) => Some(PendingHeader::Trigger(v)), None => None }
        } else {
            None
        }
    }

    /// The record with `h` in its slot, the other slots unchanged.
    pub open spec fn with(self, h: PendingHeader) -> Self {
        match h {
            PendingHeader::Location(v) => PendingResponseHeaders { location: Some(v), ..self },
            PendingHeader::PushUrl(v) => PendingResponseHeaders { push_url: Some(v), ..self },
            PendingHeader::Redirect(v) => PendingResponseHeaders { redirect: Some(v), ..self },
            PendingHeader::Refresh(v) => PendingResponseHeaders { refresh: Some(v), ..self },
            PendingHeader::ReplaceUrl(v) => PendingResponseHeaders { replace_url: Some(v), ..self },
            PendingHeader::Reswap(v) => PendingResponseHeaders { reswap: Some(v), ..self },
            PendingHeader::Retarget(v) => PendingResponseHeaders { retarget: Some(v), ..self },
            PendingHeader::Reselect(v) => PendingResponseHeaders { reselect: Some(v), ..self },
            PendingHeader::Trigger(v) => PendingResponseHeaders { trigger: Some(v), ..self },
        }
    }

    /// What the slot of rank `k` is sent as, if anything.
    pub open spec fn slot_wire(self, k: int) -> Option<(Seq<char>, Seq<char>)> {
        match self.slot(k) {
            Some(h) => h.wire(),
            None => None,
        }
    }

    /// The headers sent for the slots of rank below `k`, in rank order.
    pub open spec fn wire_upto(self, k: nat) -> Seq<(Seq<char>, Seq<char>)>
        decreases k,
    {
        if k == 0 {
            Seq::empty()
        } else {
            let w = self.wire_upto((k - 1) as nat);
            match self.slot_wire(k - 1) {
                Some(e) => w.push(e),
                None => w,
            }
        }
    }

    /// The headers sent for the record, in the fixed order: location,
    /// push-url, redirect, refresh, replace-url, reswap, retarget, reselect,
    /// trigger.
    pub open spec fn wire(self) -> Seq<(Seq<char>, Seq<char>)> {
        self.wire_upto(SLOT_COUNT as nat)
    }

    /// `r` is what serializing the record gives: its headers when each may
    /// be sent, else an invalid-header-value error.
    pub open spec fn serialized_as(self, r: Result<Vec<WireHeader>, HxError>) -> bool {
        match r {
            Ok(v) => all_sendable(self.wire()) && wire_views(v@) == self.wire(),
            Err(e) => !all_sendable(self.wire()) && e == HxError::InvalidHeaderValue,
        }
    }

    /// A record with every slot empty.
    pub fn new() -> (r: Self)
        ensures
            r.is_empty(),
    {
        PendingResponseHeaders {
            location: None,
            push_url: None,
            redirect: None,
            refresh: None,
            replace_url: None,
            reswap: None,
            retarget: None,
            reselect: None,
            trigger: None,
        }
    }

    /// Puts `h` in its slot, replacing what was there.
    pub fn set(&mut self, h: PendingHeader)
        ensures
            *final(self) == old(self).with(h),
    {
        match h {
            PendingHeader::Location(v) => self.location = Some(v),
            PendingHeader::PushUrl(v) => self.push_url = Some(v),
            PendingHeader::Redirect(v) => self.redirect = Some(v),
            PendingHeader::Refresh(v) => self.refresh = Some(v),
            PendingHeader::ReplaceUrl(v) => self.replace_url = Some(v),
            PendingHeader::Reswap(v) => self.reswap = Some(v),
            PendingHeader::Retarget(v) => self.retarget = Some(v),
            PendingHeader::Reselect(v) => self.reselect = Some(v),
            PendingHeader::Trigger(v) => self.trigger = Some(v),
        }
    }

    /// The header the slot of rank `k` is sent as, if anything.
    fn slot_header(&self, k: usize) -> (r: Option<WireHeader>)
        requires
            k < SLOT_COUNT,
        ensures
            match r {
                Some(h) => self.slot_wire(k as int) == Some(wire_view(h)),
                None => self.slot_wire(k as int) is None,
            },
    {
        if k == 0 {
            match &self.location {
                Some(l) => Some(WireHeader { name: HX_LOCATION, value: l.to_header_value() }),
                None => None,
            }
        } else if k == 1 {
            match &self.push_url {
                Some(u) => Some(WireHeader { name: HX_PUSH_URL, value: u.0.as_str().to_owned() }),
                None => None,
            }
        } else if k == 2 {
            match &self.redirect {
                Some(u) => Some(WireHeader { name: HX_REDIRECT, value: u.0.as_str().to_owned() }),
                None => None,
            }
        } else if k == 3 {
            match &self.refresh {
                Some(f) => if f.0 {
                    Some(WireHeader { name: HX_REFRESH, value: String::from_str("true") })
                } else {
                    None
                },
                None => None,
            }
        } else if k == 4 {
            match &self.replace_url {
                Some(u) => Some(WireHeader { name: HX_REPLACE_URL, value: u.0.as_str().to_owned() }),
                None => None,
            }
        } else if k == 5 {
            match &self.reswap {
                Some(s) => Some(WireHeader { name: HX_RESWAP, value: s.0.as_str().to_owned() }),
                None => None,
            }
        } else if k == 6 {
            match &self.retarget {
                Some(t) => Some(WireHeader { name: HX_RETARGET, value: t.0.clone() }),
                None => None,
            }
        } else if k == 7 {
            match &self.reselect {
                Some(t) => Some(WireHeader { name: HX_RESELECT, value: t.0.clone() }),
                None => None,
            }
        } else {
            match &self.trigger {
                Some(t) => if t.events.len() > 0 {
                    Some(WireHeader { name: t.mode.header(), value: t.to_header_value() })
                } else {
                    None
                },
                None => None,
            }
        }
    }

    /// Writes the record as headers, in the fixed order. Fails with
    /// [`HxError::InvalidHeaderValue`] exactly when some text may not be sent
    /// as a header value.
    pub fn serialize(&self) -> (r: Result<Vec<WireHeader>, HxError>)
        ensures
            self.serialized_as(r),
    {
        let mut out: Vec<WireHeader> = Vec::new();
        let mut k: usize = 0;
        assert(wire_views(out@) =~= self.wire_upto(0));
        while k < SLOT_COUNT
            invariant
                k <= SLOT_COUNT,
                wire_views(out@) == self.wire_upto(k as nat),
                all_sendable(self.wire_upto(k as nat)),
            decreases SLOT_COUNT - k,
        {
            match self.slot_header(k) {
                Some(h) => {
                    let ok = check_header_value(h.value.as_str());
                    if !ok {
                        proof {
                            self.lemma_wire_prefix((k + 1) as nat, SLOT_COUNT as nat);
                            let w = self.wire_upto((k + 1) as nat);
                            assert(w[w.len() - 1] == wire_view(h));
                            assert(w =~= self.wire_upto(k as nat).push(wire_view(h)));
                            assert(self.wire()[w.len() - 1] == w[w.len() - 1]);
                            assert(!is_header_value(self.wire()[w.len() - 1].1));
                        }
                        return Err(HxError::InvalidHeaderValue);
                    }
                    out.push(h);
                    assert(wire_views(out@) =~= self.wire_upto((k + 1) as nat));
                },
                None => {},
            }
            k = k + 1;
        }
        Ok(out)
    }

    /// The headers for the slots below `j` come first among those below `k`.
    proof fn lemma_wire_prefix(self, j: nat, k: nat)
        requires
            j <= k,
        ensures
            self.wire_upto(j).len() <= self.wire_upto(k).len(),
            forall|i: int| 0 <= i < self.wire_upto(j).len() ==> #[trigger] self.wire_upto(k)[i] == self.wire_upto(j)[i],
        decreases k - j,
    {
        if j < k {
            self.lemma_wire_prefix(j, (k - 1) as nat);
        }
    }
}

/// The lock holds any record; each replacement of a slot happens in one
/// exclusive section, so no one sees a record half updated.
pub struct AnyPending;

impl RwLockPredicate<PendingResponseHeaders> for AnyPending {
    open spec fn inv(self, v: PendingResponseHeaders) -> bool {
        true
    }
}

/// The handle a handler uses to queue htmx response headers. Clones share
/// one buffer; every access takes the buffer's one exclusive lock.
#[derive(Clone)]
pub struct ResponseHeaders {
    inner: Arc<RwLock<PendingResponseHeaders, AnyPending>>,
}

impl ResponseHeaders {
    /// A handle to a new, empty buffer.
    pub fn new() -> (r: Self) {
        let lock = RwLock::new(PendingResponseHeaders::new(), Ghost(AnyPending));
        ResponseHeaders { inner: Arc::new(lock) }
    }

    /// Puts `h` in its slot under the lock, replacing what was there; the
    /// last write to a slot wins.
    pub fn set(&self, h: PendingHeader) {
        let (mut pending, handle) = self.inner.acquire_write();
        pending.set(h);
        handle.release_write(pending);
    }

    /// Sets `HX-Location`.
    pub fn set_location(&self, location: HxLocation) -> (r: &Self)
        ensures
            r == self,
    {
        self.set(PendingHeader::Location(location));
        self
    }

    /// Sets `HX-Push-Url`.
    pub fn set_push_url(&self, push_url: HxPushUrl) -> (r: &Self)
        ensures
            r == self,
    {
        self.set(PendingHeader::PushUrl(push_url));
        self
    }

    /// Sets `HX-Redirect`.
    pub fn set_redirect(&self, redirect: HxRedirect) -> (r: &Self)
        ensures
            r == self,
    {
        self.set(PendingHeader::Redirect(redirect));
        self
    }

    /// Sets `HX-Refresh`.
    pub fn set_refresh(&self, refresh: HxRefresh) -> (r: &Self)
        ensures
            r == self,
    {
        self.set(PendingHeader::Refresh(refresh));
        self
    }

    /// Sets `HX-Replace-Url`.
    pub fn set_replace_url(&self, replace_url: HxReplaceUrl) -> (r: &Self)
        ensures
            r == self,
    {
        self.set(PendingHeader::ReplaceUrl(replace_url));
        self
    }

    /// Sets `HX-Reswap`.
    pub fn set_reswap(&self, reswap: HxReswap) -> (r: &Self)
        ensures
            r == self,
    {
        self.set(PendingHeader::Reswap(reswap));
        self
    }

    /// Sets `HX-Retarget`.
    pub fn set_retarget(&self, retarget: HxRetarget) -> (r: &Self)
        ensures
            r == self,
    {
        self.set(PendingHeader::Retarget(retarget));
        self
    }

    /// Sets `HX-Reselect`.
    pub fn set_reselect(&self, reselect: HxReselect) -> (r: &Self)
        ensures
            r == self,
    {
        self.set(PendingHeader::Reselect(reselect));
        self
    }

    /// Sets `HX-Trigger`, `HX-Trigger-After-Settle` or
    /// `HX-Trigger-After-Swap`, after the trigger's timing.
    pub fn set_trigger(&self, trigger: HxResponseTrigger) -> (r: &Self)
        ensures
            r == self,
    {
        self.set(PendingHeader::Trigger(trigger));
        self
    }

    /// Takes what the buffer holds, and leaves it empty.
    pub fn drain(&self) -> (r: PendingResponseHeaders) {
        let (pending, handle) = self.inner.acquire_write();
        handle.release_write(PendingResponseHeaders::new());
        pending
    }

    /// Drains the buffer and serializes what it held: the result is the
    /// serialization of the record that was drained, whatever other clones
    /// had put in it.
    pub fn finish(&self) -> (r: Result<Vec<WireHeader>, HxError>)
        ensures
            exists|p: PendingResponseHeaders| p.serialized_as(r),
    {
        let pending = self.drain();
        let r = pending.serialize();
        assert(pending.serialized_as(r));
        r
    }
}

/// What a handler gets from the middleware: the request headers, and the
/// handle to queue response headers.
pub struct Htmx {
    /// The request headers.
    pub req: RequestHeaders,
    /// The handle to set response headers.
    pub res: ResponseHeaders,
}

impl Htmx {
    /// Reads the request headers and pairs them with the request's handle.
    pub fn new(hs: &[RawHeader], res: ResponseHeaders) -> (r: Self)
        ensures
            r.res == res,
            r.req.boosted == header_flag(hs@, HX_BOOSTED@),
            match r.req.current_url {
                Some(u) => header_uri(hs@, HX_CURRENT_URL@) == Some(u@),
                None => header_uri(hs@, HX_CURRENT_URL@) is None,
            },
            r.req.history_restore == header_flag(hs@, HX_HISTORY_RESTORE_REQUEST@),
            opt_text(r.req.prompt) == header_text(hs@, HX_PROMPT@),
            opt_text(r.req.target) == header_text(hs@, HX_TARGET@),
            opt_text(r.req.trigger_name) == header_text(hs@, HX_TRIGGER_NAME@),
            opt_text(r.req.trigger) == header_text(hs@, HX_TRIGGER@),
    {
        Htmx { req: RequestHeaders::from_headers(hs), res }
    }
}

/// Applies the htmx middleware: a fresh header buffer for each request,
/// written onto the response once the handler is done.
#[derive(Debug, Clone, Copy, Default)]
pub struct HtmxLayer {}

impl HtmxLayer {
    /// The layer.
    pub fn new() -> (r: Self) {
        HtmxLayer {}
    }

    /// Puts the middleware in front of a service.
    pub fn layer<S>(&self, inner: S) -> (r: HtmxService<S>)
        ensures
            r.inner == inner,
    {
        HtmxService { inner }
    }
}

/// A service behind the htmx middleware.
#[derive(Debug, Clone)]
pub struct HtmxService<S> {
    /// The wrapped service.
    pub inner: S,
}

impl<S> HtmxService<S> {
    /// The buffer for one request: a fresh handle, of which the request
    /// carries a clone to the handler.
    pub fn begin(&self) -> (r: ResponseHeaders) {
        ResponseHeaders::new()
    }
}

/// A header that may or may not be sent, as a list of at most one.
pub open spec fn opt_seq(e: Option<(Seq<char>, Seq<char>)>) -> Seq<(Seq<char>, Seq<char>)> {
    match e {
        Some(x) => seq![x],
        None => Seq::empty(),
    }
}

/// Setting a value changes its own slot and no other.
pub proof fn lemma_slot_with(p: PendingResponseHeaders, h: PendingHeader, k: int)
    ensures
        p.with(h).slot(k) == if k == h.rank() {
            Some(h)
        } else {
            p.slot(k)
        },
{
}

/// Setting the same kind of response header twice keeps only the second
/// value: the record, and so what is sent, is as if only the second had
/// been set.
pub proof fn lemma_last_write_wins(p: PendingResponseHeaders, a: PendingHeader, b: PendingHeader)
    requires
        a.rank() == b.rank(),
    ensures
        p.with(a).with(b) == p.with(b),
        p.with(a).with(b).wire() == p.with(b).wire(),
{
    match a {
        PendingHeader::Location(_) => {},
        PendingHeader::PushUrl(_) => {},
        PendingHeader::Redirect(_) => {},
        PendingHeader::Refresh(_) => {},
        PendingHeader::ReplaceUrl(_) => {},
        PendingHeader::Reswap(_) => {},
        PendingHeader::Retarget(_) => {},
        PendingHeader::Reselect(_) => {},
        PendingHeader::Trigger(_) => {},
    }
}

/// Values of two different kinds both stay, in whichever order they were
/// set.
pub proof fn lemma_distinct_kinds_commute(p: PendingResponseHeaders, a: PendingHeader, b: PendingHeader)
    requires
        a.rank() != b.rank(),
    ensures
        p.with(a).with(b) == p.with(b).with(a),
        p.with(a).with(b).slot(a.rank()) == Some(a),
        p.with(a).with(b).slot(b.rank()) == Some(b),
{
    lemma_slot_with(p.with(a), b, a.rank());
    lemma_slot_with(p, a, a.rank());
    lemma_slot_with(p.with(a), b, b.rank());
    match a {
        PendingHeader::Location(_) => {},
        PendingHeader::PushUrl(_) => {},
        PendingHeader::Redirect(_) => {},
        PendingHeader::Refresh(_) => {},
        PendingHeader::ReplaceUrl(_) => {},
        PendingHeader::Reswap(_) => {},
        PendingHeader::Retarget(_) => {},
        PendingHeader::Reselect(_) => {},
        PendingHeader::Trigger(_) => {},
    }
}

proof fn lemma_empty_slots(p: PendingResponseHeaders, k: int)
    requires
        p.is_empty(),
    ensures
        p.slot(k) is None,
{
}

proof fn lemma_two_upto(p: PendingResponseHeaders, a: PendingHeader, b: PendingHeader, k: nat)
    requires
        p.is_empty(),
        a.rank() < b.rank(),
    ensures
        p.with(a).with(b).wire_upto(k) == (if a.rank() < k {
            opt_seq(a.wire())
        } else {
            Seq::empty()
        }) + (if b.rank() < k {
            opt_seq(b.wire())
        } else {
            Seq::empty()
        }),
    decreases k,
{
    let q = p.with(a).with(b);
    if k > 0 {
        lemma_two_upto(p, a, b, (k - 1) as nat);
        lemma_slot_with(p.with(a), b, k - 1);
        lemma_slot_with(p, a, k - 1);
        lemma_empty_slots(p, k - 1);
        let prev = q.wire_upto((k - 1) as nat);
        if k - 1 == a.rank() {
            assert(q.slot(k - 1) == Some(a));
        } else if k - 1 == b.rank() {
            assert(q.slot(k - 1) == Some(b));
        } else {
            assert(q.slot(k - 1) is None);
        }
        assert(q.wire_upto(k) =~= (if a.rank() < k {
            opt_seq(a.wire())
        } else {
            Seq::empty()
        }) + (if b.rank() < k {
            opt_seq(b.wire())
        } else {
            Seq::empty()
        }));
    } else {
        assert(q.wire_upto(0) =~= Seq::<(Seq<char>, Seq<char>)>::empty() + Seq::empty());
    }
}

/// Two headers of different kinds set on an empty buffer are both sent, in
/// the fixed order of their kinds, whichever was set first.
pub proof fn lemma_distinct_kinds_in_order(p: PendingResponseHeaders, a: PendingHeader, b: PendingHeader)
    requires
        p.is_empty(),
        a.rank() < b.rank(),
    ensures
        p.with(a).with(b).wire() == opt_seq(a.wire()) + opt_seq(b.wire()),
        p.with(b).with(a).wire() == opt_seq(a.wire()) + opt_seq(b.wire()),
{
    lemma_two_upto(p, a, b, SLOT_COUNT as nat);
    lemma_distinct_kinds_commute(p, a, b);
}

proof fn lemma_empty_upto(p: PendingResponseHeaders, k: nat)
    requires
        p.is_empty(),
    ensures
        p.wire_upto(k) == Seq::<(Seq<char>, Seq<char>)>::empty(),
    decreases k,
{
    if k > 0 {
        lemma_empty_upto(p, (k - 1) as nat);
        lemma_empty_slots(p, k - 1);
    }
}

/// When no setter is called, nothing is sent: serializing the buffer
/// succeeds with no header.
pub proof fn lemma_nothing_set(p: PendingResponseHeaders, r: Result<Vec<WireHeader>, HxError>)
    requires
        p.is_empty(),
        p.serialized_as(r),
    ensures
        p.wire() == Seq::<(Seq<char>, Seq<char>)>::empty(),
        r matches Ok(v) && v@.len() == 0,
{
    lemma_empty_upto(p, SLOT_COUNT as nat);
    if let Ok(v) = r {
        assert(wire_views(v@).len() == v@.len());
    }
}

/// Events set for after the swap are sent under `HX-Trigger-After-Swap`,
/// which is neither `HX-Trigger` nor `HX-Trigger-After-Settle`.
pub proof fn lemma_after_swap_header(t: HxResponseTrigger)
    requires
        t.mode == TriggerMode::AfterSwap,
        t.events@.len() > 0,
    ensures
        PendingHeader::Trigger(t).wire() == Some((HX_TRIGGER_AFTER_SWAP@, t.wire())),
        HX_TRIGGER_AFTER_SWAP@ != HX_TRIGGER@,
        HX_TRIGGER_AFTER_SWAP@ != HX_TRIGGER_AFTER_SETTLE@,
{
    reveal_strlit("HX-Trigger");
    reveal_strlit("HX-Trigger-After-Settle");
    reveal_strlit("HX-Trigger-After-Swap");
    assert(HX_TRIGGER@.len() == 10);
    assert(HX_TRIGGER_AFTER_SETTLE@.len() == 23);
    assert(HX_TRIGGER_AFTER_SWAP@.len() == 21);
}

} // verus!
