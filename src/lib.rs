//! Typed access to the htmx request and response headers, with a per-request
//! buffer of pending response headers that is flushed onto the response once
//! the handler has finished.
pub mod error;
pub mod extract;
pub mod headers;
pub mod middleware;
pub mod response;
pub mod text;

pub use error::HxError;
pub use extract::{
    extract_current_url, extract_header_bool, extract_header_string, find_header, HxBoosted,
    HxCurrentUrl, HxHistoryRestoreRequest, HxPrompt, HxRequest, HxTarget, HxTrigger,
    HxTriggerName, RawHeader,
};
pub use headers::{
    HX_BOOSTED, HX_CURRENT_URL, HX_HISTORY_RESTORE_REQUEST, HX_LOCATION, HX_PROMPT, HX_PUSH_URL,
    HX_REDIRECT, HX_REFRESH, HX_REPLACE_URL, HX_REQUEST, HX_RESELECT, HX_RESWAP, HX_RETARGET,
    HX_TARGET, HX_TRIGGER, HX_TRIGGER_AFTER_SETTLE, HX_TRIGGER_AFTER_SWAP, HX_TRIGGER_NAME,
};
pub use middleware::{GuardOutcome, HxRequestGuard, HxRequestGuardLayer, SEE_OTHER};
pub use middleware::htmx::{
    Htmx, HtmxLayer, HtmxService, PendingHeader, PendingResponseHeaders, RequestHeaders,
    ResponseHeaders, WireHeader,
};
pub use response::{
    HxEvent, HxLocation, HxPushUrl, HxRedirect, HxRefresh, HxReplaceUrl, HxReselect,
    HxResponseTrigger, HxReswap, HxRetarget, SwapOption, TriggerMode, Url,
};
