//! Names of the headers that htmx reads and writes.
use vstd::prelude::*;

verus! {

/// Set when the request comes from an element inside an `hx-boost` region.
pub const HX_BOOSTED: &'static str = "HX-Boosted";

/// The current URL of the browser.
pub const HX_CURRENT_URL: &'static str = "HX-Current-URL";

/// Set when the request restores history after a cache miss.
pub const HX_HISTORY_RESTORE_REQUEST: &'static str = "HX-History-Restore-Request";

/// What the user typed into an `hx-prompt` dialog.
pub const HX_PROMPT: &'static str = "HX-Prompt";

/// Set on every request that htmx itself makes.
pub const HX_REQUEST: &'static str = "HX-Request";

/// The id of the target element.
pub const HX_TARGET: &'static str = "HX-Target";

/// The name of the element that triggered the request.
pub const HX_TRIGGER_NAME: &'static str = "HX-Trigger-Name";

/// On a request: the id of the triggering element. On a response: events to fire.
pub const HX_TRIGGER: &'static str = "HX-Trigger";

/// A client-side redirect that does not reload the whole page.
pub const HX_LOCATION: &'static str = "HX-Location";

/// Pushes a URL onto the browser's history stack.
pub const HX_PUSH_URL: &'static str = "HX-Push-Url";

/// A client-side redirect to a new location.
pub const HX_REDIRECT: &'static str = "HX-Redirect";

/// Asks the client to reload the whole page.
pub const HX_REFRESH: &'static str = "HX-Refresh";

/// Replaces the current URL in the location bar.
pub const HX_REPLACE_URL: &'static str = "HX-Replace-Url";

/// How the response is swapped into the page.
pub const HX_RESWAP: &'static str = "HX-Reswap";

/// A CSS selector that replaces the target of the swap.
pub const HX_RETARGET: &'static str = "HX-Retarget";

/// A CSS selector that picks the part of the response that is swapped in.
pub const HX_RESELECT: &'static str = "HX-Reselect";

/// Events to fire after the settle step.
pub const HX_TRIGGER_AFTER_SETTLE: &'static str = "HX-Trigger-After-Settle";

/// Events to fire after the swap step.
pub const HX_TRIGGER_AFTER_SWAP: &'static str = "HX-Trigger-After-Swap";

} // verus!
