//! Middleware: the per-request buffer of htmx response headers, and a guard
//! that sends requests not made by htmx elsewhere.
pub mod guard;
pub mod htmx;

pub use guard::{GuardOutcome, HxRequestGuard, HxRequestGuardLayer, SEE_OTHER};
