//! A guard that redirects requests which do not carry the `HX-Request` header.
use vstd::prelude::*;

use crate::extract::{find_header, header_lookup, RawHeader};
use crate::headers::HX_REQUEST;

verus! {

/// The status of the redirect the guard answers with (See Other).
pub const SEE_OTHER: u16 = 303;

/// Checks that a request carries the `HX-Request` header, and redirects it
/// to a fixed location when it does not. This keeps users from landing on a
/// route that only returns partial HTML.
#[derive(Debug, Clone, Copy)]
pub struct HxRequestGuardLayer<'a> {
    redirect_to: &'a str,
}

impl<'a> HxRequestGuardLayer<'a> {
    /// Where requests without the header are sent.
    pub closed spec fn target(&self) -> Seq<char> {
        self.redirect_to@
    }

    /// A guard that redirects to `redirect_to`.
    pub fn new(redirect_to: &'a str) -> (r: Self)
        ensures
            r.target() == redirect_to@,
    {
        HxRequestGuardLayer { redirect_to }
    }

    /// Where requests without the header are sent.
    pub fn redirect_to(&self) -> (r: &'a str)
        ensures
            r@ == self.target(),
    {
        self.redirect_to
    }

    /// Puts the guard in front of a service.
    pub fn layer<S>(&self, inner: S) -> (r: HxRequestGuard<'a, S>)
        ensures
            r.inner == inner,
            r.layer == *self,
    {
        HxRequestGuard { inner, layer: *self }
    }
}

impl<'a> Default for HxRequestGuardLayer<'a> {
    /// A guard that redirects to `/`.
    fn default() -> (r: Self)
        ensures
            r.target() == "/"@,
    {
        HxRequestGuardLayer { redirect_to: "/" }
    }
}

/// What the guard does with the handler's response.
#[derive(Debug, Clone, Copy, PartialEq, Eq)]
pub enum GuardOutcome<'a> {
    /// Hand the response on unchanged.
    Forward,
    /// Drop the response, and answer with a redirect to this location and an
    /// empty body.
    Redirect(&'a str),
}

/// A service behind the guard.
#[derive(Debug, Clone)]
pub struct HxRequestGuard<'a, S> {
    /// The wrapped service.
    pub inner: S,
    /// The guard's settings.
    pub layer: HxRequestGuardLayer<'a>,
}

impl<'a, S> HxRequestGuard<'a, S> {
    /// Decides from the request headers: forward when `HX-Request` is
    /// present, whatever its value, else redirect to the guard's location.
    pub fn outcome(&self, hs: &[RawHeader]) -> (r: GuardOutcome<'a>)
        ensures
            header_lookup(hs@, HX_REQUEST@) is Some ==> r == GuardOutcome::<'a>::Forward,
            header_lookup(hs@, HX_REQUEST@) is None ==> (r matches GuardOutcome::Redirect(to)
                && to@ == self.layer.target()),
    {
        match find_header(hs, HX_REQUEST) {
            Some(_) => GuardOutcome::Forward,
            None => GuardOutcome::Redirect(self.layer.redirect_to()),
        }
    }
}

} // verus!
