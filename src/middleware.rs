use vstd::prelude::*;

use crate::directive::CacheDirective;
use crate::policy::{decide, decision, effective_default, effective_hint, hint_in_effect, resolve_default};

verus! {

/// Configuration of the middleware: the default directive, if one is given.
/// Attached to an inner handler it gives a [`CacheControlService`].
#[derive(Clone, Copy, Debug)]
pub struct CacheControlLayer {
    default: Option<CacheDirective>,
}

impl CacheControlLayer {
    /// The default directive that was configured, if any.
    pub closed spec fn configured(&self) -> Option<CacheDirective> {
        self.default
    }

    /// A layer whose default directive is `header`.
    pub fn new(header: CacheDirective) -> (r: CacheControlLayer)
        ensures
            r.configured() == Some(header),
    {
        CacheControlLayer { default: Some(header) }
    }

    /// The default directive that was configured, if any.
    pub fn default_directive(&self) -> (r: Option<CacheDirective>)
        ensures
            r == self.configured(),
    {
        self.default
    }

    /// Wraps `inner` in a service that holds its own copy of this layer's default.
    pub fn layer<S>(&self, inner: S) -> (r: CacheControlService<S>)
        ensures
            r.handler() == inner,
            r.configured() == self.configured(),
    {
        CacheControlService { inner, default: self.default }
    }
}

impl Default for CacheControlLayer {
    /// A layer with no configured default: calls fall back to `max-age=5`.
    fn default() -> (r: CacheControlLayer)
        ensures
            r.configured() is None,
    {
        CacheControlLayer { default: None }
    }
}

/// The middleware around an inner handler `S`: it holds the handler and the
/// configured default directive.
#[derive(Clone, Debug)]
pub struct CacheControlService<S> {
    inner: S,
    default: Option<CacheDirective>,
}

/// What a call has read before it forwards the request: the default in
/// effect and the request's hint, if it sets something.
#[derive(Clone, Copy, Debug, PartialEq, Eq, Structural)]
pub struct PendingCall {
    pub default: CacheDirective,
    pub hint: Option<CacheDirective>,
}

/// A response from the inner handler, with what the policy reads of it: its
/// status code and the directive it already carries, if any.
pub struct Handled<R> {
    pub response: R,
    pub status: u16,
    pub existing: Option<CacheDirective>,
}

impl<S> CacheControlService<S> {
    /// The inner handler that the service holds.
    pub closed spec fn handler(&self) -> S {
        self.inner
    }

    /// The default directive that was configured, if any.
    pub closed spec fn configured(&self) -> Option<CacheDirective> {
        self.default
    }

    /// The default directive that was configured, if any.
    pub fn default_directive(&self) -> (r: Option<CacheDirective>)
        ensures
            r == self.configured(),
    {
        self.default
    }

    /// The inner handler, to be asked whether it is ready: the service is
    /// ready exactly when its handler is.
    pub fn inner_mut(&mut self) -> (r: &mut S)
        ensures
            *r == old(self).handler(),
            final(self).handler() == *final(r),
            final(self).configured() == old(self).configured(),
    {
        &mut self.inner
    }

    /// Starts a call: puts a clone of the handler in its place and hands out
    /// the handler that was there, to serve this call alone; reads the
    /// default in effect and the request's hint.
    pub fn begin_call(&mut self, request_hint: Option<CacheDirective>) -> (r: (S, PendingCall))
        where
            S: Clone,
        ensures
            r.0 == old(self).handler(),
            final(self).configured() == old(self).configured(),
            r.1.default == effective_default(old(self).configured()),
            r.1.hint == hint_in_effect(request_hint),
    {
        let mut handler = self.inner.clone();
        std::mem::swap(&mut handler, &mut self.inner);
        let pending = PendingCall {
            default: resolve_default(self.default),
            hint: effective_hint(request_hint),
        };
        (handler, pending)
    }
}

impl PendingCall {
    /// The directive to attach to a response of `status` that already
    /// carries `existing`, or `None` to leave it as it is.
    pub fn directive(&self, status: u16, existing: Option<CacheDirective>) -> (r: Option<
        CacheDirective,
    >)
        ensures
            r == decision(status, existing, self.hint, self.default),
    {
        decide(status, existing, self.hint, self.default)
    }

    /// Completes a call with what the inner handler returned: a failure is
    /// handed back as it is; a response comes back with the directive to
    /// attach to it, if any.
    pub fn finish<R, E>(&self, result: Result<Handled<R>, E>) -> (r: Result<
        (R, Option<CacheDirective>),
        E,
    >)
        ensures
            match result {
                Ok(h) => r == Ok::<(R, Option<CacheDirective>), E>(
                    (h.response, decision(h.status, h.existing, self.hint, self.default)),
                ),
                Err(e) => r == Err::<(R, Option<CacheDirective>), E>(e),
            },
    {
        match result {
            Ok(h) => {
                let header = self.directive(h.status, h.existing);
                Ok((h.response, header))
            },
            Err(e) => Err(e),
        }
    }
}

} // verus!
