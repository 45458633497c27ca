use vstd::prelude::*;

use crate::error::RenderError;
use crate::surface::RenderTarget;

verus! {

/// The graphics API a context was created for.
#[derive(Debug, Clone, Copy, PartialEq, Eq, Structural)]
pub enum ContextApi {
    /// The primary, desktop-class API.
    Desktop,
    /// The fallback, embedded-class API.
    Embedded,
}

/// A freshly created context handle, flagged with the API that produced it.
pub struct CreatedContext<C> {
    pub handle: C,
    pub api: ContextApi,
}

/// Creates a context: one attempt with the primary API and, only when that
/// fails, one attempt with the fallback API. There is no further retry.
pub fn create_with_fallback<C, P, F>(primary: P, fallback: F) -> (r: Result<CreatedContext<C>, RenderError>)
    where
        P: FnOnce() -> Option<C>,
        F: FnOnce() -> Option<C>,
    requires
        primary.requires(()),
        fallback.requires(()),
    ensures
        match r {
            Ok(c) => {
                ||| c.api == ContextApi::Desktop && primary.ensures((), Some(c.handle))
                ||| c.api == ContextApi::Embedded && primary.ensures((), None::<C>)
                    && fallback.ensures((), Some(c.handle))
            },
            Err(e) => {
                &&& e == RenderError::ContextCreationFailed
                &&& primary.ensures((), None::<C>)
                &&& fallback.ensures((), None::<C>)
            },
        },
{
    match primary() {
        Some(handle) => Ok(CreatedContext { handle, api: ContextApi::Desktop }),
        None => match fallback() {
            Some(handle) => Ok(CreatedContext { handle, api: ContextApi::Embedded }),
            None => Err(RenderError::ContextCreationFailed),
        },
    }
}

/// A context that is bound to no execution context: inert, safe to store and
/// to hand to a later callback, and unusable for drawing.
#[derive(Debug)]
pub struct NotCurrent {
    api: ContextApi,
}

/// A context bound to a target, usable for drawing. It is obtained only by
/// consuming a `NotCurrent` value and is given up only by `release`, so a
/// second acquire without a release cannot be written.
#[derive(Debug)]
pub struct Current {
    api: ContextApi,
    target: RenderTarget,
}

impl NotCurrent {
    pub closed spec fn api_spec(&self) -> ContextApi {
        self.api
    }

    /// The value `acquire` gives for `target`.
    pub closed spec fn acquired(self, target: RenderTarget) -> Current {
        Current { api: self.api, target }
    }

    /// A context just created for `api` starts not current.
    pub fn new(api: ContextApi) -> (r: NotCurrent)
        ensures
            r.api_spec() == api,
    {
        NotCurrent { api }
    }

    pub fn api(&self) -> (r: ContextApi)
        ensures
            r == self.api_spec(),
    {
        self.api
    }

    /// Binds the context to `target`, consuming the not-current value.
    pub fn acquire(self, target: RenderTarget) -> (r: Current)
        ensures
            r == self.acquired(target),
            r.api_spec() == self.api_spec(),
            r.target_spec() == target,
    {
        Current { api: self.api, target }
    }
}

impl Current {
    pub closed spec fn api_spec(&self) -> ContextApi {
        self.api
    }

    pub closed spec fn target_spec(&self) -> RenderTarget {
        self.target
    }

    /// The value `release` gives.
    pub closed spec fn released(self) -> NotCurrent {
        NotCurrent { api: self.api }
    }

    pub fn api(&self) -> (r: ContextApi)
        ensures
            r == self.api_spec(),
    {
        self.api
    }

    pub fn target(&self) -> (r: RenderTarget)
        ensures
            r == self.target_spec(),
    {
        self.target
    }

    /// Unbinds the context, consuming the current value.
    pub fn release(self) -> (r: NotCurrent)
        ensures
            r == self.released(),
            r.api_spec() == self.api_spec(),
    {
        NotCurrent { api: self.api }
    }
}

/// Acquiring a context for any target and releasing it again gives back a
/// value equal to the one started from.
pub proof fn lemma_acquire_release_round_trip(ctx: NotCurrent, target: RenderTarget)
    ensures
        ctx.acquired(target).released() == ctx,
{
}

} // verus!
