//! The pending asynchronous computation, modeled by what the node logic can
//! observe of it: either the computation has already completed with some
//! content, or it is still pending and its value will arrive later through
//! the host scheduler.

use crate::suspend::Suspend;
use crate::TransitionPolicy;
use vstd::prelude::*;

verus! {

/// One asynchronous computation producing eventual content.
///
/// The node logic polls it exactly once, synchronously, to test immediate
/// completion; a computation found pending is handed to the host scheduler,
/// which later delivers the resolved value to the owning state container.
/// It is never polled from two places.
#[derive(Debug)]
pub struct Computation {
    /// `Some(content)` if the computation has already completed, `None` if
    /// it is still pending at this instant.
    pub outcome: Option<String>,
    /// Whether the one synchronous poll has already happened.
    pub polled: bool,
}

impl Computation {
    /// A computation that is already complete with the given content.
    pub fn done(content: String) -> (r: Computation)
        ensures
            r.outcome == Some(content),
            !r.polled,
    {
        Computation { outcome: Some(content), polled: false }
    }

    /// A computation that is still pending; its content arrives later
    /// through the host scheduler.
    pub fn pending() -> (r: Computation)
        ensures
            r.outcome is None,
            !r.polled,
    {
        Computation { outcome: None, polled: false }
    }

    /// Poll the computation once without blocking.  A completed computation
    /// yields its content, which moves out; a pending one yields nothing.
    /// At most one poll is permitted per computation.
    pub fn poll_once(&mut self) -> (r: Option<String>)
        requires
            !old(self).polled,
        ensures
            final(self).polled,
            r == old(self).outcome,
            final(self).outcome is None,
    {
        self.polled = true;
        self.outcome.take()
    }
}

/// Turns any asynchronous computation into a suspended view with a unit
/// (empty) fallback and the default rebuild policy.
pub trait FutureViewExt: Sized {
    /// The computation this value stands for.
    spec fn to_computation(self) -> Computation;

    /// Wrap the computation in a suspended view.
    fn suspend(self) -> (r: Suspend)
        ensures
            r.fut == self.to_computation(),
            r.fallback@ == Seq::<char>::empty(),
            r.policy == TransitionPolicy::Replace,
    ;
}

impl FutureViewExt for Computation {
    open spec fn to_computation(self) -> Computation {
        self
    }

    fn suspend(self) -> (r: Suspend) {
        Suspend { fallback: String::new(), fut: self, policy: TransitionPolicy::Replace }
    }
}

} // verus!
