//! Asynchronous-content resolution for a reactive rendering library.
//!
//! A suspended view shows placeholder ("fallback") content while an
//! asynchronous computation is pending, then swaps to the resolved content
//! once the computation completes.  This crate verifies the decision logic of
//! that mechanism over a plain data model: the state container shared between
//! the synchronous build step and the background resolver, the suspend and
//! suspense-boundary nodes with their three render targets (direct build,
//! streaming emit, hydration attach), and the chunked-streaming protocol for
//! in-order and out-of-order delivery of not-yet-ready fragments.
//!
//! The host runtime supplies what cannot be verified: it polls the real
//! future once at build time, spawns the background task, and hands the
//! resolved value back through the `complete` operations here.

pub mod boundary;
pub mod computation;
pub mod events;
pub mod laws;
pub mod stream;
pub mod suspend;

use vstd::prelude::*;

verus! {

/// Which of the two branches of a suspended view is currently materialized.
/// Exactly one branch is active at any instant.
#[derive(Clone, Copy, Debug, PartialEq, Eq, Structural)]
pub enum RenderMode {
    Fallback,
    Ready,
}

/// Per-node rebuild behavior.  `Replace` reverts to the fallback immediately
/// on rebuild; `Transition` keeps the prior ready content visible until the
/// new content is ready.
#[derive(Clone, Copy, Debug, PartialEq, Eq, Structural)]
pub enum TransitionPolicy {
    Replace,
    Transition,
}

/// Failure of a fallible node operation.
#[derive(Clone, Copy, Debug, PartialEq, Eq, Structural)]
pub enum RenderError {
    /// The operation is declared by the node interface but intentionally not
    /// supported; callers get this error instead of an abort.
    Unsupported,
}

/// A position cursor into markup that already exists (e.g. rendered earlier
/// by a server), consumed left to right by hydration.
pub struct Cursor {
    /// Index of the next markup position to reuse.
    pub position: usize,
}

impl Cursor {
    /// A cursor standing at the first markup position.
    pub fn new() -> (r: Cursor)
        ensures
            r.position == 0,
    {
        Cursor { position: 0 }
    }

    /// Consume one markup position.
    pub fn advance(&mut self)
        requires
            old(self).position < usize::MAX,
        ensures
            final(self).position == old(self).position + 1,
    {
        self.position = self.position + 1;
    }
}

} // verus!
