//! The suspense boundary node: one fallback description and arbitrary nested
//! child content.  A boundary resolves by resolving its child content as one
//! unit; it does not wait for further-nested boundaries inside that content,
//! so an inner boundary resolves independently of an outer one and may
//! finish first.

use crate::computation::Computation;
use crate::events::{complete_events, hydrate_events, Event};
use crate::stream::{Segment, StreamChunker};
use crate::{Cursor, RenderError, RenderMode, TransitionPolicy};
use vstd::prelude::*;

verus! {

/// A boundary around nested content whose resolution may suspend; shows
/// `fallback` until the child content has resolved.
pub struct SuspenseBoundary {
    /// Whether the surrounding render pass considers this boundary to be in
    /// its fallback state; recorded by the caller, not read by this logic.
    pub in_fallback: bool,
    /// Placeholder content.  `None` means the fallback was already taken by
    /// an earlier build: building again is a caller error and is excluded by
    /// contract instead of aborting.
    pub fallback: Option<String>,
    /// The nested content's resolve operation, observed as a computation
    /// producing the content as one unit.
    pub children: Computation,
    /// Rebuild behavior of this node.
    pub policy: TransitionPolicy,
}

/// The state container of one boundary: the materialized fallback, the
/// materialized child content once some resolution delivered it, the number
/// of outstanding resolutions, and the observable mount history.
pub struct SuspenseBoundaryState {
    /// The materialized fallback representation.
    pub fallback: String,
    /// The materialized child content, once resolved.
    pub children: Option<String>,
    /// How many scheduled background resolutions have not yet delivered.
    /// Superseded resolutions are not cancelled; the last writer wins.
    pub pending: usize,
    /// Observable mount/unmount history, oldest first.
    pub events: Vec<Event>,
}

impl SuspenseBoundaryState {
    /// Which branch is currently materialized.
    pub open spec fn mode(self) -> RenderMode {
        if self.children is Some {
            RenderMode::Ready
        } else {
            RenderMode::Fallback
        }
    }

    /// The content currently observable: the resolved children if present,
    /// else the fallback.
    pub fn showing(&self) -> (r: &String)
        ensures
            self.children matches Some(c) ==> r == c,
            self.children is None ==> r == self.fallback,
    {
        match &self.children {
            Some(content) => content,
            None => &self.fallback,
        }
    }

    /// Deliver the value of one scheduled resolution of the child content:
    /// if the children are not yet materialized, they are built and mounted
    /// before the marker and the fallback is unmounted; otherwise the
    /// mounted children are rebuilt in place.
    pub fn complete(&mut self, value: String)
        requires
            old(self).pending > 0,
        ensures
            final(self).children == Some(value),
            final(self).fallback == old(self).fallback,
            final(self).pending == old(self).pending - 1,
            final(self).events@ == old(self).events@ + complete_events(old(self).mode()),
    {
        if self.children.is_none() {
            self.events.push(Event::MountReady);
            self.events.push(Event::UnmountFallback);
        } else {
            self.events.push(Event::UpdateReady);
        }
        self.children = Some(value);
        self.pending = self.pending - 1;
        proof {
            assert(final(self).events@ =~= old(self).events@ + complete_events(old(self).mode()));
        }
    }

    /// Unmount whichever branch is mounted, then the marker itself.
    pub fn unmount(&mut self)
        ensures
            final(self).events@ == old(self).events@.push(
                if old(self).mode() == RenderMode::Ready {
                    Event::UnmountReady
                } else {
                    Event::UnmountFallback
                },
            ),
            final(self).fallback == old(self).fallback,
            final(self).children == old(self).children,
            final(self).pending == old(self).pending,
    {
        if self.children.is_some() {
            self.events.push(Event::UnmountReady);
        } else {
            self.events.push(Event::UnmountFallback);
        }
    }

    /// Mount whichever branch is active, then the marker itself.
    pub fn mount(&mut self)
        ensures
            final(self).events@ == old(self).events@.push(
                if old(self).mode() == RenderMode::Ready {
                    Event::MountReady
                } else {
                    Event::MountFallback
                },
            ),
            final(self).fallback == old(self).fallback,
            final(self).children == old(self).children,
            final(self).pending == old(self).pending,
    {
        if self.children.is_some() {
            self.events.push(Event::MountReady);
        } else {
            self.events.push(Event::MountFallback);
        }
    }

    /// Ordered insertion is delegated to whichever branch is mounted; the
    /// result reports the branch that received it.
    pub fn insert_before_this(&self) -> (r: RenderMode)
        ensures
            r == self.mode(),
    {
        if self.children.is_some() {
            RenderMode::Ready
        } else {
            RenderMode::Fallback
        }
    }
}

impl SuspenseBoundary {
    /// A boundary with the default `Replace` rebuild policy.
    pub fn new(in_fallback: bool, fallback: Option<String>, children: Computation) -> (r:
        SuspenseBoundary)
        ensures
            r.in_fallback == in_fallback,
            r.fallback == fallback,
            r.children == children,
            r.policy == TransitionPolicy::Replace,
    {
        SuspenseBoundary { in_fallback, fallback, children, policy: TransitionPolicy::Replace }
    }

    /// Select the `Transition` rebuild policy: on rebuild, keep the mounted
    /// content visible until the new resolution completes.
    pub fn transition(self) -> (r: SuspenseBoundary)
        ensures
            r.in_fallback == self.in_fallback,
            r.fallback == self.fallback,
            r.children == self.children,
            r.policy == TransitionPolicy::Transition,
    {
        let SuspenseBoundary { in_fallback, fallback, children, .. } = self;
        SuspenseBoundary { in_fallback, fallback, children, policy: TransitionPolicy::Transition }
    }

    /// Direct build: the fallback is built and mounted synchronously, and
    /// the child content begins resolving in the background; a boundary
    /// always leaves one resolution outstanding, which the host scheduler
    /// delivers through `SuspenseBoundaryState::complete`.  A boundary whose
    /// fallback was already taken cannot be built.
    pub fn build(self) -> (r: SuspenseBoundaryState)
        requires
            self.fallback is Some,
        ensures
            r.fallback == self.fallback.unwrap(),
            r.children is None,
            r.pending == 1,
            r.events@ == seq![Event::MountFallback],
    {
        let fallback = match self.fallback {
            Some(f) => f,
            None => {
                proof {
                    assert(false);
                }
                String::new()
            },
        };
        let mut events: Vec<Event> = Vec::new();
        events.push(Event::MountFallback);
        SuspenseBoundaryState { fallback, children: None, pending: 1, events }
    }

    /// Rebuild with new inputs.  Under `Replace`, the stored fallback is
    /// remounted before the marker and the mounted children, if any, are
    /// unmounted; under `Transition`, the mounted content stays untouched.
    /// Either way a new resolution of the child content becomes outstanding,
    /// and whichever outstanding resolution delivers last wins.
    pub fn rebuild(self, state: &mut SuspenseBoundaryState)
        requires
            old(state).pending < usize::MAX,
        ensures
            final(state).pending == old(state).pending + 1,
            final(state).fallback == old(state).fallback,
            self.policy == TransitionPolicy::Transition ==> {
                &&& final(state).children == old(state).children
                &&& final(state).events@ == old(state).events@
            },
            self.policy == TransitionPolicy::Replace ==> {
                &&& final(state).children is None
                &&& (old(state).children is Some ==> final(state).events@ == old(state).events@
                    + seq![Event::MountFallback, Event::UnmountReady])
                &&& (old(state).children is None ==> final(state).events@ == old(state).events@
                    + seq![Event::MountFallback])
            },
    {
        if let TransitionPolicy::Replace = self.policy {
            state.events.push(Event::MountFallback);
            if state.children.is_some() {
                state.events.push(Event::UnmountReady);
            }
            state.children = None;
        }
        state.pending = state.pending + 1;
        proof {
            if self.policy == TransitionPolicy::Replace {
                if old(state).children is Some {
                    assert(state.events@ =~= old(state).events@ + seq![
                        Event::MountFallback,
                        Event::UnmountReady,
                    ]);
                } else {
                    assert(state.events@ =~= old(state).events@ + seq![Event::MountFallback]);
                }
            }
        }
    }

    /// Resolving a boundary yields the boundary itself: the parent does not
    /// wait for suspense nested inside it, so nesting does not compose and
    /// an inner boundary may finish before an outer one.
    pub fn resolve(self) -> (r: SuspenseBoundary)
        ensures
            r == self,
    {
        self
    }

    /// Fallible building is intentionally not supported; callers get an
    /// explicit error, never an abort.
    pub fn try_build(self) -> (r: Result<SuspenseBoundaryState, RenderError>)
        ensures
            r == Err::<SuspenseBoundaryState, RenderError>(RenderError::Unsupported),
    {
        Err(RenderError::Unsupported)
    }

    /// Fallible rebuilding is intentionally not supported.
    pub fn try_rebuild(self, state: &mut SuspenseBoundaryState) -> (r: Result<(), RenderError>)
        ensures
            *final(state) == *old(state),
            r == Err::<(), RenderError>(RenderError::Unsupported),
    {
        Err(RenderError::Unsupported)
    }

    /// Synchronous markup: render the fallback inline at the current
    /// position.
    pub fn to_html_with_buf(self, buf: &mut StreamChunker)
        requires
            self.fallback is Some,
            old(buf).wf(),
        ensures
            final(buf).wf(),
            final(buf).segments@ == old(buf).segments@.push(
                Segment::Ready { markup: self.fallback.unwrap() },
            ),
            final(buf).next_id == old(buf).next_id,
            final(buf).tail@ == old(buf).tail@,
    {
        let fallback = match self.fallback {
            Some(f) => f,
            None => {
                proof {
                    assert(false);
                }
                String::new()
            },
        };
        buf.push_sync(fallback);
    }

    /// Streaming markup, in parity with the suspend node but over the child
    /// content's resolve output: child content already complete is emitted
    /// inline; pending content defers under the chosen discipline, and the
    /// returned identity is the handle for the later delivery through
    /// `StreamChunker::resolve_out_of_order` or `StreamChunker::fill_slot`.
    pub fn to_html_async_with_buf(self, buf: &mut StreamChunker, out_of_order: bool) -> (r: Option<
        u64,
    >)
        requires
            self.fallback is Some,
            !self.children.polled,
            old(buf).wf(),
            old(buf).next_id < u64::MAX,
        ensures
            final(buf).wf(),
            final(buf).tail@ == old(buf).tail@,
            self.children.outcome matches Some(v) ==> {
                &&& r is None
                &&& final(buf).segments@ == old(buf).segments@.push(Segment::Ready { markup: v })
                &&& final(buf).next_id == old(buf).next_id
            },
            self.children.outcome is None ==> {
                &&& r == Some(old(buf).next_id)
                &&& final(buf).next_id == old(buf).next_id + 1
                &&& (out_of_order ==> final(buf).segments@ == old(buf).segments@.push(
                    Segment::Deferred {
                        id: old(buf).next_id,
                        fallback: self.fallback.unwrap(),
                        resolved: false,
                    },
                ))
                &&& (!out_of_order ==> final(buf).segments@ == old(buf).segments@.push(
                    Segment::Slot { id: old(buf).next_id, content: None },
                ))
            },
    {
        let SuspenseBoundary { fallback, mut children, .. } = self;
        let fallback = match fallback {
            Some(f) => f,
            None => {
                proof {
                    assert(false);
                }
                String::new()
            },
        };
        match children.poll_once() {
            Some(value) => {
                buf.push_sync(value);
                None
            },
            None => {
                if out_of_order {
                    Some(buf.push_deferred(fallback))
                } else {
                    Some(buf.push_slot())
                }
            },
        }
    }

    /// Hydration attach, in parity with the suspend node but over the child
    /// content's resolve output: reuse the markup already present at the
    /// cursor for whichever branch is active; pending content leaves one
    /// resolution outstanding.
    pub fn hydrate(self, cursor: &mut Cursor) -> (r: SuspenseBoundaryState)
        requires
            self.fallback is Some,
            !self.children.polled,
            old(cursor).position < usize::MAX,
        ensures
            final(cursor).position == old(cursor).position + 1,
            r.fallback == self.fallback.unwrap(),
            r.events@ == hydrate_events(self.children.outcome is Some),
            self.children.outcome matches Some(v) ==> {
                &&& r.children == Some(v)
                &&& r.pending == 0
            },
            self.children.outcome is None ==> {
                &&& r.children is None
                &&& r.pending == 1
            },
    {
        cursor.advance();
        let SuspenseBoundary { fallback, mut children, .. } = self;
        let fallback = match fallback {
            Some(f) => f,
            None => {
                proof {
                    assert(false);
                }
                String::new()
            },
        };
        match children.poll_once() {
            Some(value) => {
                let mut events: Vec<Event> = Vec::new();
                events.push(Event::AttachReady);
                SuspenseBoundaryState { fallback, children: Some(value), pending: 0, events }
            },
            None => {
                let mut events: Vec<Event> = Vec::new();
                events.push(Event::AttachFallback);
                SuspenseBoundaryState { fallback, children: None, pending: 1, events }
            },
        }
    }
}

} // verus!
