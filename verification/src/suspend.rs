//! The suspend node: one fallback description and one asynchronous
//! computation, rendered to any of the three targets (direct build,
//! streaming emit, hydration attach) through a fallback/ready state
//! container.

use crate::computation::Computation;
use crate::events::{build_events, complete_events, hydrate_events, rebuild_events, Event};
use crate::stream::{Segment, StreamChunker};
use crate::{Cursor, RenderError, RenderMode, TransitionPolicy};
use vstd::prelude::*;

verus! {

/// A view whose content depends on an asynchronous computation; it shows
/// `fallback` until `fut` completes.
#[derive(Debug)]
pub struct Suspend {
    /// Placeholder content shown while the computation is pending.
    pub fallback: String,
    /// The wrapped asynchronous computation.
    pub fut: Computation,
    /// Rebuild behavior of this node.
    pub policy: TransitionPolicy,
}

/// The fallback/ready state container of one suspend node: which branch is
/// materialized, the content of each branch, how many scheduled resolutions
/// are outstanding, and the log of observable mount events.
///
/// The container is shared between the synchronous build path and the
/// background resolver; the host guards it with one exclusive lock and calls
/// these operations under it, one writer at a time.
pub struct SuspendState {
    /// The materialized fallback representation.
    pub fallback: String,
    /// The materialized ready representation, once some resolution has
    /// delivered it.
    pub ready: Option<String>,
    /// Which branch is currently mounted.
    pub mode: RenderMode,
    /// How many scheduled background resolutions have not yet delivered
    /// their value.  Superseded resolutions are not cancelled: each still
    /// delivers, and the last writer wins.
    pub pending: usize,
    /// Observable mount/unmount history, oldest first.
    pub events: Vec<Event>,
}

impl SuspendState {
    /// The container's invariant: the ready representation exists exactly
    /// when the ready branch is mounted.
    pub open spec fn wf(self) -> bool {
        self.mode == RenderMode::Ready <==> self.ready is Some
    }

    /// The content currently observable: the mounted branch's
    /// representation.
    pub open spec fn spec_showing(self) -> String {
        if self.mode == RenderMode::Ready {
            self.ready.unwrap()
        } else {
            self.fallback
        }
    }

    /// The content currently observable.
    pub fn showing(&self) -> (r: &String)
        requires
            self.wf(),
        ensures
            r == self.spec_showing(),
    {
        match &self.ready {
            Some(content) => content,
            None => &self.fallback,
        }
    }

    /// The resolved content, if some resolution has delivered it.  Reading
    /// it never polls the computation again: the container owns the value.
    pub fn ready_content(&self) -> (r: &Option<String>)
        ensures
            r == self.ready,
    {
        &self.ready
    }

    /// Deliver the value of one scheduled resolution: from the fallback
    /// branch, the ready content is mounted before the same position marker,
    /// the mode moves to ready, and the fallback is unmounted; from the
    /// ready branch, the content is updated in place.  Exactly one delivery
    /// is accepted per outstanding schedule.
    pub fn complete(&mut self, value: String)
        requires
            old(self).wf(),
            old(self).pending > 0,
        ensures
            final(self).wf(),
            final(self).mode == RenderMode::Ready,
            final(self).ready == Some(value),
            final(self).fallback == old(self).fallback,
            final(self).pending == old(self).pending - 1,
            final(self).events@ == old(self).events@ + complete_events(old(self).mode),
    {
        if self.mode == RenderMode::Fallback {
            self.events.push(Event::MountReady);
            self.events.push(Event::UnmountFallback);
        } else {
            self.events.push(Event::UpdateReady);
        }
        self.ready = Some(value);
        self.mode = RenderMode::Ready;
        self.pending = self.pending - 1;
        proof {
            assert(final(self).events@ =~= old(self).events@ + complete_events(old(self).mode));
        }
    }

    /// Unmount whichever branch is mounted.
    pub fn unmount(&mut self)
        ensures
            final(self).events@ == old(self).events@.push(
                if old(self).mode == RenderMode::Ready {
                    Event::UnmountReady
                } else {
                    Event::UnmountFallback
                },
            ),
            final(self).fallback == old(self).fallback,
            final(self).ready == old(self).ready,
            final(self).mode == old(self).mode,
            final(self).pending == old(self).pending,
    {
        if self.mode == RenderMode::Ready {
            self.events.push(Event::UnmountReady);
        } else {
            self.events.push(Event::UnmountFallback);
        }
    }

    /// Mount whichever branch is active.
    pub fn mount(&mut self)
        ensures
            final(self).events@ == old(self).events@.push(
                if old(self).mode == RenderMode::Ready {
                    Event::MountReady
                } else {
                    Event::MountFallback
                },
            ),
            final(self).fallback == old(self).fallback,
            final(self).ready == old(self).ready,
            final(self).mode == old(self).mode,
            final(self).pending == old(self).pending,
    {
        if self.mode == RenderMode::Ready {
            self.events.push(Event::MountReady);
        } else {
            self.events.push(Event::MountFallback);
        }
    }

    /// Ordered insertion is delegated to whichever branch is mounted; the
    /// result reports the branch that received it.
    pub fn insert_before_this(&self) -> (r: RenderMode)
        ensures
            r == self.mode,
    {
        self.mode
    }
}

impl Suspend {
    /// Replace the fallback content, keeping the computation and policy.
    pub fn with_fallback(self, fallback: String) -> (r: Suspend)
        ensures
            r.fallback == fallback,
            r.fut == self.fut,
            r.policy == self.policy,
    {
        let fut = self.fut;
        Suspend { fallback, fut, policy: self.policy }
    }

    /// Select the `Transition` rebuild policy: on rebuild, keep the prior
    /// ready content visible until the new computation resolves.
    pub fn transition(self) -> (r: Suspend)
        ensures
            r.fallback == self.fallback,
            r.fut == self.fut,
            r.policy == TransitionPolicy::Transition,
    {
        let Suspend { fallback, fut, .. } = self;
        Suspend { fallback, fut, policy: TransitionPolicy::Transition }
    }

    /// Direct build: poll the computation once without blocking.  A
    /// computation already complete mounts the ready content directly and
    /// the fallback is never materialized (the now-or-never fast path); a
    /// pending one mounts the fallback and leaves one resolution outstanding
    /// for the host scheduler to deliver through `SuspendState::complete`.
    pub fn build(self) -> (r: SuspendState)
        requires
            !self.fut.polled,
        ensures
            r.wf(),
            r.fallback == self.fallback,
            r.events@ == build_events(self.fut.outcome is Some),
            self.fut.outcome matches Some(v) ==> {
                &&& r.mode == RenderMode::Ready
                &&& r.ready == Some(v)
                &&& r.pending == 0
            },
            self.fut.outcome is None ==> {
                &&& r.mode == RenderMode::Fallback
                &&& r.ready is None
                &&& r.pending == 1
            },
    {
        let Suspend { fallback, mut fut, .. } = self;
        match fut.poll_once() {
            Some(value) => {
                let mut events: Vec<Event> = Vec::new();
                events.push(Event::MountReady);
                SuspendState {
                    fallback,
                    ready: Some(value),
                    mode: RenderMode::Ready,
                    pending: 0,
                    events,
                }
            },
            None => {
                let mut events: Vec<Event> = Vec::new();
                events.push(Event::MountFallback);
                SuspendState { fallback, ready: None, mode: RenderMode::Fallback, pending: 1, events }
            },
        }
    }

    /// Rebuild with new inputs.  Under `Replace`, the fallback is forced
    /// back in immediately (remounting it over a mounted ready branch, or
    /// updating it in place); under `Transition`, the mounted content is
    /// left untouched.  Either way one more resolution becomes outstanding:
    /// the computation is not polled here but handed whole to the scheduler,
    /// and whichever outstanding resolution delivers last wins.
    pub fn rebuild(self, state: &mut SuspendState)
        requires
            old(state).wf(),
            old(state).pending < usize::MAX,
        ensures
            final(state).wf(),
            final(state).pending == old(state).pending + 1,
            final(state).events@ == old(state).events@ + rebuild_events(
                self.policy,
                old(state).mode,
            ),
            self.policy == TransitionPolicy::Transition ==> {
                &&& final(state).mode == old(state).mode
                &&& final(state).ready == old(state).ready
                &&& final(state).fallback == old(state).fallback
            },
            self.policy == TransitionPolicy::Replace ==> {
                &&& final(state).mode == RenderMode::Fallback
                &&& final(state).ready is None
                &&& final(state).fallback == self.fallback
            },
    {
        if let TransitionPolicy::Replace = self.policy {
            if let RenderMode::Ready = state.mode {
                state.events.push(Event::MountFallback);
                state.events.push(Event::UnmountReady);
            } else {
                state.events.push(Event::UpdateFallback);
            }
            state.fallback = self.fallback;
            state.ready = None;
            state.mode = RenderMode::Fallback;
        }
        state.pending = state.pending + 1;
        proof {
            assert(final(state).events@ =~= old(state).events@ + rebuild_events(
                self.policy,
                old(state).mode,
            ));
        }
    }

    /// Resolve: the value the node's internal asynchronous dependency
    /// yields.  A computation already complete yields its content here; a
    /// pending one yields nothing, and the host scheduler must await the
    /// real future and deliver its value itself.
    pub fn resolve(self) -> (r: Option<String>)
        requires
            !self.fut.polled,
        ensures
            r == self.fut.outcome,
    {
        let mut fut = self.fut;
        fut.poll_once()
    }

    /// Fallible building is intentionally not supported; callers get an
    /// explicit error, never an abort.
    pub fn try_build(self) -> (r: Result<SuspendState, RenderError>)
        ensures
            r == Err::<SuspendState, RenderError>(RenderError::Unsupported),
    {
        Err(RenderError::Unsupported)
    }

    /// Fallible rebuilding is intentionally not supported.
    pub fn try_rebuild(self, state: &mut SuspendState) -> (r: Result<(), RenderError>)
        ensures
            *final(state) == *old(state),
            r == Err::<(), RenderError>(RenderError::Unsupported),
    {
        Err(RenderError::Unsupported)
    }

    /// Synchronous markup: render the fallback inline at the current
    /// position.
    pub fn to_html_with_buf(self, buf: &mut StreamChunker)
        requires
            old(buf).wf(),
        ensures
            final(buf).wf(),
            final(buf).segments@ == old(buf).segments@.push(
                Segment::Ready { markup: self.fallback },
            ),
            final(buf).next_id == old(buf).next_id,
            final(buf).tail@ == old(buf).tail@,
    {
        buf.push_sync(self.fallback);
    }

    /// Streaming markup: poll the computation once.  Content already
    /// complete is emitted inline at the current position and no identity is
    /// allocated.  A pending computation defers: under the out-of-order
    /// discipline the fallback takes the current position, bracketed by
    /// markers carrying a fresh identity, and the resolved chunk is appended
    /// later through `StreamChunker::resolve_out_of_order`; under the
    /// in-order discipline an empty slot takes the position and is filled in
    /// place through `StreamChunker::fill_slot`.  The returned identity is
    /// the handle the scheduler needs for that later delivery.
    pub fn to_html_async_with_buf(self, buf: &mut StreamChunker, out_of_order: bool) -> (r: Option<
        u64,
    >)
        requires
            !self.fut.polled,
            old(buf).wf(),
            old(buf).next_id < u64::MAX,
        ensures
            final(buf).wf(),
            final(buf).tail@ == old(buf).tail@,
            self.fut.outcome matches Some(v) ==> {
                &&& r is None
                &&& final(buf).segments@ == old(buf).segments@.push(Segment::Ready { markup: v })
                &&& final(buf).next_id == old(buf).next_id
            },
            self.fut.outcome is None ==> {
                &&& r == Some(old(buf).next_id)
                &&& final(buf).next_id == old(buf).next_id + 1
                &&& (out_of_order ==> final(buf).segments@ == old(buf).segments@.push(
                    Segment::Deferred {
                        id: old(buf).next_id,
                        fallback: self.fallback,
                        resolved: false,
                    },
                ))
                &&& (!out_of_order ==> final(buf).segments@ == old(buf).segments@.push(
                    Segment::Slot { id: old(buf).next_id, content: None },
                ))
            },
    {
        let Suspend { fallback, mut fut, .. } = self;
        match fut.poll_once() {
            Some(value) => {
                buf.push_sync(value);
                None
            },
            None => {
                if out_of_order {
                    Some(buf.push_deferred(fallback))
                } else {
                    Some(buf.push_slot())
                }
            },
        }
    }

    /// Hydration attach: poll the computation once and reuse the markup
    /// already present at the cursor for whichever branch is active, instead
    /// of rebuilding it; a pending computation then leaves one resolution
    /// outstanding exactly as a direct build does.
    pub fn hydrate(self, cursor: &mut Cursor) -> (r: SuspendState)
        requires
            !self.fut.polled,
            old(cursor).position < usize::MAX,
        ensures
            final(cursor).position == old(cursor).position + 1,
            r.wf(),
            r.fallback == self.fallback,
            r.events@ == hydrate_events(self.fut.outcome is Some),
            self.fut.outcome matches Some(v) ==> {
                &&& r.mode == RenderMode::Ready
                &&& r.ready == Some(v)
                &&& r.pending == 0
            },
            self.fut.outcome is None ==> {
                &&& r.mode == RenderMode::Fallback
                &&& r.ready is None
                &&& r.pending == 1
            },
    {
        cursor.advance();
        let Suspend { fallback, mut fut, .. } = self;
        match fut.poll_once() {
            Some(value) => {
                let mut events: Vec<Event> = Vec::new();
                events.push(Event::AttachReady);
                SuspendState {
                    fallback,
                    ready: Some(value),
                    mode: RenderMode::Ready,
                    pending: 0,
                    events,
                }
            },
            None => {
                let mut events: Vec<Event> = Vec::new();
                events.push(Event::AttachFallback);
                SuspendState { fallback, ready: None, mode: RenderMode::Fallback, pending: 1, events }
            },
        }
    }
}

} // verus!
