//! Observable mount/unmount events of a suspended view's lifetime, and the
//! event sequences that each lifecycle step produces.
//!
//! Every state-changing operation on a node's state container appends to an
//! event log; the log is what "observably mounted" means in the contracts.

use crate::{RenderMode, TransitionPolicy};
use vstd::prelude::*;

verus! {

/// One observable step of a suspended view's lifetime.
#[derive(Clone, Copy, Debug, PartialEq, Eq, Structural)]
pub enum Event {
    /// The fallback branch was materialized and mounted.
    MountFallback,
    /// The fallback branch was unmounted.
    UnmountFallback,
    /// The mounted fallback content was updated in place.
    UpdateFallback,
    /// The ready branch was materialized and mounted before the marker.
    MountReady,
    /// The ready branch was unmounted.
    UnmountReady,
    /// The mounted ready content was updated in place.
    UpdateReady,
    /// The fallback branch reused markup already present at the cursor.
    AttachFallback,
    /// The ready branch reused markup already present at the cursor.
    AttachReady,
}

/// Whether an event makes fallback content observable.
pub open spec fn shows_fallback(e: Event) -> bool {
    e == Event::MountFallback || e == Event::UpdateFallback || e == Event::AttachFallback
}

/// Whether any event of the sequence makes fallback content observable.
pub open spec fn fallback_shown(events: Seq<Event>) -> bool {
    exists|i: int| 0 <= i < events.len() && shows_fallback(#[trigger] events[i])
}

/// How many times the sequence mounts the fallback branch.
pub open spec fn count_fallback_mounts(events: Seq<Event>) -> nat
    decreases events.len(),
{
    if events.len() == 0 {
        0
    } else {
        count_fallback_mounts(events.drop_last()) + if events.last() == Event::MountFallback {
            1nat
        } else {
            0nat
        }
    }
}

/// How many times the sequence transitions to the ready branch.
pub open spec fn count_ready_transitions(events: Seq<Event>) -> nat
    decreases events.len(),
{
    if events.len() == 0 {
        0
    } else {
        count_ready_transitions(events.drop_last()) + if events.last() == Event::MountReady {
            1nat
        } else {
            0nat
        }
    }
}

/// Events of a direct build: the now-or-never fast path mounts the ready
/// branch straight away, skipping the fallback; a pending computation mounts
/// the fallback.
pub open spec fn build_events(complete: bool) -> Seq<Event> {
    if complete {
        seq![Event::MountReady]
    } else {
        seq![Event::MountFallback]
    }
}

/// Events of a hydration attach: as a direct build, but each branch reuses
/// the markup already present at the cursor instead of creating it.
pub open spec fn hydrate_events(complete: bool) -> Seq<Event> {
    if complete {
        seq![Event::AttachReady]
    } else {
        seq![Event::AttachFallback]
    }
}

/// Events appended when a scheduled resolution delivers its value: from the
/// fallback branch, the ready content is mounted before the same position
/// marker and then the fallback is unmounted; from the ready branch, the
/// content is updated in place.
pub open spec fn complete_events(mode: RenderMode) -> Seq<Event> {
    if mode == RenderMode::Fallback {
        seq![Event::MountReady, Event::UnmountFallback]
    } else {
        seq![Event::UpdateReady]
    }
}

/// Events appended by a suspend node's rebuild with new inputs.  Under the
/// `Replace` policy the fallback is forced back in immediately — remounted
/// over a mounted ready branch, or updated in place with the new node's
/// fallback content; under `Transition` the mounted content is left
/// untouched until the new computation resolves.
pub open spec fn rebuild_events(policy: TransitionPolicy, mode: RenderMode) -> Seq<Event> {
    if policy == TransitionPolicy::Transition {
        seq![]
    } else if mode == RenderMode::Ready {
        seq![Event::MountFallback, Event::UnmountReady]
    } else {
        seq![Event::UpdateFallback]
    }
}

} // verus!
