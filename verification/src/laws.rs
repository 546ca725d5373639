//! The laws of the suspense mechanism, stated over the same spec functions
//! the executable contracts use and proved once and for all.

use crate::events::{
    build_events, complete_events, count_fallback_mounts, count_ready_transitions, fallback_shown,
    hydrate_events, rebuild_events, shows_fallback, Event,
};
use crate::stream::{
    chunk_of, chunks_in_position, deferred_at, is_deferred_with, source_bytes, stream_bytes,
    tail_entry_ok, tail_has_ident, Segment, StreamChunk, StreamChunker,
};
use crate::{RenderMode, TransitionPolicy};
use vstd::prelude::*;

verus! {

/// A computation already complete at build or hydration time never shows
/// the fallback: the now-or-never fast path mounts or attaches the ready
/// branch alone.
pub proof fn lemma_fast_path_skips_fallback()
    ensures
        !fallback_shown(build_events(true)),
        !fallback_shown(hydrate_events(true)),
{
    assert forall|i: int| 0 <= i < build_events(true).len() implies !shows_fallback(
        #[trigger] build_events(true)[i],
    ) by {
        assert(build_events(true)[i] == Event::MountReady);
    }
    assert forall|i: int| 0 <= i < hydrate_events(true).len() implies !shows_fallback(
        #[trigger] hydrate_events(true)[i],
    ) by {
        assert(hydrate_events(true)[i] == Event::AttachReady);
    }
}

/// For a computation pending at build time, the fallback is mounted first
/// and the delivery of the resolution performs exactly one fallback-to-ready
/// transition: over the whole lifecycle the fallback is mounted once, the
/// ready branch once, and the fallback is unmounted at the end.
pub proof fn lemma_pending_lifecycle()
    ensures
        build_events(false) + complete_events(RenderMode::Fallback) == seq![
            Event::MountFallback,
            Event::MountReady,
            Event::UnmountFallback,
        ],
        count_fallback_mounts(build_events(false) + complete_events(RenderMode::Fallback)) == 1,
        count_ready_transitions(build_events(false) + complete_events(RenderMode::Fallback)) == 1,
{
    let all = build_events(false) + complete_events(RenderMode::Fallback);
    assert(all =~= seq![Event::MountFallback, Event::MountReady, Event::UnmountFallback]);
    let two = seq![Event::MountFallback, Event::MountReady];
    let one = seq![Event::MountFallback];
    let zero = Seq::<Event>::empty();
    assert(all.drop_last() =~= two);
    assert(two.drop_last() =~= one);
    assert(one.drop_last() =~= zero);
    assert(count_fallback_mounts(zero) == 0);
    assert(count_ready_transitions(zero) == 0);
    assert(one.last() == Event::MountFallback);
    assert(count_fallback_mounts(one) == 1);
    assert(count_ready_transitions(one) == 0);
    assert(two.last() == Event::MountReady);
    assert(count_fallback_mounts(two) == 1);
    assert(count_ready_transitions(two) == 1);
    assert(all.last() == Event::UnmountFallback);
    assert(count_fallback_mounts(all) == 1);
    assert(count_ready_transitions(all) == 1);
}

/// Once the ready branch is mounted, the fallback is never shown again
/// except by an explicit replace-policy rebuild: a later delivery updates
/// the ready content in place, and a transition-policy rebuild leaves the
/// mounted content untouched, while a replace-policy rebuild is exactly the
/// step that forces the fallback back in.
pub proof fn lemma_fallback_only_returns_by_replace()
    ensures
        !fallback_shown(complete_events(RenderMode::Ready)),
        !fallback_shown(rebuild_events(TransitionPolicy::Transition, RenderMode::Ready)),
        !fallback_shown(rebuild_events(TransitionPolicy::Transition, RenderMode::Fallback)),
        fallback_shown(rebuild_events(TransitionPolicy::Replace, RenderMode::Ready)),
        fallback_shown(rebuild_events(TransitionPolicy::Replace, RenderMode::Fallback)),
{
    assert forall|i: int| 0 <= i < complete_events(RenderMode::Ready).len() implies !shows_fallback(
        #[trigger] complete_events(RenderMode::Ready)[i],
    ) by {
        assert(complete_events(RenderMode::Ready)[i] == Event::UpdateReady);
    }
    assert(rebuild_events(TransitionPolicy::Transition, RenderMode::Ready).len() == 0);
    assert(rebuild_events(TransitionPolicy::Transition, RenderMode::Fallback).len() == 0);
    assert(shows_fallback(rebuild_events(TransitionPolicy::Replace, RenderMode::Ready)[0]));
    assert(shows_fallback(rebuild_events(TransitionPolicy::Replace, RenderMode::Fallback)[0]));
}

/// Each resolved out-of-order fragment is emitted exactly once: a
/// well-formed stream holds exactly one tail chunk tagged with the
/// fragment's identity.
pub proof fn lemma_deferred_emitted_once(c: StreamChunker, id: u64)
    requires
        c.wf(),
        deferred_at(c.segments@, id, true),
    ensures
        tail_has_ident(c.tail@, id),
        forall|k1: int, k2: int|
            0 <= k1 < c.tail@.len() && 0 <= k2 < c.tail@.len() && (#[trigger] c.tail@[k1]).ident()
                == Some(id) && (#[trigger] c.tail@[k2]).ident() == Some(id) ==> k1 == k2,
{
    let i = choose|i: int|
        0 <= i < c.segments@.len() && is_deferred_with(#[trigger] c.segments@[i], id, true);
    assert(c.segments@[i] is Deferred && c.segments@[i]->Deferred_resolved);
    assert(tail_has_ident(c.tail@, id));
    assert forall|k1: int, k2: int|
        0 <= k1 < c.tail@.len() && 0 <= k2 < c.tail@.len() && (#[trigger] c.tail@[k1]).ident()
            == Some(id) && (#[trigger] c.tail@[k2]).ident() == Some(id) implies k1 == k2 by {
        if k1 < k2 {
            assert(c.tail@[k1].ident() != c.tail@[k2].ident());
        }
        if k2 < k1 {
            assert(c.tail@[k2].ident() != c.tail@[k1].ident());
        }
    }
}

/// A deferred fragment is never emitted before it resolves: while it is
/// unresolved, no tail chunk carries its identity.
pub proof fn lemma_unresolved_not_emitted(c: StreamChunker, id: u64)
    requires
        c.wf(),
        deferred_at(c.segments@, id, false),
    ensures
        !tail_has_ident(c.tail@, id),
{
    let i = choose|i: int|
        0 <= i < c.segments@.len() && is_deferred_with(#[trigger] c.segments@[i], id, false);
    if tail_has_ident(c.tail@, id) {
        let k = choose|k: int| 0 <= k < c.tail@.len() && (#[trigger] c.tail@[k]).ident() == Some(id);
        assert(tail_entry_ok(c.segments@, c.tail@[k]));
        let j = choose|j: int|
            0 <= j < c.segments@.len() && is_deferred_with(#[trigger] c.segments@[j], id, true);
        assert(c.segments@[i].ident() == Some(id));
        assert(c.segments@[j].ident() == Some(id));
        assert(i == j);
        assert(false);
    }
}

/// A stream that deferred nothing out of order has an empty tail: every
/// chunk of the finished stream stands at its source-tree position.
pub proof fn lemma_in_order_stream_has_no_tail(c: StreamChunker)
    requires
        c.wf(),
        forall|i: int| 0 <= i < c.segments@.len() ==> !((#[trigger] c.segments@[i]) is Deferred),
    ensures
        c.tail@ == Seq::<StreamChunk>::empty(),
{
    if c.tail@.len() > 0 {
        assert(tail_entry_ok(c.segments@, c.tail@[0]));
        let id = c.tail@[0]->OutOfOrder_id;
        let j = choose|j: int|
            0 <= j < c.segments@.len() && is_deferred_with(#[trigger] c.segments@[j], id, true);
        assert(false);
    }
    assert(c.tail@ =~= Seq::<StreamChunk>::empty());
}

/// Position by position, the finished chunks carry exactly the fragments'
/// final contents, so their concatenated bytes equal the source-tree-order
/// concatenation of those contents.
pub proof fn lemma_bytes_follow_source_order(segs: Seq<Segment>)
    ensures
        stream_bytes(chunks_in_position(segs)) == source_bytes(segs),
    decreases segs.len(),
{
    if segs.len() == 0 {
        assert(chunks_in_position(segs) =~= Seq::<StreamChunk>::empty());
    } else {
        lemma_bytes_follow_source_order(segs.drop_first());
        assert(chunks_in_position(segs).drop_first() =~= chunks_in_position(segs.drop_first()));
        assert(chunks_in_position(segs)[0] == chunk_of(segs[0]));
    }
}

/// In-order streaming: the finished stream's byte order equals the
/// source-tree order of the fragments' final contents, independent of the
/// order in which the resolutions actually arrived.
pub proof fn lemma_in_order_bytes(c: StreamChunker)
    requires
        c.wf(),
        forall|i: int| 0 <= i < c.segments@.len() ==> !((#[trigger] c.segments@[i]) is Deferred),
    ensures
        stream_bytes(chunks_in_position(c.segments@) + c.tail@) == source_bytes(c.segments@),
{
    lemma_in_order_stream_has_no_tail(c);
    assert(chunks_in_position(c.segments@) + c.tail@ =~= chunks_in_position(c.segments@));
    lemma_bytes_follow_source_order(c.segments@);
}

/// Filling two different in-order slots gives the same stream whichever
/// resolution arrives first: completion timing cannot affect the finished
/// output.
pub proof fn lemma_fill_order_irrelevant(segs: Seq<Segment>, i: int, j: int, x: String, y: String)
    requires
        0 <= i < segs.len(),
        0 <= j < segs.len(),
        i != j,
        segs[i] is Slot,
        segs[j] is Slot,
    ensures
        segs.update(i, Segment::Slot { id: segs[i]->Slot_id, content: Some(x) }).update(
            j,
            Segment::Slot { id: segs[j]->Slot_id, content: Some(y) },
        ) == segs.update(j, Segment::Slot { id: segs[j]->Slot_id, content: Some(y) }).update(
            i,
            Segment::Slot { id: segs[i]->Slot_id, content: Some(x) },
        ),
{
    assert(segs.update(i, Segment::Slot { id: segs[i]->Slot_id, content: Some(x) }).update(
        j,
        Segment::Slot { id: segs[j]->Slot_id, content: Some(y) },
    ) =~= segs.update(j, Segment::Slot { id: segs[j]->Slot_id, content: Some(y) }).update(
        i,
        Segment::Slot { id: segs[i]->Slot_id, content: Some(x) },
    ));
}

} // verus!
