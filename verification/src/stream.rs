//! The stream chunker: serializes resolved and deferred fragments into final
//! markup, supporting in-order (blocking) and out-of-order (tagged) delivery.
//!
//! A monotonic counter issues a fresh boundary identity per deferred
//! fragment within one render pass.  Out-of-order fragments leave their
//! fallback markup at the original position, bracketed by markers carrying
//! the identity, and append the resolved content to the tail of the stream,
//! tagged with the same identity, in arbitrary completion order.  In-order
//! fragments reserve a slot at the original position that is filled in place
//! once resolved, so the final byte order matches source-tree order.

use vstd::prelude::*;

verus! {

/// One fragment position of a stream under construction, in source-tree
/// order.
#[derive(Debug, PartialEq, Eq)]
pub enum Segment {
    /// Markup that was ready when it was emitted.
    Ready { markup: String },
    /// An out-of-order deferred fragment: the fallback stays at this
    /// position; the resolved content is appended to the stream tail, tagged
    /// with `id`, once it arrives.
    Deferred { id: u64, fallback: String, resolved: bool },
    /// An in-order deferred fragment: a reserved position that the resolved
    /// content fills in place.
    Slot { id: u64, content: Option<String> },
}

impl Segment {
    /// The boundary identity carried by a deferred fragment.
    pub open spec fn ident(self) -> Option<u64> {
        match self {
            Segment::Ready { .. } => None,
            Segment::Deferred { id, .. } => Some(id),
            Segment::Slot { id, .. } => Some(id),
        }
    }

    /// Whether this position needs no further content before the stream can
    /// be finished.
    pub open spec fn is_settled(self) -> bool {
        match self {
            Segment::Ready { .. } => true,
            Segment::Deferred { resolved, .. } => resolved,
            Segment::Slot { content, .. } => content is Some,
        }
    }
}

/// The segment is an out-of-order deferred fragment carrying `id`, in the
/// given resolution state.
pub open spec fn is_deferred_with(s: Segment, id: u64, resolved: bool) -> bool {
    &&& s is Deferred
    &&& s->Deferred_id == id
    &&& s->Deferred_resolved == resolved
}

/// The segment is an in-order slot carrying `id` that is still unfilled.
pub open spec fn is_open_slot(s: Segment, id: u64) -> bool {
    &&& s is Slot
    &&& s->Slot_id == id
    &&& s->Slot_content is None
}

/// One chunk of the finished stream.
#[derive(Debug, PartialEq, Eq)]
pub enum StreamChunk {
    /// Markup standing at its source-tree position.
    Sync { markup: String },
    /// Fallback markup standing at its source-tree position, bracketed by
    /// boundary markers carrying `id` so the client can splice the matching
    /// out-of-order chunk in later.
    FallbackMarked { id: u64, fallback: String },
    /// A resolved out-of-order fragment appended to the stream tail, tagged
    /// with the identity of its placeholder.
    OutOfOrder { id: u64, content: String },
}

impl StreamChunk {
    /// The boundary identity this chunk carries, if any.
    pub open spec fn ident(self) -> Option<u64> {
        match self {
            StreamChunk::Sync { .. } => None,
            StreamChunk::FallbackMarked { id, .. } => Some(id),
            StreamChunk::OutOfOrder { id, .. } => Some(id),
        }
    }
}

/// The chunk a settled segment turns into at its own position.
pub open spec fn chunk_of(s: Segment) -> StreamChunk {
    match s {
        Segment::Ready { markup } => StreamChunk::Sync { markup },
        Segment::Deferred { id, fallback, .. } => StreamChunk::FallbackMarked { id, fallback },
        Segment::Slot { content, .. } => StreamChunk::Sync { markup: content.unwrap() },
    }
}

/// The in-position chunks of a finished stream, one per segment, in
/// source-tree order.
pub open spec fn chunks_in_position(segs: Seq<Segment>) -> Seq<StreamChunk> {
    segs.map_values(|s: Segment| chunk_of(s))
}

/// There is a deferred out-of-order fragment with this identity whose
/// resolution state is `resolved`.
pub open spec fn deferred_at(segs: Seq<Segment>, id: u64, resolved: bool) -> bool {
    exists|i: int| 0 <= i < segs.len() && is_deferred_with(#[trigger] segs[i], id, resolved)
}

/// There is an in-order slot with this identity that is still unfilled.
pub open spec fn open_slot_at(segs: Seq<Segment>, id: u64) -> bool {
    exists|i: int| 0 <= i < segs.len() && is_open_slot(#[trigger] segs[i], id)
}

/// Some tail chunk carries this identity.
pub open spec fn tail_has_ident(tail: Seq<StreamChunk>, id: u64) -> bool {
    exists|k: int| 0 <= k < tail.len() && (#[trigger] tail[k]).ident() == Some(id)
}

/// The tail chunk is a resolved out-of-order fragment whose placeholder
/// stands among the segments.
pub open spec fn tail_entry_ok(segs: Seq<Segment>, c: StreamChunk) -> bool {
    &&& c is OutOfOrder
    &&& deferred_at(segs, c->OutOfOrder_id, true)
}

/// A resolved out-of-order fragment has its chunk in the tail.
pub open spec fn resolved_has_tail(tail: Seq<StreamChunk>, s: Segment) -> bool {
    (s is Deferred && s->Deferred_resolved) ==> tail_has_ident(tail, s->Deferred_id)
}

/// Assembles one stream: issues boundary identities, keeps every fragment at
/// its source-tree position, and collects resolved out-of-order chunks at
/// the tail.
pub struct StreamChunker {
    /// The next boundary identity to issue; identities start at 1 and are
    /// reset at the start of each render pass by constructing a fresh
    /// chunker.
    pub next_id: u64,
    /// Fragment positions in source-tree order.
    pub segments: Vec<Segment>,
    /// Resolved out-of-order chunks, in completion order.
    pub tail: Vec<StreamChunk>,
}

impl StreamChunker {
    /// Well-formedness: issued identities are below the counter and pairwise
    /// distinct; the tail holds exactly one tagged chunk for each resolved
    /// out-of-order fragment and nothing else.
    pub open spec fn wf(self) -> bool {
        &&& 1 <= self.next_id
        &&& forall|i: int|
            0 <= i < self.segments@.len() ==> ident_below(
                #[trigger] self.segments@[i],
                self.next_id,
            )
        &&& forall|i: int, j: int|
            0 <= i < j < self.segments@.len() && self.segments@[i].ident() is Some ==> (
            #[trigger] self.segments@[i].ident()) != (#[trigger] self.segments@[j].ident())
        &&& forall|k: int|
            0 <= k < self.tail@.len() ==> tail_entry_ok(self.segments@, #[trigger] self.tail@[k])
        &&& forall|k1: int, k2: int|
            0 <= k1 < k2 < self.tail@.len() ==> (#[trigger] self.tail@[k1]).ident() != (
            #[trigger] self.tail@[k2]).ident()
        &&& forall|i: int|
            0 <= i < self.segments@.len() ==> resolved_has_tail(
                self.tail@,
                #[trigger] self.segments@[i],
            )
    }

    /// Every registered fragment has resolved, so the stream can be
    /// finished.
    pub open spec fn all_settled(self) -> bool {
        forall|i: int| 0 <= i < self.segments@.len() ==> (#[trigger] self.segments@[i]).is_settled()
    }

    /// A fresh chunker at the start of a render pass: no fragments, and the
    /// identity counter back at its starting point.
    pub fn new() -> (r: StreamChunker)
        ensures
            r.wf(),
            r.next_id == 1,
            r.segments@ == Seq::<Segment>::empty(),
            r.tail@ == Seq::<StreamChunk>::empty(),
    {
        StreamChunker { next_id: 1, segments: Vec::new(), tail: Vec::new() }
    }

    /// Emit ready markup inline at the current position.
    pub fn push_sync(&mut self, markup: String)
        requires
            old(self).wf(),
        ensures
            final(self).wf(),
            final(self).segments@ == old(self).segments@.push(Segment::Ready { markup }),
            final(self).next_id == old(self).next_id,
            final(self).tail@ == old(self).tail@,
    {
        self.segments.push(Segment::Ready { markup });
        proof {
            lemma_push_keeps_deferred(old(self).segments@, Segment::Ready { markup });
        }
    }

    /// Register an out-of-order deferred fragment: the fallback markup takes
    /// the current position, bracketed by markers carrying a fresh identity,
    /// and the returned identity tags the resolved chunk later.
    pub fn push_deferred(&mut self, fallback: String) -> (id: u64)
        requires
            old(self).wf(),
            old(self).next_id < u64::MAX,
        ensures
            final(self).wf(),
            id == old(self).next_id,
            final(self).segments@ == old(self).segments@.push(
                Segment::Deferred { id, fallback, resolved: false },
            ),
            final(self).next_id == old(self).next_id + 1,
            final(self).tail@ == old(self).tail@,
    {
        let id = self.next_id;
        self.next_id = self.next_id + 1;
        self.segments.push(Segment::Deferred { id, fallback, resolved: false });
        proof {
            lemma_push_keeps_deferred(
                old(self).segments@,
                Segment::Deferred { id, fallback, resolved: false },
            );
        }
        id
    }

    /// Reserve an in-order position for a deferred fragment; emission of
    /// everything after it is held back until the slot is filled.
    pub fn push_slot(&mut self) -> (id: u64)
        requires
            old(self).wf(),
            old(self).next_id < u64::MAX,
        ensures
            final(self).wf(),
            id == old(self).next_id,
            final(self).segments@ == old(self).segments@.push(Segment::Slot { id, content: None }),
            final(self).next_id == old(self).next_id + 1,
            final(self).tail@ == old(self).tail@,
    {
        let id = self.next_id;
        self.next_id = self.next_id + 1;
        self.segments.push(Segment::Slot { id, content: None });
        proof {
            lemma_push_keeps_deferred(old(self).segments@, Segment::Slot { id, content: None });
        }
        id
    }

    /// Deliver the resolved content of an out-of-order fragment: the
    /// fragment is marked resolved in place and exactly one chunk tagged
    /// with its identity is appended to the stream tail.
    pub fn resolve_out_of_order(&mut self, id: u64, content: String)
        requires
            old(self).wf(),
            deferred_at(old(self).segments@, id, false),
        ensures
            final(self).wf(),
            final(self).next_id == old(self).next_id,
            final(self).tail@ == old(self).tail@.push(StreamChunk::OutOfOrder { id, content }),
            exists|i: int|
                {
                    &&& 0 <= i < old(self).segments@.len()
                    &&& is_deferred_with(#[trigger] old(self).segments@[i], id, false)
                    &&& final(self).segments@ == old(self).segments@.update(
                        i,
                        Segment::Deferred {
                            id,
                            fallback: old(self).segments@[i]->Deferred_fallback,
                            resolved: true,
                        },
                    )
                },
    {
        let idx = self.find_deferred(id);
        let fallback_copy: String;
        match &self.segments[idx] {
            Segment::Deferred { fallback, .. } => {
                fallback_copy = fallback.clone();
            },
            _ => {
                proof {
                    assert(false);
                }
                fallback_copy = String::new();
            },
        }
        let ghost pre = *self;
        self.segments.remove(idx);
        self.segments.insert(idx, Segment::Deferred { id, fallback: fallback_copy, resolved: true });
        proof {
            assert(self.segments@ =~= pre.segments@.update(
                idx as int,
                Segment::Deferred { id, fallback: fallback_copy, resolved: true },
            ));
        }
        self.tail.push(StreamChunk::OutOfOrder { id, content });
        proof {
            lemma_wf_after_resolve(pre, *self, idx as int, id, content);
        }
    }

    /// Deliver the resolved content of an in-order fragment: it fills the
    /// reserved slot at the fragment's original position.
    pub fn fill_slot(&mut self, id: u64, content: String)
        requires
            old(self).wf(),
            open_slot_at(old(self).segments@, id),
        ensures
            final(self).wf(),
            final(self).next_id == old(self).next_id,
            final(self).tail@ == old(self).tail@,
            exists|i: int|
                {
                    &&& 0 <= i < old(self).segments@.len()
                    &&& is_open_slot(#[trigger] old(self).segments@[i], id)
                    &&& final(self).segments@ == old(self).segments@.update(
                        i,
                        Segment::Slot { id, content: Some(content) },
                    )
                },
    {
        let idx = self.find_slot(id);
        let ghost pre = *self;
        self.segments.remove(idx);
        self.segments.insert(idx, Segment::Slot { id, content: Some(content) });
        proof {
            assert(self.segments@ =~= pre.segments@.update(
                idx as int,
                Segment::Slot { id, content: Some(content) },
            ));
            lemma_wf_after_fill(pre, *self, idx as int);
        }
    }

    /// Flatten the finished stream: every fragment's chunk at its
    /// source-tree position, followed by the resolved out-of-order chunks in
    /// completion order.
    pub fn finish(self) -> (out: Vec<StreamChunk>)
        requires
            self.wf(),
            self.all_settled(),
        ensures
            out@ == chunks_in_position(self.segments@) + self.tail@,
    {
        let mut out: Vec<StreamChunk> = Vec::new();
        let mut i: usize = 0;
        let n = self.segments.len();
        while i < n
            invariant
                n == self.segments@.len(),
                0 <= i <= n,
                self.all_settled(),
                out@ == chunks_in_position(self.segments@.take(i as int)),
            decreases n - i,
        {
            let chunk = match &self.segments[i] {
                Segment::Ready { markup } => StreamChunk::Sync { markup: markup.clone() },
                Segment::Deferred { id, fallback, .. } => StreamChunk::FallbackMarked {
                    id: *id,
                    fallback: fallback.clone(),
                },
                Segment::Slot { content, .. } => {
                    match content {
                        Some(c) => StreamChunk::Sync { markup: c.clone() },
                        None => {
                            proof {
                                assert(false);
                            }
                            StreamChunk::Sync { markup: String::new() }
                        },
                    }
                },
            };
            out.push(chunk);
            proof {
                assert(self.segments@.take(i + 1int).drop_last() =~= self.segments@.take(i as int));
                assert(out@ =~= chunks_in_position(self.segments@.take(i + 1int)));
            }
            i = i + 1;
        }
        let mut tail = self.tail;
        proof {
            assert(self.segments@.take(n as int) =~= self.segments@);
        }
        out.append(&mut tail);
        out
    }

    /// How many leading fragments transmission may already send under the
    /// in-order discipline: everything up to the first fragment that is
    /// still pending, which holds back all output after it until it
    /// settles.
    pub fn transmissible_prefix(&self) -> (n: usize)
        ensures
            n <= self.segments@.len(),
            forall|i: int| 0 <= i < n ==> (#[trigger] self.segments@[i]).is_settled(),
            n < self.segments@.len() ==> !self.segments@[n as int].is_settled(),
    {
        let mut i: usize = 0;
        let len = self.segments.len();
        while i < len
            invariant
                0 <= i <= len,
                len == self.segments@.len(),
                forall|j: int| 0 <= j < i ==> (#[trigger] self.segments@[j]).is_settled(),
            decreases len - i,
        {
            let settled = match &self.segments[i] {
                Segment::Ready { .. } => true,
                Segment::Deferred { resolved, .. } => *resolved,
                Segment::Slot { content, .. } => content.is_some(),
            };
            if !settled {
                return i;
            }
            i = i + 1;
        }
        i
    }

    /// Position of the unresolved out-of-order fragment carrying `id`.
    fn find_deferred(&self, id: u64) -> (idx: usize)
        requires
            deferred_at(self.segments@, id, false),
        ensures
            idx < self.segments@.len(),
            is_deferred_with(self.segments@[idx as int], id, false),
    {
        let mut i: usize = 0;
        let n = self.segments.len();
        loop
            invariant
                0 <= i <= n,
                n == self.segments@.len(),
                deferred_at(self.segments@, id, false),
                forall|j: int| 0 <= j < i ==> !is_deferred_with(#[trigger] self.segments@[j], id, false),
            decreases n - i,
        {
            proof {
                if i == n {
                    assert(false);
                }
            }
            let hit = match &self.segments[i] {
                Segment::Deferred { id: sid, resolved, .. } => *sid == id && !*resolved,
                _ => false,
            };
            if hit {
                return i;
            }
            i = i + 1;
        }
    }

    /// Position of the open in-order slot carrying `id`.
    fn find_slot(&self, id: u64) -> (idx: usize)
        requires
            open_slot_at(self.segments@, id),
        ensures
            idx < self.segments@.len(),
            is_open_slot(self.segments@[idx as int], id),
    {
        let mut i: usize = 0;
        let n = self.segments.len();
        loop
            invariant
                0 <= i <= n,
                n == self.segments@.len(),
                open_slot_at(self.segments@, id),
                forall|j: int| 0 <= j < i ==> !is_open_slot(#[trigger] self.segments@[j], id),
            decreases n - i,
        {
            proof {
                if i == n {
                    assert(false);
                }
            }
            let hit = match &self.segments[i] {
                Segment::Slot { id: sid, content } => *sid == id && content.is_none(),
                _ => false,
            };
            if hit {
                return i;
            }
            i = i + 1;
        }
    }
}

/// A segment's identity, if any, lies below the bound.
pub open spec fn ident_below(s: Segment, bound: u64) -> bool {
    s.ident() matches Some(id) ==> id < bound
}

/// The bytes a chunk contributes to the transmitted stream.
pub open spec fn chunk_bytes(c: StreamChunk) -> Seq<char> {
    match c {
        StreamChunk::Sync { markup } => markup@,
        StreamChunk::FallbackMarked { fallback, .. } => fallback@,
        StreamChunk::OutOfOrder { content, .. } => content@,
    }
}

/// The bytes of a chunk sequence, concatenated in stream order.
pub open spec fn stream_bytes(chunks: Seq<StreamChunk>) -> Seq<char>
    decreases chunks.len(),
{
    if chunks.len() == 0 {
        Seq::empty()
    } else {
        chunk_bytes(chunks[0]) + stream_bytes(chunks.drop_first())
    }
}

/// The final content of each fragment, concatenated in source-tree order.
pub open spec fn source_bytes(segs: Seq<Segment>) -> Seq<char>
    decreases segs.len(),
{
    if segs.len() == 0 {
        Seq::empty()
    } else {
        chunk_bytes(chunk_of(segs[0])) + source_bytes(segs.drop_first())
    }
}

/// Appending a fragment keeps every already-resolved fragment resolved.
proof fn lemma_push_keeps_deferred(segs: Seq<Segment>, s: Segment)
    ensures
        forall|id: u64|
            deferred_at(segs, id, true) ==> #[trigger] deferred_at(segs.push(s), id, true),
{
    assert forall|id: u64| deferred_at(segs, id, true) implies #[trigger] deferred_at(
        segs.push(s),
        id,
        true,
    ) by {
        let i = choose|i: int| 0 <= i < segs.len() && is_deferred_with(#[trigger] segs[i], id, true);
        assert(segs.push(s)[i] == segs[i]);
    }
}

/// Resolving one fragment preserves well-formedness.
proof fn lemma_wf_after_resolve(
    pre: StreamChunker,
    post: StreamChunker,
    i: int,
    id: u64,
    content: String,
)
    requires
        pre.wf(),
        0 <= i < pre.segments@.len(),
        is_deferred_with(pre.segments@[i], id, false),
        post.segments@ == pre.segments@.update(
            i,
            Segment::Deferred {
                id,
                fallback: pre.segments@[i]->Deferred_fallback,
                resolved: true,
            },
        ),
        post.tail@ == pre.tail@.push(StreamChunk::OutOfOrder { id, content }),
        post.next_id == pre.next_id,
    ensures
        post.wf(),
{
    let segs = post.segments@;
    let pre_segs = pre.segments@;
    assert forall|k: int| 0 <= k < post.tail@.len() implies tail_entry_ok(
        segs,
        #[trigger] post.tail@[k],
    ) by {
        if k < pre.tail@.len() {
            let cid = pre.tail@[k]->OutOfOrder_id;
            let j = choose|j: int|
                0 <= j < pre_segs.len() && is_deferred_with(#[trigger] pre_segs[j], cid, true);
            assert(is_deferred_with(segs[j], cid, true));
        } else {
            assert(is_deferred_with(segs[i], id, true));
        }
    }
    assert forall|k1: int, k2: int| 0 <= k1 < k2 < post.tail@.len() implies (
    #[trigger] post.tail@[k1]).ident() != (#[trigger] post.tail@[k2]).ident() by {
        if k2 == pre.tail@.len() {
            // the new chunk's identity was unresolved before, so no older
            // tail chunk can carry it
            if post.tail@[k1].ident() == Some(id) {
                let j = choose|j: int|
                    0 <= j < pre_segs.len() && is_deferred_with(#[trigger] pre_segs[j], id, true);
                assert(pre_segs[j].ident() == Some(id));
                assert(pre_segs[i].ident() == Some(id));
                assert(j == i);
                assert(false);
            }
        }
    }
    assert forall|j: int| 0 <= j < segs.len() implies resolved_has_tail(
        post.tail@,
        #[trigger] segs[j],
    ) by {
        if segs[j] is Deferred && segs[j]->Deferred_resolved {
            let s2 = segs[j]->Deferred_id;
            if j == i {
                assert(post.tail@[post.tail@.len() - 1].ident() == Some(id));
            } else {
                assert(pre_segs[j] == segs[j]);
                assert(tail_has_ident(pre.tail@, s2));
                let k = choose|k: int|
                    0 <= k < pre.tail@.len() && (#[trigger] pre.tail@[k]).ident() == Some(s2);
                assert(post.tail@[k].ident() == Some(s2));
            }
        }
    }
}

/// Filling one slot preserves well-formedness.
proof fn lemma_wf_after_fill(pre: StreamChunker, post: StreamChunker, i: int)
    requires
        pre.wf(),
        0 <= i < pre.segments@.len(),
        pre.segments@[i] is Slot,
        post.segments@ == pre.segments@.update(
            i,
            Segment::Slot {
                id: pre.segments@[i]->Slot_id,
                content: post.segments@[i]->Slot_content,
            },
        ),
        post.segments@[i] is Slot,
        post.tail@ == pre.tail@,
        post.next_id == pre.next_id,
    ensures
        post.wf(),
{
    let segs = post.segments@;
    let pre_segs = pre.segments@;
    assert forall|k: int| 0 <= k < post.tail@.len() implies tail_entry_ok(
        segs,
        #[trigger] post.tail@[k],
    ) by {
        let cid = pre.tail@[k]->OutOfOrder_id;
        let j = choose|j: int|
            0 <= j < pre_segs.len() && is_deferred_with(#[trigger] pre_segs[j], cid, true);
        assert(j != i);
        assert(segs[j] == pre_segs[j]);
        assert(is_deferred_with(segs[j], cid, true));
    }
    assert forall|j: int| 0 <= j < segs.len() implies resolved_has_tail(
        post.tail@,
        #[trigger] segs[j],
    ) by {
        if segs[j] is Deferred && segs[j]->Deferred_resolved {
            assert(j != i);
            assert(pre_segs[j] == segs[j]);
        }
    }
}

} // verus!
