use suspense::computation::Computation;
use suspense::stream::{StreamChunk, StreamChunker};
use suspense::suspend::Suspend;
use suspense::TransitionPolicy;

fn suspend(fallback: &str, fut: Computation) -> Suspend {
    Suspend {
        fallback: fallback.to_string(),
        fut,
        policy: TransitionPolicy::Replace,
    }
}

fn sync(markup: &str) -> StreamChunk {
    StreamChunk::Sync {
        markup: markup.to_string(),
    }
}

#[test]
fn complete_content_streams_inline_without_identity() {
    let mut buf = StreamChunker::new();
    let node = suspend("Loading…", Computation::done("Done".to_string()));
    let id = node.to_html_async_with_buf(&mut buf, true);
    assert_eq!(id, None);
    assert_eq!(buf.next_id, 1);
    let chunks = buf.finish();
    assert_eq!(chunks, vec![sync("Done")]);
}

#[test]
fn scenario_d_out_of_order_single_pending_fragment() {
    let mut buf = StreamChunker::new();
    buf.push_sync("head".to_string());
    let node = suspend("Loading…", Computation::pending());
    let id = node.to_html_async_with_buf(&mut buf, true).unwrap();
    assert_eq!(id, 1);
    buf.push_sync("tail".to_string());
    // the background resolution arrives after the rest of the pass
    buf.resolve_out_of_order(id, "Done".to_string());
    let chunks = buf.finish();
    assert_eq!(
        chunks,
        vec![
            sync("head"),
            StreamChunk::FallbackMarked {
                id: 1,
                fallback: "Loading…".to_string()
            },
            sync("tail"),
            StreamChunk::OutOfOrder {
                id: 1,
                content: "Done".to_string()
            },
        ]
    );
}

#[test]
fn out_of_order_fragments_keep_position_whatever_the_completion_order() {
    let mut buf = StreamChunker::new();
    let first = suspend("one?", Computation::pending())
        .to_html_async_with_buf(&mut buf, true)
        .unwrap();
    buf.push_sync("mid".to_string());
    let second = suspend("two?", Computation::pending())
        .to_html_async_with_buf(&mut buf, true)
        .unwrap();
    assert_eq!((first, second), (1, 2));
    // the second fragment completes before the first
    buf.resolve_out_of_order(second, "two".to_string());
    buf.resolve_out_of_order(first, "one".to_string());
    let chunks = buf.finish();
    assert_eq!(
        chunks,
        vec![
            StreamChunk::FallbackMarked {
                id: 1,
                fallback: "one?".to_string()
            },
            sync("mid"),
            StreamChunk::FallbackMarked {
                id: 2,
                fallback: "two?".to_string()
            },
            StreamChunk::OutOfOrder {
                id: 2,
                content: "two".to_string()
            },
            StreamChunk::OutOfOrder {
                id: 1,
                content: "one".to_string()
            },
        ]
    );
}

#[test]
fn in_order_bytes_follow_source_order() {
    let mut buf = StreamChunker::new();
    let first = suspend("one?", Computation::pending())
        .to_html_async_with_buf(&mut buf, false)
        .unwrap();
    buf.push_sync("mid".to_string());
    let second = suspend("two?", Computation::pending())
        .to_html_async_with_buf(&mut buf, false)
        .unwrap();
    // completions arrive in reverse source order
    buf.fill_slot(second, "two".to_string());
    buf.fill_slot(first, "one".to_string());
    let chunks = buf.finish();
    assert_eq!(chunks, vec![sync("one"), sync("mid"), sync("two")]);
    let bytes: String = chunks
        .iter()
        .map(|c| match c {
            StreamChunk::Sync { markup } => markup.as_str(),
            _ => unreachable!(),
        })
        .collect();
    assert_eq!(bytes, "onemidtwo");
}

#[test]
fn sync_markup_renders_the_fallback() {
    let mut buf = StreamChunker::new();
    let node = suspend("Loading…", Computation::pending());
    node.to_html_with_buf(&mut buf);
    assert_eq!(buf.finish(), vec![sync("Loading…")]);
}

#[test]
fn in_order_transmission_halts_at_the_first_pending_fragment() {
    let mut buf = StreamChunker::new();
    buf.push_sync("head".to_string());
    let id = suspend("wait", Computation::pending())
        .to_html_async_with_buf(&mut buf, false)
        .unwrap();
    buf.push_sync("tail".to_string());
    // everything after the pending fragment is held back
    assert_eq!(buf.transmissible_prefix(), 1);
    buf.fill_slot(id, "done".to_string());
    assert_eq!(buf.transmissible_prefix(), 3);
}

#[test]
fn identities_are_fresh_and_monotonic() {
    let mut buf = StreamChunker::new();
    let a = buf.push_deferred("a".to_string());
    let b = buf.push_slot();
    let c = buf.push_deferred("c".to_string());
    assert_eq!((a, b, c), (1, 2, 3));
    assert_eq!(buf.next_id, 4);
}
