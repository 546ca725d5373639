use suspense::boundary::SuspenseBoundary;
use suspense::computation::Computation;
use suspense::events::Event;
use suspense::stream::{StreamChunk, StreamChunker};
use suspense::{Cursor, RenderError, RenderMode, TransitionPolicy};

fn boundary(fallback: &str, children: Computation) -> SuspenseBoundary {
    SuspenseBoundary::new(false, Some(fallback.to_string()), children)
}

#[test]
fn new_records_its_inputs() {
    let b = boundary("Loading…", Computation::pending());
    assert!(!b.in_fallback);
    assert_eq!(b.fallback, Some("Loading…".to_string()));
    assert_eq!(b.policy, TransitionPolicy::Replace);
    let b = b.transition();
    assert_eq!(b.policy, TransitionPolicy::Transition);
}

#[test]
fn build_mounts_fallback_and_schedules_resolution() {
    let b = boundary("Loading…", Computation::pending());
    let mut state = b.build();
    assert_eq!(state.showing(), "Loading…");
    assert_eq!(state.pending, 1);
    assert_eq!(state.events, vec![Event::MountFallback]);
    state.complete("Done".to_string());
    assert_eq!(state.showing(), "Done");
    assert_eq!(state.pending, 0);
    assert_eq!(
        state.events,
        vec![Event::MountFallback, Event::MountReady, Event::UnmountFallback]
    );
}

#[test]
fn transition_rebuild_keeps_children_until_new_resolution() {
    let b = boundary("Loading…", Computation::pending());
    let mut state = b.build();
    state.complete("A".to_string());
    let next = boundary("Loading…", Computation::pending()).transition();
    next.rebuild(&mut state);
    assert_eq!(state.showing(), "A");
    assert_eq!(state.pending, 1);
    state.complete("B".to_string());
    assert_eq!(state.showing(), "B");
    assert_eq!(state.events.last(), Some(&Event::UpdateReady));
}

#[test]
fn replace_rebuild_remounts_fallback() {
    let b = boundary("Loading…", Computation::pending());
    let mut state = b.build();
    state.complete("A".to_string());
    let next = boundary("Loading…", Computation::pending());
    next.rebuild(&mut state);
    assert_eq!(state.showing(), "Loading…");
    assert_eq!(state.pending, 1);
    assert_eq!(
        state.events,
        vec![
            Event::MountFallback,
            Event::MountReady,
            Event::UnmountFallback,
            Event::MountFallback,
            Event::UnmountReady,
        ]
    );
    state.complete("B".to_string());
    assert_eq!(state.showing(), "B");
}

#[test]
fn resolve_returns_the_boundary_itself() {
    let b = boundary("Loading…", Computation::done("inner".to_string()));
    let r = b.resolve();
    assert_eq!(r.fallback, Some("Loading…".to_string()));
    assert_eq!(r.children.outcome, Some("inner".to_string()));
}

#[test]
fn boundary_fallible_operations_report_unsupported() {
    let b = boundary("Loading…", Computation::pending());
    assert!(matches!(b.try_build(), Err(RenderError::Unsupported)));
    let b = boundary("Loading…", Computation::pending());
    let mut state = boundary("Loading…", Computation::pending()).build();
    assert!(matches!(b.try_rebuild(&mut state), Err(RenderError::Unsupported)));
    assert_eq!(state.events, vec![Event::MountFallback]);
}

#[test]
fn streaming_emits_resolved_children_inline() {
    let mut buf = StreamChunker::new();
    let b = boundary("Loading…", Computation::done("inner".to_string()));
    let id = b.to_html_async_with_buf(&mut buf, true);
    assert_eq!(id, None);
    assert_eq!(
        buf.finish(),
        vec![StreamChunk::Sync {
            markup: "inner".to_string()
        }]
    );
}

#[test]
fn streaming_defers_pending_children_out_of_order() {
    let mut buf = StreamChunker::new();
    let b = boundary("Loading…", Computation::pending());
    let id = b.to_html_async_with_buf(&mut buf, true).unwrap();
    assert_eq!(id, 1);
    buf.resolve_out_of_order(id, "inner".to_string());
    assert_eq!(
        buf.finish(),
        vec![
            StreamChunk::FallbackMarked {
                id: 1,
                fallback: "Loading…".to_string()
            },
            StreamChunk::OutOfOrder {
                id: 1,
                content: "inner".to_string()
            },
        ]
    );
}

#[test]
fn boundary_sync_markup_renders_the_fallback() {
    let mut buf = StreamChunker::new();
    let b = boundary("Loading…", Computation::pending());
    b.to_html_with_buf(&mut buf);
    assert_eq!(
        buf.finish(),
        vec![StreamChunk::Sync {
            markup: "Loading…".to_string()
        }]
    );
}

#[test]
fn hydrate_attaches_to_existing_markup() {
    let mut cursor = Cursor::new();
    let b = boundary("Loading…", Computation::done("inner".to_string()));
    let state = b.hydrate(&mut cursor);
    assert_eq!(cursor.position, 1);
    assert_eq!(state.showing(), "inner");
    assert_eq!(state.pending, 0);
    assert_eq!(state.events, vec![Event::AttachReady]);

    let b = boundary("Loading…", Computation::pending());
    let mut state = b.hydrate(&mut cursor);
    assert_eq!(cursor.position, 2);
    assert_eq!(state.showing(), "Loading…");
    assert_eq!(state.pending, 1);
    assert_eq!(state.events, vec![Event::AttachFallback]);
    state.complete("inner".to_string());
    assert_eq!(state.showing(), "inner");
}

#[test]
fn mountable_operations_follow_the_active_branch() {
    let b = boundary("Loading…", Computation::pending());
    let mut state = b.build();
    assert_eq!(state.insert_before_this(), RenderMode::Fallback);
    state.unmount();
    state.mount();
    assert_eq!(
        state.events,
        vec![Event::MountFallback, Event::UnmountFallback, Event::MountFallback]
    );
    state.complete("Done".to_string());
    assert_eq!(state.insert_before_this(), RenderMode::Ready);
    state.unmount();
    assert_eq!(state.events.last(), Some(&Event::UnmountReady));
}
