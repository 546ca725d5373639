use suspense::computation::{Computation, FutureViewExt};
use suspense::events::Event;
use suspense::suspend::Suspend;
use suspense::{Cursor, RenderError, RenderMode, TransitionPolicy};

fn suspend(fallback: &str, fut: Computation) -> Suspend {
    Suspend {
        fallback: fallback.to_string(),
        fut,
        policy: TransitionPolicy::Replace,
    }
}

#[test]
fn fast_path_never_shows_fallback() {
    let node = suspend("Loading…", Computation::done("Done".to_string()));
    let state = node.build();
    assert_eq!(state.mode, RenderMode::Ready);
    assert_eq!(state.showing(), "Done");
    assert_eq!(state.pending, 0);
    assert_eq!(state.events, vec![Event::MountReady]);
    assert!(!state.events.contains(&Event::MountFallback));
}

#[test]
fn scenario_a_fallback_then_done() {
    let node = suspend("Loading…", Computation::pending());
    let mut state = node.build();
    assert_eq!(state.showing(), "Loading…");
    assert_eq!(state.mode, RenderMode::Fallback);
    assert_eq!(state.pending, 1);
    assert_eq!(state.events, vec![Event::MountFallback]);
    // the scheduled task delivers the resolution on the next tick
    state.complete("Done".to_string());
    assert_eq!(state.showing(), "Done");
    assert_eq!(state.mode, RenderMode::Ready);
    assert_eq!(state.pending, 0);
    assert_eq!(
        state.events,
        vec![Event::MountFallback, Event::MountReady, Event::UnmountFallback]
    );
}

#[test]
fn scenario_b_transition_rebuild_keeps_content() {
    let node = suspend("Loading…", Computation::done("A".to_string()));
    let mut state = node.build();
    assert_eq!(state.showing(), "A");
    let next = suspend("Loading…", Computation::pending()).transition();
    next.rebuild(&mut state);
    // content remains "A" until "B" resolves: no intermediate fallback
    assert_eq!(state.showing(), "A");
    assert_eq!(state.mode, RenderMode::Ready);
    assert_eq!(state.pending, 1);
    state.complete("B".to_string());
    assert_eq!(state.showing(), "B");
    assert!(!state.events.contains(&Event::MountFallback));
}

#[test]
fn scenario_c_replace_rebuild_reverts_to_fallback() {
    let node = suspend("Loading…", Computation::done("A".to_string()));
    let mut state = node.build();
    assert_eq!(state.showing(), "A");
    let next = suspend("Loading…", Computation::pending());
    next.rebuild(&mut state);
    // content reverts to fallback immediately upon rebuild
    assert_eq!(state.showing(), "Loading…");
    assert_eq!(state.mode, RenderMode::Fallback);
    assert_eq!(
        state.events,
        vec![Event::MountReady, Event::MountFallback, Event::UnmountReady]
    );
    state.complete("B".to_string());
    assert_eq!(state.showing(), "B");
}

#[test]
fn replace_rebuild_from_fallback_updates_in_place() {
    let node = suspend("first", Computation::pending());
    let mut state = node.build();
    let next = suspend("second", Computation::pending());
    next.rebuild(&mut state);
    assert_eq!(state.showing(), "second");
    assert_eq!(state.pending, 2);
    assert_eq!(state.events, vec![Event::MountFallback, Event::UpdateFallback]);
}

#[test]
fn last_outstanding_resolution_wins() {
    let node = suspend("Loading…", Computation::pending());
    let mut state = node.build();
    let next = suspend("Loading…", Computation::pending()).transition();
    next.rebuild(&mut state);
    assert_eq!(state.pending, 2);
    state.complete("old".to_string());
    state.complete("new".to_string());
    assert_eq!(state.showing(), "new");
    assert_eq!(state.pending, 0);
}

#[test]
fn poll_once_consumes_the_outcome() {
    let mut done = Computation::done("value".to_string());
    assert!(!done.polled);
    assert_eq!(done.poll_once(), Some("value".to_string()));
    assert!(done.polled);
    assert_eq!(done.outcome, None);

    let mut pending = Computation::pending();
    assert_eq!(pending.poll_once(), None);
    assert!(pending.polled);
}

#[test]
fn resolve_yields_the_completed_value() {
    let node = suspend("Loading…", Computation::done("Done".to_string()));
    assert_eq!(node.resolve(), Some("Done".to_string()));
    let node = suspend("Loading…", Computation::pending());
    assert_eq!(node.resolve(), None);
}

#[test]
fn resolved_node_returns_same_value_without_repolling() {
    let node = suspend("Loading…", Computation::done("Done".to_string()));
    let state = node.build();
    assert_eq!(state.ready_content(), &Some("Done".to_string()));
    assert_eq!(state.ready_content(), &Some("Done".to_string()));
}

#[test]
fn suspend_builder_methods() {
    let node = Computation::pending().suspend();
    assert_eq!(node.fallback, "");
    assert_eq!(node.policy, TransitionPolicy::Replace);
    let node = node.with_fallback("wait".to_string());
    assert_eq!(node.fallback, "wait");
    assert_eq!(node.policy, TransitionPolicy::Replace);
    let node = node.transition();
    assert_eq!(node.fallback, "wait");
    assert_eq!(node.policy, TransitionPolicy::Transition);
}

#[test]
fn fallible_operations_report_unsupported() {
    let node = suspend("Loading…", Computation::pending());
    assert!(matches!(node.try_build(), Err(RenderError::Unsupported)));
    let node = suspend("Loading…", Computation::done("A".to_string()));
    let mut state = node.build();
    let next = suspend("Loading…", Computation::pending());
    assert!(matches!(next.try_rebuild(&mut state), Err(RenderError::Unsupported)));
    // the failed rebuild left the state untouched
    assert_eq!(state.showing(), "A");
}

#[test]
fn hydrate_reuses_markup_at_the_cursor() {
    let mut cursor = Cursor::new();
    let node = suspend("Loading…", Computation::done("Done".to_string()));
    let state = node.hydrate(&mut cursor);
    assert_eq!(cursor.position, 1);
    assert_eq!(state.mode, RenderMode::Ready);
    assert_eq!(state.showing(), "Done");
    assert_eq!(state.events, vec![Event::AttachReady]);

    let node = suspend("Loading…", Computation::pending());
    let mut state = node.hydrate(&mut cursor);
    assert_eq!(cursor.position, 2);
    assert_eq!(state.mode, RenderMode::Fallback);
    assert_eq!(state.events, vec![Event::AttachFallback]);
    assert_eq!(state.pending, 1);
    state.complete("Done".to_string());
    assert_eq!(state.showing(), "Done");
}

#[test]
fn mount_and_unmount_log_the_active_branch() {
    let node = suspend("Loading…", Computation::pending());
    let mut state = node.build();
    state.unmount();
    state.mount();
    assert_eq!(
        state.events,
        vec![Event::MountFallback, Event::UnmountFallback, Event::MountFallback]
    );
    state.complete("Done".to_string());
    state.unmount();
    assert_eq!(state.events.last(), Some(&Event::UnmountReady));
}
