use hyprshell::release::{ModifierState, Outcome, ReleaseState};

fn snapshot(pressed: bool) -> ModifierState {
    ModifierState {
        pressed,
        pending_opens: false,
    }
}

fn query(state: &mut ReleaseState, held: bool) -> Outcome {
    let id = state.request(true).expect("open selection can query");
    state.result(id, Ok(Some(snapshot(held))))
}

#[test]
fn release_before_open_and_missed_event_commit() {
    let mut state = ReleaseState::default();
    state.release(); // close-before-open IPC
    assert!(state.open(None));
    assert_eq!(query(&mut state, false), Outcome::Commit);
    assert!(!state.open);
    assert!(state.open(Some(10)));
    assert_eq!(query(&mut state, true), Outcome::Held);
    // No release event arrives during the GTK focus handoff.
    assert_eq!(query(&mut state, false), Outcome::Commit);
}

#[test]
fn held_state_rejects_stale_close_and_both_side_handoffs() {
    let mut state = ReleaseState::default();
    state.open(None);
    for (left, right) in [
        (true, false),
        (true, true),
        (false, true),
        (true, true),
        (true, false),
    ] {
        state.release();
        assert_eq!(query(&mut state, left || right), Outcome::Held);
        assert!(state.open);
    }
    assert_eq!(query(&mut state, false), Outcome::Commit);
}

#[test]
fn queued_navigation_invalidates_older_commit() {
    let mut state = ReleaseState::default();
    state.open(None);
    let old = state.request(true).expect("first request");
    // A navigation already ahead of the result in the component queue wins.
    state.navigation();
    let new = state.request(true).expect("replacement request");
    assert_eq!(
        state.result(old, Ok(Some(snapshot(false)))),
        Outcome::Ignore
    );
    assert!(state.is_current(new));
    assert_eq!(
        state.result(new, Ok(Some(snapshot(false)))),
        Outcome::Commit
    );
}

#[test]
fn issued_navigation_must_arrive_before_release_commits() {
    let mut state = ReleaseState::default();
    state.open(Some(10));
    let id = state.request(true).expect("query");
    assert_eq!(
        state.result(
            id,
            Ok(Some(ModifierState {
                pressed: false,
                pending_opens: true
            }))
        ),
        Outcome::Held
    );
    assert!(
        state.open,
        "keep original snapshot until issued navigation arrives"
    );
    state.open(Some(11));
    let id = state.request(true).expect("query after navigation");
    assert_eq!(
        state.result(
            id,
            Ok(Some(ModifierState {
                pressed: false,
                pending_opens: false
            }))
        ),
        Outcome::Commit
    );
}

#[test]
fn cancellation_delayed_open_and_next_quick_chord() {
    let mut state = ReleaseState::default();
    state.open(Some(99));
    let old = state.request(true).expect("query");
    state.cancel(100);
    assert!(!state.open(Some(99)));
    assert!(!state.open(Some(100)));
    assert_eq!(
        state.result(old, Ok(Some(snapshot(false)))),
        Outcome::Ignore
    );
    assert!(state.open(Some(101)));
    assert_eq!(query(&mut state, false), Outcome::Commit);
    state.cancel(102);
    assert!(state.open(None)); // Explicit IPC is a new request.
    assert_eq!(query(&mut state, false), Outcome::Commit);
}

#[test]
fn wraparound_and_close_reopen_reject_old_results() {
    let mut state = ReleaseState::default();
    state.cancel(2);
    assert!(!state.open(Some(u32::MAX - 2)));
    state.cancel(u32::MAX - 2);
    assert!(state.open(Some(2)));
    let old = state.request(true).expect("query");
    state.close();
    assert!(state.request(false).is_none());
    state.open(None);
    let new = state.request(true).expect("reopened query");
    assert_eq!(state.result(old, Ok(None)), Outcome::Ignore);
    assert!(state.is_current(new));
    assert_eq!(state.result(new, Ok(Some(snapshot(true)))), Outcome::Held);
}

#[test]
fn malformed_and_timeout_are_not_release_and_warn_once_until_success() {
    let mut state = ReleaseState::default();
    state.open(None);
    for error in ["malformed", "timeout", "timeout"] {
        let id = state.request(false).expect("retry");
        assert!(state.request(false).is_none(), "one in-flight query");
        let outcome = state.result(id, Err(error.into()));
        assert_eq!(
            outcome,
            if error == "malformed" {
                Outcome::Warn(error.into())
            } else {
                Outcome::Ignore
            }
        );
        assert!(state.open);
    }
    assert_eq!(query(&mut state, true), Outcome::Held);
    let id = state.request(false).expect("query");
    assert_eq!(
        state.result(id, Err("timeout".into())),
        Outcome::Warn("timeout".into())
    );
}

#[test]
fn unsupported_needs_release_evidence_and_known_seat_state() {
    let mut state = ReleaseState::default();
    state.open(None);
    let id = state.request(true).expect("capability probe");
    assert_eq!(state.result(id, Ok(None)), Outcome::Unsupported);
    assert!(
        state.request(false).is_none(),
        "stop polling unsupported IPC"
    );
    assert!(
        state.event_request().is_none(),
        "Shift/navigation is not release evidence"
    );
    for held in [Some(true), None] {
        state.release();
        let id = state.event_request().expect("release event");
        assert_eq!(state.event_result(id, held), Outcome::Held);
        assert!(state.open);
    }
    state.release();
    let old = state.event_request().expect("event");
    state.navigation();
    assert_eq!(state.event_result(old, Some(false)), Outcome::Ignore);
    state.release();
    let id = state.event_request().expect("final side released");
    assert_eq!(state.event_result(id, Some(false)), Outcome::Commit);
}

#[test]
fn release_during_capability_probe_is_preserved_but_cancel_removes_it() {
    let mut state = ReleaseState::default();
    state.open(None);
    let id = state.request(true).expect("probe");
    state.release();
    assert_eq!(state.result(id, Ok(None)), Outcome::Unsupported);
    let old = state.event_request().expect("pending release");
    state.cancel(10);
    state.open(Some(11));
    assert_eq!(state.event_result(old, Some(false)), Outcome::Ignore);
    assert!(state.open);
}

#[test]
fn only_the_latest_unretired_query_is_current() {
    let mut state = ReleaseState::default();
    state.open(None);
    let first = state.request(false).expect("open and idle");
    assert!(state.is_current(first));
    state.release();
    assert!(state.is_current(first));
    let second = state.request(true).expect("refresh");
    assert!(!state.is_current(first));
    assert!(state.is_current(second));
    state.invalidate();
    assert!(!state.is_current(second));
    let third = state.request(false).expect("nothing in flight");
    state.navigation();
    assert!(!state.is_current(third));
}

#[test]
fn every_issued_request_id_is_new() {
    let mut state = ReleaseState::default();
    state.open(None);
    let mut seen = Vec::new();
    for _ in 0..5 {
        let id = state.request(true).expect("open overlay can query");
        assert!(!seen.contains(&id));
        seen.push(id);
        state.invalidate();
        assert!(!state.is_current(id));
    }
}
