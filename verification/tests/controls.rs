use hyprshell::capture::{
    after_refresh, capture_next_after, plan_capture, FrameStats, RefreshStep, TickStats, TimerChange,
};
use hyprshell::capture_state::{
    choose_modifiers, join_u64, pending_count, split_u64, CaptureError, CaptureState, FramePlan,
    MOD_INVALID, MOD_LINEAR, RESIZE_SETTLE_NS,
};
use hyprshell::config::Modifier;
use hyprshell::editor::{handle_key, HeldModifiers};
use hyprshell::overview::{focus_target, Active, FocusTarget, OverviewAction, OverviewControl};
use hyprshell::transfer::Direction;

#[test]
fn overview_opens_toggles_and_focuses_on_close() {
    let mut o = OverviewControl::new();
    assert_eq!(o.open_requested(), vec![OverviewAction::OpenLauncher, OverviewAction::Show]);
    assert!(o.open);
    assert_eq!(o.open_requested(), vec![OverviewAction::RequestClose(false)]);
    assert_eq!(o.switch(Direction::Up, false), vec![]);
    assert_eq!(o.switch(Direction::Up, true), vec![OverviewAction::Navigate(Direction::Up, true)]);
    assert_eq!(o.switch(Direction::Left, false), vec![OverviewAction::Navigate(Direction::Left, false)]);
    assert_eq!(o.click_client(42), vec![OverviewAction::RequestClose(true)]);
    assert_eq!(
        o.close(true),
        vec![
            OverviewAction::CloseLauncher,
            OverviewAction::Hide,
            OverviewAction::Focus(FocusTarget::Client(42))
        ]
    );
    assert!(!o.open);
    assert_eq!(o.close(true), vec![]);
    assert_eq!(o.close_item(1), vec![OverviewAction::Reload]);
    o.open_requested();
    assert_eq!(o.close_item(1), vec![OverviewAction::Kill(1), OverviewAction::Reload]);
    o.click_workspace(3);
    assert_eq!(o.active.client, None);
    assert_eq!(o.close(false), vec![OverviewAction::CloseLauncher, OverviewAction::Hide]);
    assert_eq!(
        focus_target(Active { client: None, workspace: 3, monitor: 0 }),
        FocusTarget::Workspace(3)
    );
}

#[test]
fn capture_decisions_and_statistics() {
    assert_eq!(plan_capture(true, false, true).restart, true);
    assert_eq!(plan_capture(true, true, false).restart, false);
    assert!(plan_capture(false, true, false).take);
    assert!(capture_next_after(true, true));
    assert!(!capture_next_after(true, false));
    assert!(!capture_next_after(false, true));
    let mut t = TickStats::new();
    t.record(Some(FrameStats { latency: Some(5), damage_count: 0, damage_area: 10, buffer_area: 100 }));
    t.record(None);
    t.record(Some(FrameStats { latency: Some(3), damage_count: 2, damage_area: 20, buffer_area: 100 }));
    assert_eq!(t.ready, 3);
    assert_eq!(t.no_damage, 1);
    assert_eq!(t.damage_area, 30);
    assert_eq!(t.buffer_area, 200);
    assert_eq!(t.max_latency, 5);
}

#[test]
fn key_editor_picks_the_modifier() {
    assert_eq!(
        handle_key("Super_L", HeldModifiers::Other),
        Some(("Super_L".to_string(), Modifier::Super, "Super + Super_L".to_string()))
    );
    assert_eq!(
        handle_key("t", HeldModifiers::OnlyCtrl),
        Some(("t".to_string(), Modifier::Ctrl, "Ctrl + t".to_string()))
    );
    assert_eq!(
        handle_key("F1", HeldModifiers::Nothing),
        Some(("F1".to_string(), Modifier::NoModifier, "F1".to_string()))
    );
    assert_eq!(handle_key("t", HeldModifiers::Other), None);
}

#[test]
fn first_frames_burst_then_slow_refresh() {
    assert_eq!(after_refresh(true, 2, 500), RefreshStep { burst: true, timer: TimerChange::Keep });
    assert_eq!(after_refresh(true, 0, 500), RefreshStep { burst: false, timer: TimerChange::Slow(500) });
    assert_eq!(after_refresh(true, 0, 0), RefreshStep { burst: false, timer: TimerChange::Stop });
    assert_eq!(after_refresh(false, 0, 500), RefreshStep { burst: false, timer: TimerChange::Keep });
    assert_eq!(after_refresh(false, 3, 0), RefreshStep { burst: false, timer: TimerChange::Keep });
}

#[test]
fn buffer_layout_prefers_linear_and_drops_invalid() {
    assert_eq!(choose_modifiers(&vec![5, MOD_INVALID, 0, 7]), vec![MOD_LINEAR]);
    assert_eq!(choose_modifiers(&vec![5, MOD_INVALID, 7]), vec![5, 7]);
    assert_eq!(choose_modifiers(&vec![MOD_INVALID]), Vec::<u64>::new());
    assert_eq!(choose_modifiers(&vec![]), Vec::<u64>::new());
}

#[test]
fn halves_split_and_join() {
    let v: u64 = 0x0123_4567_89AB_CDEF;
    assert_eq!(split_u64(v), (0x0123_4567, 0x89AB_CDEF));
    assert_eq!(join_u64(0x0123_4567, 0x89AB_CDEF), v);
    let (hi, lo) = split_u64(u64::MAX);
    assert_eq!(join_u64(hi, lo), u64::MAX);
    assert_eq!(split_u64(7), (0, 7));
}

#[test]
fn capture_waits_for_resize_to_settle() {
    let mut s = CaptureState::new();
    s.on_buffer_size(100, 50, 10);
    assert_eq!(s.size_changed_at, None);
    assert_eq!(s.plan_frame(20), Ok(FramePlan::Capture));
    s.frame_requested(20);
    assert!(s.is_pending());
    s.on_damage(-10, 5);
    s.on_damage(2, 3);
    assert_eq!(s.damage_count, 2);
    assert_eq!(s.damage_area, 56);
    s.on_ready();
    assert!(!s.is_pending());
    let stats = s.frame_stats(100, 50, 1_000_020);
    assert_eq!(stats.latency, Some(1_000_000));
    assert_eq!(stats.buffer_area, 5000);
    assert_eq!(stats.damage_area, 56);

    s.on_buffer_size(200, 80, 1_000);
    assert_eq!(s.size_changed_at, Some(1_000));
    assert_eq!(s.plan_frame(1_000 + RESIZE_SETTLE_NS), Ok(FramePlan::Wait));
    assert_eq!(s.plan_frame(1_001 + RESIZE_SETTLE_NS), Ok(FramePlan::Reallocate(200, 80)));
    assert_eq!(s.size_changed_at, None);
    assert_eq!(s.plan_frame(2_000 + RESIZE_SETTLE_NS), Ok(FramePlan::Capture));
    s.frame_requested(5);
    assert!(s.is_pending());
    assert_eq!(s.damage_count, 0);
    s.on_failed();
    assert!(!s.is_pending());
}

#[test]
fn resize_without_size_is_an_error() {
    let mut s = CaptureState::new();
    s.size_changed_at = Some(0);
    assert_eq!(s.plan_frame(RESIZE_SETTLE_NS + 1), Err(CaptureError::NoBufferGeometry));
    assert_eq!(s.size_changed_at, None);
}

#[test]
fn counts_pending_captures() {
    let mut a = CaptureState::new();
    let b = CaptureState::new();
    let mut c = CaptureState::new();
    a.on_ready();
    c.on_failed();
    assert_eq!(pending_count(&vec![a, b, c]), 1);
    assert_eq!(pending_count(&vec![]), 0);
}
