use hyprshell::release::ModifierState;
use hyprshell::switch::{handle_key, KeyInput, SwitchAction, SwitchControl};
use hyprshell::transfer::Direction;

fn released() -> Result<Option<ModifierState>, String> {
    Ok(Some(ModifierState { pressed: false, pending_opens: false }))
}

fn held() -> Result<Option<ModifierState>, String> {
    Ok(Some(ModifierState { pressed: true, pending_opens: false }))
}

fn query_id(actions: &[SwitchAction]) -> u64 {
    actions
        .iter()
        .find_map(|a| match a {
            SwitchAction::Query(id) => Some(*id),
            _ => None,
        })
        .expect("a query")
}

#[test]
fn open_show_query_and_commit_on_release() {
    let mut c = SwitchControl::new();
    assert_eq!(c.open(Direction::Right, Some(5), Some(7)), vec![SwitchAction::Show(Direction::Right)]);
    assert_eq!(c.release.received, vec![7]);
    let a = c.shown(true);
    assert_eq!(a[0], SwitchAction::StartTimer);
    let id = query_id(&a);
    assert!(c.timer && c.query);
    assert_eq!(c.answer(id, held()), vec![]);
    assert!(c.release.open && !c.query);
    let a = c.check();
    let id = query_id(&a);
    let a = c.answer(id, released());
    assert_eq!(
        a,
        vec![SwitchAction::StopTimer, SwitchAction::Hide(true)]
    );
    assert!(!c.release.open && !c.timer && !c.query && c.commit);
}

#[test]
fn stale_answer_is_ignored_after_navigation() {
    let mut c = SwitchControl::new();
    c.open(Direction::Right, None, None);
    let a = c.shown(true);
    let old = query_id(&a);
    let a = c.switch(Direction::Left);
    assert_eq!(a[0], SwitchAction::Navigate(Direction::Left));
    assert_eq!(a[1], SwitchAction::AbortQuery);
    let new = query_id(&a);
    assert_ne!(old, new);
    assert_eq!(c.answer(old, released()), vec![]);
    assert!(c.release.open);
    assert_eq!(c.answer(new, released()).last(), Some(&SwitchAction::Hide(true)));
}

#[test]
fn periodic_check_waits_for_query_in_flight() {
    let mut c = SwitchControl::new();
    c.open(Direction::Right, None, None);
    c.shown(true);
    assert!(c.query);
    assert_eq!(c.check(), vec![]);
}

#[test]
fn failed_show_closes_without_work() {
    let mut c = SwitchControl::new();
    c.open(Direction::Right, None, None);
    assert_eq!(c.shown(false), vec![]);
    assert!(!c.release.open && !c.timer && !c.query);
}

#[test]
fn reopen_while_shown_navigates_and_cancels_commit() {
    let mut c = SwitchControl::new();
    c.open(Direction::Right, None, None);
    let a = c.shown(true);
    let id = query_id(&a);
    c.answer(id, released());
    assert!(c.commit);
    assert_eq!(c.open(Direction::Left, None, None), vec![SwitchAction::AbortCommit, SwitchAction::Show(Direction::Left)]);
    let a = c.open(Direction::Left, None, None);
    assert_eq!(a[0], SwitchAction::Navigate(Direction::Left));
}

#[test]
fn cancel_hides_and_refuses_older_opens() {
    let mut c = SwitchControl::new();
    c.open(Direction::Right, Some(10), None);
    c.shown(true);
    let a = c.cancel(20);
    assert_eq!(
        a,
        vec![SwitchAction::StopTimer, SwitchAction::AbortQuery, SwitchAction::Hide(false)]
    );
    assert_eq!(c.open(Direction::Right, Some(15), None), vec![]);
    assert_eq!(c.open(Direction::Right, Some(21), None), vec![SwitchAction::Show(Direction::Right)]);
}

#[test]
fn unsupported_compositor_uses_seat_queries_after_release_events() {
    let mut c = SwitchControl::new();
    c.open(Direction::Right, None, None);
    let a = c.shown(true);
    let id = query_id(&a);
    let a = c.answer(id, Ok(None));
    assert_eq!(a, vec![SwitchAction::StopTimer]);
    assert!(c.release.unsupported);
    assert_eq!(c.check(), vec![]);
    let a = c.released();
    let seat = match a.as_slice() {
        [SwitchAction::SeatQuery(id)] => *id,
        other => panic!("unexpected {other:?}"),
    };
    assert_eq!(c.seat_answer(seat, None), vec![]);
    assert!(c.release.open);
    let a = c.released();
    let seat = match a.as_slice() {
        [SwitchAction::SeatQuery(id)] => *id,
        other => panic!("unexpected {other:?}"),
    };
    assert_eq!(c.seat_answer(seat, Some(false)), vec![SwitchAction::Hide(true)]);
    let a = c.reconfigure(100);
    assert_eq!(a.last(), Some(&SwitchAction::Hide(false)));
    assert!(!c.release.unsupported);
}

#[test]
fn warnings_are_reported_once() {
    let mut c = SwitchControl::new();
    c.open(Direction::Right, None, None);
    let a = c.shown(true);
    let id = query_id(&a);
    assert_eq!(c.answer(id, Err("timeout".into())), vec![SwitchAction::Warn("timeout".into())]);
    let a = c.check();
    let id = query_id(&a);
    assert_eq!(c.answer(id, Err("timeout".into())), vec![]);
}

#[test]
fn keys_map_to_inputs() {
    assert_eq!(handle_key("Escape", "Tab", "q", false, 9), Some(KeyInput::Cancel(9)));
    assert_eq!(handle_key("Tab", "Tab", "q", false, 0), Some(KeyInput::Switch(Direction::Right)));
    assert_eq!(handle_key("Tab", "Tab", "q", true, 0), Some(KeyInput::Switch(Direction::Left)));
    assert_eq!(handle_key("l", "Tab", "q", false, 0), Some(KeyInput::Switch(Direction::Right)));
    assert_eq!(handle_key("grave", "Tab", "q", false, 0), Some(KeyInput::Switch(Direction::Left)));
    assert_eq!(handle_key("ISO_Left_Tab", "Tab", "q", false, 0), Some(KeyInput::Switch(Direction::Left)));
    assert_eq!(handle_key("j", "Tab", "q", false, 0), Some(KeyInput::Switch(Direction::Down)));
    assert_eq!(handle_key("Up", "Tab", "q", false, 0), Some(KeyInput::Switch(Direction::Up)));
    assert_eq!(handle_key("q", "Tab", "q", false, 0), Some(KeyInput::CloseCurrentItem));
    assert_eq!(handle_key("Delete", "Tab", "q", false, 0), Some(KeyInput::CloseCurrentItem));
    assert_eq!(handle_key("a", "Tab", "q", false, 0), None);
    // The switch key wins over the vim keys.
    assert_eq!(handle_key("l", "l", "q", true, 0), Some(KeyInput::Switch(Direction::Left)));
}
