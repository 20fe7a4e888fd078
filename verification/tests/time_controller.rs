use flovyn_sdk::testing::time_controller::TimeController;

#[test]
fn test_time_controller_new() {
    let tc = TimeController::new();
    assert!(tc.current_time_millis() > 0);
}

#[test]
fn test_time_controller_with_initial_time() {
    let tc = TimeController::with_initial_time(1000);
    assert_eq!(tc.current_time_millis(), 1000);
}

#[test]
fn test_time_controller_set_time() {
    let mut tc = TimeController::new();
    tc.set_current_time_millis(5000);
    assert_eq!(tc.current_time_millis(), 5000);
}

#[test]
fn test_time_controller_advance() {
    let mut tc = TimeController::with_initial_time(1000);
    tc.advance(5000);
    assert_eq!(tc.current_time_millis(), 6000);
}

#[test]
fn test_time_controller_register_timer() {
    let mut tc = TimeController::with_initial_time(1000);
    tc.register_timer("timer-1", 2000);
    assert!(tc.is_timer_pending("timer-1"));
    assert!(!tc.is_timer_pending("timer-2"));
}

#[test]
fn test_time_controller_register_timer_after() {
    let mut tc = TimeController::with_initial_time(1000);
    tc.register_timer_after("timer-1", 5000);
    assert!(tc.is_timer_pending("timer-1"));
    // It fires at 6000: not before, and then.
    assert!(tc.advance(4999).is_empty());
    assert_eq!(tc.advance(1), vec!["timer-1"]);
}

#[test]
fn test_time_controller_advance_fires_timers() {
    let mut tc = TimeController::with_initial_time(1000);
    tc.register_timer("timer-1", 2000);
    tc.register_timer("timer-2", 3000);

    let fired = tc.advance(1500);
    assert_eq!(fired, vec!["timer-1"]);
    assert!(!tc.is_timer_pending("timer-1"));
    assert!(tc.is_timer_pending("timer-2"));
}

#[test]
fn test_time_controller_advance_to_next_timer() {
    let mut tc = TimeController::with_initial_time(1000);
    tc.register_timer("timer-1", 5000);
    tc.register_timer("timer-2", 3000);

    let fired = tc.advance_to_next_timer();
    assert_eq!(fired, Some("timer-2".to_string()));
    assert_eq!(tc.current_time_millis(), 3000);
    assert!(!tc.is_timer_pending("timer-2"));
    assert!(tc.is_timer_pending("timer-1"));
}

#[test]
fn advance_to_next_timer_without_timers() {
    let mut tc = TimeController::with_initial_time(1000);
    assert_eq!(tc.advance_to_next_timer(), None);
    assert_eq!(tc.current_time_millis(), 1000);
}

#[test]
fn test_time_controller_skip_all_timers() {
    let mut tc = TimeController::with_initial_time(1000);
    tc.register_timer("timer-1", 2000);
    tc.register_timer("timer-2", 5000);
    tc.register_timer("timer-3", 3000);

    let fired = tc.skip_all_timers();
    assert_eq!(fired.len(), 3);
    assert_eq!(fired, vec!["timer-1", "timer-2", "timer-3"]);
    assert_eq!(tc.current_time_millis(), 5000);
    assert!(tc.pending_timer_ids().is_empty());
}

#[test]
fn test_time_controller_cancel_timer() {
    let mut tc = TimeController::with_initial_time(1000);
    tc.register_timer("timer-1", 2000);

    assert!(tc.cancel_timer("timer-1"));
    assert!(!tc.is_timer_pending("timer-1"));
    assert!(!tc.cancel_timer("timer-1"));
}

#[test]
fn test_time_controller_pending_timer_ids() {
    let mut tc = TimeController::with_initial_time(1000);
    tc.register_timer("timer-a", 2000);
    tc.register_timer("timer-b", 3000);

    let ids = tc.pending_timer_ids();
    assert_eq!(ids.len(), 2);
    assert!(ids.contains(&"timer-a".to_string()));
    assert!(ids.contains(&"timer-b".to_string()));
}

#[test]
fn test_time_controller_default() {
    let tc = TimeController::new();
    assert!(tc.current_time_millis() > 0);
}

#[test]
fn test_time_controller_advance_splits_timers() {
    let mut tc = TimeController::with_initial_time(0);
    tc.register_timer("a", 10);
    tc.register_timer("b", 30);
    tc.register_timer("c", 20);
    let fired = tc.advance(20);
    assert_eq!(fired, vec!["a".to_string(), "c".to_string()]);
    assert_eq!(tc.pending_timer_ids(), vec!["b".to_string()]);
}

#[test]
fn test_time_controller_advance_in_steps() {
    let mut one = TimeController::with_initial_time(0);
    let mut two = TimeController::with_initial_time(0);
    for tc in [&mut one, &mut two] {
        tc.register_timer("a", 25);
        tc.register_timer("b", 5);
        tc.register_timer("c", 50);
    }
    one.advance(30);
    two.advance(10);
    two.advance(20);
    assert_eq!(one.pending_timer_ids(), two.pending_timer_ids());
    assert_eq!(one.current_time_millis(), two.current_time_millis());
}

#[test]
fn test_time_controller_cancel_undoes_register() {
    let mut tc = TimeController::with_initial_time(0);
    tc.register_timer("a", 10);
    let before = tc.pending_timer_ids();
    tc.register_timer("b", 20);
    assert!(tc.cancel_timer("b"));
    assert_eq!(tc.pending_timer_ids(), before);
}
