use dailywork::events::Notification;
use dailywork::gate::{GatePhase, Shell};

#[test]
fn default_shell_is_unmodified_and_guarded() {
    let s = Shell::default();
    assert_eq!(s.get_modified_state(), false);
    assert_eq!(s.phase, GatePhase::Guarded);
}

#[test]
fn get_returns_most_recent_set() {
    let mut s = Shell::new();
    assert!(!s.get_modified_state());
    s.set_modified_state(true);
    assert!(s.get_modified_state());
    s.set_modified_state(true);
    s.set_modified_state(false);
    assert!(!s.get_modified_state());
    s.set_modified_state(false);
    s.set_modified_state(true);
    assert!(s.get_modified_state());
}

#[test]
fn close_request_while_unmodified_closes_silently() {
    let mut s = Shell::new();
    let fx = s.handle_close_request();
    assert!(fx.close_window);
    assert!(fx.notifications.is_empty());
    assert_eq!(s.phase, GatePhase::Closing);
}

#[test]
fn close_request_while_modified_confirms_and_stays_open() {
    let mut s = Shell::new();
    s.set_modified_state(true);
    let fx = s.handle_close_request();
    assert!(!fx.close_window);
    assert_eq!(fx.notifications.len(), 1);
    assert_eq!(fx.notifications[0], Notification::ConfirmClose);
    assert_eq!(s.phase, GatePhase::Guarded);
    assert!(s.get_modified_state());
}

#[test]
fn repeated_close_requests_reemit_the_confirmation() {
    let mut s = Shell::new();
    s.set_modified_state(true);
    let fx1 = s.handle_close_request();
    let fx2 = s.handle_close_request();
    assert_eq!(fx1, fx2);
    assert_eq!(fx2.notifications, vec![Notification::ConfirmClose]);
    assert_eq!(s.phase, GatePhase::Guarded);
}

#[test]
fn force_close_clears_flag_and_closes_once() {
    let mut s = Shell::new();
    s.set_modified_state(true);
    let fx = s.force_close_window();
    assert!(fx.close_window);
    assert!(fx.notifications.is_empty());
    assert!(!s.get_modified_state());
    assert_eq!(s.phase, GatePhase::Closing);

    let mut t = Shell::new();
    let fx2 = t.force_close_window();
    assert!(fx2.close_window);
    assert!(fx2.notifications.is_empty());
    assert!(!t.get_modified_state());
}

#[test]
fn modified_close_then_force_close_scenario() {
    let mut s = Shell::new();
    s.set_modified_state(true);
    let fx = s.handle_close_request();
    assert!(!fx.close_window);
    assert_eq!(fx.notifications, vec![Notification::ConfirmClose]);
    let fx2 = s.force_close_window();
    assert!(fx2.close_window);
    assert_eq!(s.get_modified_state(), false);
}

#[test]
fn saving_then_closing_needs_no_confirmation() {
    let mut s = Shell::new();
    s.set_modified_state(true);
    let _ = s.handle_close_request();
    s.set_modified_state(false);
    let fx = s.handle_close_request();
    assert!(fx.close_window);
    assert!(fx.notifications.is_empty());
}
