use purpl::video::{Msg, Notification, State};

fn fresh(window: usize) -> State {
    State::init(window, String::from("Purpl v1.0.0 by Randomcode"), 800, 600)
}

#[test]
fn fresh_state_scenario() {
    let mut s = fresh(1);
    assert_eq!(s.get_size(), (800, 600));
    assert!(s.focused());

    let handled = s.handle_notification(1, Notification::SizeChanged { width: 1024, height: 768 });
    assert!(handled);
    assert_eq!(s.get_size(), (1024, 768));

    assert!(s.resized());
    assert!(!s.resized());

    let handled = s.handle_notification(1, Notification::CloseRequested);
    assert!(handled);
    assert!(!s.update(&Vec::new()));
}

#[test]
fn resize_with_same_dims_is_a_no_op() {
    let mut s = fresh(1);
    let handled = s.handle_notification(1, Notification::SizeChanged { width: 800, height: 600 });
    assert!(handled);
    assert_eq!(s.get_size(), (800, 600));
    assert!(!s.resized());
}

#[test]
fn resize_flag_reads_and_resets() {
    let mut s = fresh(1);
    s.handle_notification(1, Notification::SizeChanged { width: 640, height: 480 });
    s.handle_notification(1, Notification::SizeChanged { width: 320, height: 240 });
    // Two changes coalesce into a single observed true.
    assert!(s.resized());
    assert!(!s.resized());
    // A new change raises the flag again.
    s.handle_notification(1, Notification::SizeChanged { width: 640, height: 480 });
    assert!(s.resized());
}

#[test]
fn update_folds_a_drained_batch_in_order() {
    let mut s = fresh(1);
    let pending = vec![
        Msg { source: 1, note: Notification::SizeChanged { width: 1024, height: 768 } },
        Msg { source: 1, note: Notification::ActivationChanged { active: false } },
        Msg { source: 1, note: Notification::SizeChanged { width: 800, height: 600 } },
    ];
    assert!(s.update(&pending));
    assert_eq!(s.get_size(), (800, 600));
    assert!(!s.focused());
    assert!(s.resized());
}

#[test]
fn close_makes_update_false_forever() {
    let mut s = fresh(1);
    let pending = vec![Msg { source: 1, note: Notification::CloseRequested }];
    assert!(!s.update(&pending));
    // Later notifications never bring the window back.
    let later = vec![
        Msg { source: 1, note: Notification::SizeChanged { width: 100, height: 100 } },
        Msg { source: 1, note: Notification::ActivationChanged { active: true } },
    ];
    assert!(!s.update(&later));
    assert!(!s.update(&Vec::new()));
}

#[test]
fn destroy_style_close_also_latches() {
    let mut s = fresh(3);
    let handled = s.handle_notification(3, Notification::CloseRequested);
    assert!(handled);
    assert!(!s.update(&Vec::new()));
    s.handle_notification(3, Notification::ActivationChanged { active: true });
    assert!(!s.update(&Vec::new()));
}

#[test]
fn activation_follows_the_payload_and_is_idempotent() {
    let mut s = fresh(1);
    assert!(s.focused());
    s.handle_notification(1, Notification::ActivationChanged { active: false });
    assert!(!s.focused());
    s.handle_notification(1, Notification::ActivationChanged { active: false });
    assert!(!s.focused());
    s.handle_notification(1, Notification::ActivationChanged { active: true });
    assert!(s.focused());
    s.handle_notification(1, Notification::ActivationChanged { active: true });
    assert!(s.focused());
}

#[test]
fn empty_update_changes_nothing_and_reports_open() {
    let mut s = fresh(1);
    assert!(s.update(&Vec::new()));
    assert_eq!(s.get_size(), (800, 600));
    assert!(s.focused());
    assert!(!s.resized());
}

#[test]
fn notifications_for_other_windows_pass_through() {
    let mut s = fresh(5);
    let handled = s.handle_notification(7, Notification::SizeChanged { width: 10, height: 10 });
    assert!(!handled);
    assert_eq!(s.get_size(), (800, 600));
    assert!(!s.resized());
    assert!(!s.handle_notification(7, Notification::CloseRequested));
    assert!(s.update(&Vec::new()));
}

#[test]
fn unbound_state_consumes_any_window() {
    let mut s = fresh(0);
    let handled = s.handle_notification(9, Notification::SizeChanged { width: 320, height: 200 });
    assert!(handled);
    assert_eq!(s.get_size(), (320, 200));
}

#[test]
fn unfolded_message_kinds_are_left_to_default_handling() {
    let mut s = fresh(1);
    let handled = s.handle_notification(1, Notification::Other);
    assert!(!handled);
    assert_eq!(s.get_size(), (800, 600));
    assert!(s.focused());
    assert!(!s.resized());
    assert!(s.update(&Vec::new()));
}

#[test]
fn shutdown_reports_the_tracked_handle() {
    let s = fresh(42);
    assert_eq!(s.shutdown(), 42);
    assert_eq!(purpl::engine::shutdown(&s), 42);
}
