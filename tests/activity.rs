use focus_guard::activity::{ActivityMonitor, LastActivity};

#[test]
fn armed_without_events_is_never_inactive() {
    let mut a = ActivityMonitor::new(100);
    a.start_monitoring(100);
    for d in [0u64, 1, 120, u64::MAX] {
        assert!(!a.is_inactive_for(d, 100));
        assert!(!a.is_inactive_for(d, 100_000));
    }
}

#[test]
fn silence_after_an_event_is_inactive() {
    let mut a = ActivityMonitor::new(0);
    a.start_monitoring(10);
    a.record_event(LastActivity::Key, 20);
    assert!(!a.is_inactive_for(120, 139));
    assert!(a.is_inactive_for(120, 140));
    assert!(a.is_inactive_for(120, 500));
}

#[test]
fn events_before_arming_do_not_count() {
    let mut a = ActivityMonitor::new(0);
    a.start_monitoring(5);
    a.record_event(LastActivity::Mouse, 6);
    a.stop_monitoring();
    assert_eq!(a.get_event_count(), 1);
    a.record_event(LastActivity::Key, 50);
    assert_eq!(a.get_event_count(), 1);
    a.start_monitoring(200);
    assert_eq!(a.get_event_count(), 0);
    assert_eq!(a.get_last_activity_type(), LastActivity::Nothing);
    assert!(!a.is_inactive_for(120, 400));
}

#[test]
fn activity_no_later_than_arming_is_inactive() {
    let mut a = ActivityMonitor::new(0);
    a.start_monitoring(30);
    a.record_event(LastActivity::Wheel, 30);
    assert!(a.is_inactive_for(120, 31));
    assert_eq!(a.get_last_activity_type(), LastActivity::Wheel);
}

#[test]
fn reset_activity_moves_last_activity() {
    let mut a = ActivityMonitor::new(0);
    a.start_monitoring(0);
    a.record_event(LastActivity::Move, 10);
    a.reset_activity(100);
    assert!(!a.is_inactive_for(120, 200));
    assert!(a.is_inactive_for(120, 220));
}

#[test]
fn observer_starts_once_and_not_after_failure() {
    let mut a = ActivityMonitor::new(0);
    assert!(a.start());
    assert!(!a.start());
    a.stop();
    assert!(a.start());
    a.mark_observer_failed();
    assert!(a.observer_failed());
    assert!(!a.start());
}

#[test]
fn arming_and_disarming() {
    let mut a = ActivityMonitor::new(0);
    assert!(!a.is_monitoring());
    a.start_monitoring(1);
    assert!(a.is_monitoring());
    a.stop();
    assert!(!a.is_monitoring());
}

#[test]
fn activity_symbols() {
    assert_eq!(LastActivity::Nothing.symbol(), "-");
    assert_eq!(LastActivity::Key.symbol(), "键");
    assert_eq!(LastActivity::Mouse.symbol(), "点");
    assert_eq!(LastActivity::Move.symbol(), "动");
    assert_eq!(LastActivity::Wheel.symbol(), "滚");
}
