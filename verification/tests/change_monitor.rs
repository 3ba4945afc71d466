use libclipboard::monitor::{ChangeFlag, ChangeMonitor};

#[test]
fn counter_first_poll_takes_the_baseline() {
    for token in [0isize, 1, -1, 42, isize::MAX, isize::MIN] {
        let mut monitor = ChangeMonitor::new();
        assert!(!monitor.poll(Some(token)));
    }
}

#[test]
fn counter_reports_a_change_once() {
    let mut monitor = ChangeMonitor::new();
    assert!(!monitor.poll(Some(10)));
    assert!(!monitor.poll(Some(10)));
    assert!(monitor.poll(Some(11)));
    assert!(!monitor.poll(Some(11)));
    assert!(!monitor.poll(Some(11)));
}

#[test]
fn counter_coalesces_changes_between_polls() {
    let mut monitor = ChangeMonitor::new();
    assert!(!monitor.poll(Some(10)));
    assert!(monitor.poll(Some(15)));
    assert!(!monitor.poll(Some(15)));
}

#[test]
fn counter_reports_any_difference() {
    let mut monitor = ChangeMonitor::new();
    assert!(!monitor.poll(Some(10)));
    assert!(monitor.poll(Some(9)));
    assert!(monitor.poll(Some(10)));
}

#[test]
fn counter_zero_is_a_token_like_any_other() {
    let mut monitor = ChangeMonitor::new();
    assert!(!monitor.poll(Some(5)));
    assert!(monitor.poll(Some(0)));
    assert!(!monitor.poll(Some(0)));
    let mut monitor = ChangeMonitor::new();
    assert!(!monitor.poll(Some(0)));
    assert!(!monitor.poll(Some(0)));
}

#[test]
fn counter_that_cannot_be_read_reports_nothing() {
    let mut monitor = ChangeMonitor::new();
    assert!(!monitor.poll(None));
    assert!(!monitor.poll(None));
    assert!(!monitor.poll(Some(3)));
    assert!(!monitor.poll(None));
    assert!(!monitor.poll(Some(3)));
    assert!(!monitor.poll(None));
    assert!(monitor.poll(Some(4)));
}

#[test]
fn counter_failed_read_takes_no_baseline() {
    let mut monitor = ChangeMonitor::new();
    assert!(!monitor.poll(None));
    assert_eq!(monitor, ChangeMonitor::new());
    assert!(!monitor.poll(Some(9)));
}

#[test]
fn flag_first_poll_takes_the_baseline() {
    let mut flag = ChangeFlag::new();
    assert!(!flag.poll());
    let mut flag = ChangeFlag::new();
    flag.notify();
    flag.notify();
    assert!(!flag.poll());
    assert!(!flag.poll());
}

#[test]
fn flag_reports_a_notification_once() {
    let mut flag = ChangeFlag::new();
    assert!(!flag.poll());
    flag.notify();
    assert!(flag.poll());
    assert!(!flag.poll());
}

#[test]
fn flag_coalesces_notifications_between_polls() {
    let mut flag = ChangeFlag::new();
    assert!(!flag.poll());
    flag.notify();
    flag.notify();
    flag.notify();
    assert!(flag.poll());
    assert!(!flag.poll());
    flag.notify();
    assert!(flag.poll());
}
