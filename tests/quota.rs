use std::cell::RefCell;
use worker_pool::quota::{quota_level, quota_message, LimitTracker, Messenger, QuotaLevel};

struct MockMessenger {
    sent_messages: RefCell<Vec<String>>,
}

impl MockMessenger {
    fn new() -> MockMessenger {
        MockMessenger {
            sent_messages: RefCell::new(vec![]),
        }
    }
}

impl Messenger for MockMessenger {
    fn send(&self, message: &str) {
        self.sent_messages.borrow_mut().push(String::from(message));
    }
}

#[test]
fn it_sends_an_over_75_percent_warning_message() {
    let mock_messenger = MockMessenger::new();
    let mut limit_tracker = LimitTracker::new(&mock_messenger, 100);

    limit_tracker.set_value(80);
    assert_eq!(mock_messenger.sent_messages.borrow().len(), 1);
}

#[test]
fn levels_at_the_thresholds() {
    assert_eq!(quota_level(74, 100), QuotaLevel::Normal);
    assert_eq!(quota_level(75, 100), QuotaLevel::Warning);
    assert_eq!(quota_level(89, 100), QuotaLevel::Warning);
    assert_eq!(quota_level(90, 100), QuotaLevel::Urgent);
    assert_eq!(quota_level(99, 100), QuotaLevel::Urgent);
    assert_eq!(quota_level(100, 100), QuotaLevel::Over);
    assert_eq!(quota_level(usize::MAX, usize::MAX), QuotaLevel::Over);
    assert_eq!(quota_level(0, 0), QuotaLevel::Normal);
    assert_eq!(quota_level(1, 0), QuotaLevel::Over);
}

#[test]
fn messages_by_level() {
    assert_eq!(quota_message(QuotaLevel::Normal), None);
    assert_eq!(
        quota_message(QuotaLevel::Warning),
        Some("Warning: You're at 75% of your quota!")
    );
    assert_eq!(
        quota_message(QuotaLevel::Urgent),
        Some("Urgent: You're at 90% of your quota!")
    );
    assert_eq!(
        quota_message(QuotaLevel::Over),
        Some("Error: You are over your quota!")
    );
}

#[test]
fn tracker_sends_the_right_notice() {
    let m = MockMessenger::new();
    let mut t = LimitTracker::new(&m, 10);
    t.set_value(1);
    t.set_value(9);
    t.set_value(12);
    assert_eq!(
        *m.sent_messages.borrow(),
        vec![
            String::from("Urgent: You're at 90% of your quota!"),
            String::from("Error: You are over your quota!"),
        ]
    );
}
