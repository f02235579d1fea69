use altre::buffer::editor::ChangeEvent;
use altre::editor::change_notifier::{
    AdvancedChangeNotifier, ExtendedChangeEvent, ExtendedChangeListener, TestListener,
};
use std::time::Duration;

#[test]
fn test_advanced_change_notifier_creation() {
    let notifier = AdvancedChangeNotifier::new();
    assert_eq!(notifier.stats().total_listeners, 0);
    assert!(!notifier.bulk_change_active);
}

#[test]
fn test_add_extended_listener() {
    let mut notifier = AdvancedChangeNotifier::new();
    let listener = TestListener::new(10);
    let id = notifier.add_extended_listener(Box::new(listener));
    assert_eq!(notifier.stats().total_listeners, 1);
    assert!(notifier.remove_listener(id));
    assert_eq!(notifier.stats().total_listeners, 0);
}

#[test]
fn test_basic_event_notification() {
    let mut notifier = AdvancedChangeNotifier::new();
    let listener = TestListener::new(0);
    let _id = notifier.add_extended_listener(Box::new(listener));
    let event = ChangeEvent::Insert { position: 0, content: "test".to_string() };
    notifier.notify_basic(event);
    assert_eq!(notifier.stats().events_dispatched, 1);
}

#[test]
fn test_batch_operations() {
    let mut notifier = AdvancedChangeNotifier::new();
    let listener = TestListener::new(0);
    let _id = notifier.add_extended_listener(Box::new(listener));
    let batch_id = notifier.start_batch(3);
    assert!(notifier.batch_state.is_some());
    let batch_info = notifier.current_batch_info().unwrap();
    assert_eq!(batch_info.operation_id, batch_id);
    assert_eq!(batch_info.expected_changes, 3);
    assert_eq!(batch_info.actual_changes, 0);
    let event = ChangeEvent::Insert { position: 0, content: "a".to_string() };
    notifier.notify_basic(event);
    let batch_info = notifier.current_batch_info().unwrap();
    assert_eq!(batch_info.actual_changes, 1);
    notifier.end_batch(batch_id);
    assert!(notifier.batch_state.is_none());
    assert!(notifier.current_batch_info().is_none());
}

#[test]
fn test_bulk_change_operations() {
    let mut notifier = AdvancedChangeNotifier::new();
    let listener = TestListener::new(0);
    let _id = notifier.add_extended_listener(Box::new(listener));
    notifier.start_bulk_change();
    assert!(notifier.bulk_change_active);
    notifier.end_bulk_change(100, Duration::from_millis(50));
    assert!(!notifier.bulk_change_active);
    assert!(notifier.stats().events_dispatched >= 2);
}

#[test]
fn test_listener_priority() {
    let mut notifier = AdvancedChangeNotifier::new();
    let high_priority = TestListener::new(100);
    let low_priority = TestListener::new(1);
    let _high_id = notifier.add_extended_listener(Box::new(high_priority));
    let _low_id = notifier.add_extended_listener(Box::new(low_priority));
    let event = ExtendedChangeEvent::BulkChangeStart;
    notifier.notify_extended(event);
    assert_eq!(notifier.stats().total_listeners, 2);
}

#[test]
fn test_performance_warning() {
    let mut notifier = AdvancedChangeNotifier::new();
    let listener = TestListener::new(0);
    let _id = notifier.add_extended_listener(Box::new(listener));
    notifier.notify_performance_warning(
        "test_operation".to_string(),
        Duration::from_millis(5),
        Duration::from_millis(1),
    );
    assert!(notifier.stats().events_dispatched > 0);
}

#[test]
fn test_event_filter() {
    let mut notifier = AdvancedChangeNotifier::new();
    let listener = TestListener::new(0);
    let _id = notifier.add_extended_listener(Box::new(listener));
    notifier.set_event_filter(|event| matches!(event, ExtendedChangeEvent::Error { .. }));
    notifier.notify_extended(ExtendedChangeEvent::BulkChangeStart);
    notifier.notify_error("test".to_string(), "error".to_string());
    assert_eq!(notifier.stats().events_dispatched, 1);
}

#[test]
fn test_stats_tracking() {
    let mut notifier = AdvancedChangeNotifier::new();
    let listener = TestListener::new(0);
    let _id = notifier.add_extended_listener(Box::new(listener));
    for i in 0..5 {
        notifier.notify_error(format!("op_{}", i), "test error".to_string());
    }
    let stats = notifier.stats();
    assert_eq!(stats.events_dispatched, 5);
    assert!(stats.avg_dispatch_time.as_nanos() > 0);
    notifier.reset_stats();
    assert_eq!(notifier.stats().events_dispatched, 0);
}

struct Recorder {
    log: std::rc::Rc<std::cell::RefCell<Vec<i32>>>,
    priority: i32,
}

impl ExtendedChangeListener for Recorder {
    fn on_extended_change(&mut self, _event: &ExtendedChangeEvent) {
        self.log.borrow_mut().push(self.priority);
    }

    fn priority(&self) -> i32 {
        self.priority
    }
}

#[test]
fn test_dispatch_order_by_priority() {
    let log = std::rc::Rc::new(std::cell::RefCell::new(Vec::new()));
    let mut notifier = AdvancedChangeNotifier::new();
    for p in [1, 100, 5, 100] {
        notifier.add_extended_listener(Box::new(Recorder { log: log.clone(), priority: p }));
    }
    assert_eq!(notifier.dispatch_order(), vec![1, 3, 2, 0]);
    notifier.notify_extended(ExtendedChangeEvent::BulkChangeStart);
    assert_eq!(*log.borrow(), vec![100, 100, 5, 1]);
}

#[test]
fn filter_answer_decides_whether_an_event_counts() {
    let mut notifier = AdvancedChangeNotifier::new();
    let _id = notifier.add_extended_listener(Box::new(TestListener::new(0)));
    notifier.deliver_after_filter(ExtendedChangeEvent::BulkChangeStart, false);
    assert_eq!(notifier.stats().events_dispatched, 0);
    notifier.deliver_after_filter(ExtendedChangeEvent::BulkChangeStart, true);
    assert_eq!(notifier.stats().events_dispatched, 1);
}
