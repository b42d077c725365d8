use session_launch::dispatch::{
    ConnectionItem, Dispatcher, PendingReply, IDLE_THRESHOLD_MS, POLL_INTERVAL_MS,
};

#[test]
fn thresholds_have_their_values() {
    assert_eq!(IDLE_THRESHOLD_MS, 30_000);
    assert_eq!(POLL_INTERVAL_MS, 100);
}

#[test]
fn into_message_keeps_the_message_of_three_kinds() {
    assert_eq!(ConnectionItem::MethodCall(5u8).into_message(), Some(5));
    assert_eq!(ConnectionItem::Signal(6u8).into_message(), Some(6));
    assert_eq!(ConnectionItem::MethodReturn(7u8).into_message(), Some(7));
    assert_eq!(ConnectionItem::<u8>::Nothing.into_message(), None);
}

#[test]
fn quiet_service_exits_at_the_threshold() {
    let d = Dispatcher::new(1_000);
    assert!(!d.should_exit(1_000));
    assert!(!d.should_exit(30_999));
    assert!(d.should_exit(31_000));
    assert!(d.should_exit(99_000));
    assert!(!d.should_exit(0));
}

#[test]
fn arriving_call_resets_the_countdown() {
    let mut d = Dispatcher::new(0);
    assert_eq!(d.on_item(ConnectionItem::MethodCall("m"), 29_000), Some((0, "m")));
    assert_eq!(d.pending_requests(), 1);
    assert!(!d.should_exit(30_000));
    assert!(!d.should_exit(1_000_000));
    assert!(d.complete(0, 40_000));
    assert_eq!(d.pending_requests(), 0);
    assert!(!d.should_exit(69_999));
    assert!(d.should_exit(70_000));
}

#[test]
fn item_without_message_changes_nothing() {
    let mut d = Dispatcher::new(0);
    assert_eq!(d.on_item(ConnectionItem::<u8>::Nothing, 29_000), None);
    assert_eq!(d.pending_requests(), 0);
    assert!(d.should_exit(30_000));
}

#[test]
fn tickets_count_up_from_zero() {
    let mut d = Dispatcher::new(0);
    assert_eq!(d.on_item(ConnectionItem::MethodCall('a'), 1), Some((0, 'a')));
    assert_eq!(d.on_item(ConnectionItem::Signal('b'), 2), Some((1, 'b')));
    assert_eq!(d.on_item(ConnectionItem::<char>::Nothing, 3), None);
    assert_eq!(d.on_item(ConnectionItem::MethodReturn('c'), 4), Some((2, 'c')));
    assert_eq!(d.pending_requests(), 3);
    assert!(d.has_ticket());
}

#[test]
fn replies_complete_in_any_order() {
    let mut d = Dispatcher::new(0);
    for n in 0..5u64 {
        assert_eq!(d.on_item(ConnectionItem::MethodCall(n), n), Some((n, n)));
    }
    for ticket in [3u64, 0, 4, 1, 2] {
        assert!(!d.should_exit(100_000));
        assert!(d.complete(ticket, 10));
    }
    assert_eq!(d.pending_requests(), 0);
    assert!(!d.should_exit(30_009));
    assert!(d.should_exit(30_010));
}

#[test]
fn reply_is_accepted_once_only() {
    let mut d = Dispatcher::new(0);
    d.on_item(ConnectionItem::MethodCall(()), 5);
    d.on_item(ConnectionItem::MethodCall(()), 6);
    assert!(d.complete(0, 7));
    assert!(!d.complete(0, 50_000));
    assert_eq!(d.pending_requests(), 1);
    assert!(d.complete(1, 8));
    assert!(d.should_exit(30_008));
}

#[test]
fn reply_before_its_call_is_refused() {
    let mut d = Dispatcher::new(0);
    assert!(!d.complete(0, 20_000));
    assert!(d.should_exit(30_000));
    d.on_item(ConnectionItem::MethodCall(()), 5);
    assert!(!d.complete(1, 6));
    assert_eq!(d.pending_requests(), 1);
}

#[test]
fn clock_never_runs_backwards() {
    let mut d = Dispatcher::new(10_000);
    d.on_item(ConnectionItem::MethodCall(()), 4_000);
    assert!(d.complete(0, 5_000));
    assert!(!d.should_exit(39_999));
    assert!(d.should_exit(40_000));
}

#[test]
fn drained_reply_is_sent_once_to_its_call() {
    let mut d = Dispatcher::new(0);
    d.on_item(ConnectionItem::MethodCall("a"), 1);
    d.on_item(ConnectionItem::MethodCall("b"), 2);
    assert_eq!(d.drain(PendingReply { destination: 1, reply: 7 }, 3), Some(7));
    assert_eq!(d.drain(PendingReply { destination: 1, reply: 7 }, 4), None);
    assert_eq!(d.drain(PendingReply { destination: 5, reply: 9 }, 5), None);
    assert_eq!(d.pending_requests(), 1);
    assert_eq!(d.drain(PendingReply { destination: 0, reply: 1 }, 6), Some(1));
    assert!(!d.should_exit(30_005));
    assert!(d.should_exit(30_006));
}

#[test]
fn concurrent_calls_get_their_own_status() {
    let mut d = Dispatcher::new(0);
    let mut tickets = Vec::new();
    for n in 0..8i32 {
        let (ticket, code) = d.on_item(ConnectionItem::MethodCall(n * 3), 1).unwrap();
        tickets.push((ticket, code));
    }
    tickets.reverse();
    tickets.swap(1, 6);
    for (ticket, code) in tickets {
        let sent = d.drain(PendingReply { destination: ticket, reply: code }, 2);
        assert_eq!(sent, Some(i32::try_from(ticket).unwrap() * 3));
    }
    assert_eq!(d.pending_requests(), 0);
}
