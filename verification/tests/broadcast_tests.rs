use ironbar_core::broadcast::{BroadcastRecv, BroadcastStream};

#[test]
fn every_live_subscriber_receives_every_value() {
    let mut s: BroadcastStream<u64> = BroadcastStream::new(8);
    let widget = s.subscribe();
    let popup = s.subscribe();
    s.send(1);
    s.send(2);
    s.send(3);
    for sub in [widget, popup] {
        assert_eq!(s.recv(sub), BroadcastRecv::Value(1));
        assert_eq!(s.recv(sub), BroadcastRecv::Value(2));
        assert_eq!(s.recv(sub), BroadcastRecv::Value(3));
        assert_eq!(s.recv(sub), BroadcastRecv::Empty);
    }
}

#[test]
fn subscriber_sees_only_values_after_subscribing() {
    let mut s: BroadcastStream<u64> = BroadcastStream::new(4);
    s.send(1);
    let late = s.subscribe();
    s.send(2);
    assert_eq!(s.recv(late), BroadcastRecv::Value(2));
    assert_eq!(s.recv(late), BroadcastRecv::Empty);
}

#[test]
fn lagged_subscriber_loses_oldest_and_resumes() {
    let mut s: BroadcastStream<u64> = BroadcastStream::new(2);
    let slow = s.subscribe();
    s.send(10);
    s.send(20);
    s.send(30);
    s.send(40);
    // Window of 2: values 10 and 20 are gone for the slow subscriber.
    assert_eq!(s.recv(slow), BroadcastRecv::Lagged(2));
    assert_eq!(s.recv(slow), BroadcastRecv::Value(30));
    assert_eq!(s.recv(slow), BroadcastRecv::Value(40));
    assert_eq!(s.recv(slow), BroadcastRecv::Empty);
}
