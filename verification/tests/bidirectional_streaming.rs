use tonic_rpc::calls::{CallShape, CallState, FrameQueue};
use tonic_rpc::services::PubSub;

#[test]
fn test_bidirectional() {
    let mut call = CallState::start(CallShape::BidiStreaming);
    let mut broker = PubSub::new();
    // Subscriber 1's reply stream.
    let mut updates: FrameQueue<(String, String)> = FrameQueue::new(10);

    call.client_send();
    if let Some(retained) = broker.subscribe(1, &"foo".to_string()) {
        updates.push(retained).expect("queue has room");
    }

    let deliveries = broker.publish(&"foo".to_string(), &"fooval".to_string());
    assert_eq!(vec![1u64], deliveries);
    for _subscriber in deliveries {
        updates.push(("foo".to_string(), "fooval".to_string())).expect("queue has room");
        call.server_send();
    }

    // Publishing on a channel nobody subscribed to delivers nowhere.
    let deliveries = broker.publish(&"bar".to_string(), &"barval".to_string());
    assert_eq!(Vec::<u64>::new(), deliveries);

    assert_eq!(
        Some(("foo".to_string(), "fooval".to_string())),
        updates.pop()
    );

    // Subscribing later hands the retained value over at once.
    call.client_send();
    if let Some(retained) = broker.subscribe(1, &"bar".to_string()) {
        updates.push(retained).expect("queue has room");
        call.server_send();
    }
    assert_eq!(
        Some(("bar".to_string(), "barval".to_string())),
        updates.pop()
    );

    let deliveries = broker.publish(&"foo".to_string(), &"fooval2".to_string());
    assert_eq!(vec![1u64], deliveries);
    for _subscriber in deliveries {
        updates.push(("foo".to_string(), "fooval2".to_string())).expect("queue has room");
        call.server_send();
    }
    assert_eq!(
        Some(("foo".to_string(), "fooval2".to_string())),
        updates.pop()
    );
}
