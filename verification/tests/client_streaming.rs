use tonic_rpc::calls::{CallShape, CallState, FrameQueue};
use tonic_rpc::services::sum_frames;

#[test]
fn test_client_streaming() {
    let mut call = CallState::start(CallShape::ClientStreaming);
    let mut requests: FrameQueue<u32> = FrameQueue::new(20);
    let mut i: u32 = 0;
    while i < 10 {
        requests.push(i).expect("queue has room");
        call.client_send();
        i += 1;
    }
    call.client_half_close();
    requests.close();

    let mut received: Vec<u32> = Vec::new();
    while let Some(f) = requests.pop() {
        received.push(f);
    }
    let total = sum_frames(&received).expect("no overflow on 0..10");
    call.server_send();
    call.server_close();

    assert_eq!(45, total);
}

#[test]
fn test_client_stream_immediate_response() {
    let mut call = CallState::start(CallShape::ClientStreaming);
    let mut requests: FrameQueue<String> = FrameQueue::new(10);

    // The server may respond before observing the client's half-close: this
    // reply goes out while the request stream is still open.
    call.server_send();
    call.server_close();

    for word in ["foo", "bar", "baz"] {
        requests.push(word.to_string()).expect("queue has room");
        call.client_send();
    }
    call.client_half_close();
    requests.close();

    let mut stored: Vec<String> = Vec::new();
    while let Some(f) = requests.pop() {
        stored.push(f);
    }
    assert_eq!(
        vec!["foo".to_string(), "bar".to_string(), "baz".to_string()],
        stored
    );
}

#[test]
fn sum_overflow_is_reported() {
    assert_eq!(None, sum_frames(&vec![u32::MAX, 1]));
    assert_eq!(Some(u32::MAX), sum_frames(&vec![u32::MAX, 0]));
}

#[test]
fn closed_and_full_queues_refuse_frames() {
    let mut q: FrameQueue<u32> = FrameQueue::new(1);
    assert_eq!(Ok(()), q.push(1));
    // Full: the frame is handed back so the producer can suspend.
    assert_eq!(Err(2), q.push(2));
    // Closed: nothing more is accepted, what was sent still drains.
    q.close();
    assert_eq!(Err(3), q.push(3));
    assert_eq!(Some(1), q.pop());
    assert_eq!(None, q.pop());
}
