use tonic_rpc::calls::{CallShape, CallState, FrameQueue};
use tonic_rpc::services::count_frames;

#[test]
fn test_server_streaming() {
    let mut call = CallState::start(CallShape::ServerStreaming);
    call.client_send();
    call.client_half_close();

    let mut responses: FrameQueue<i32> = FrameQueue::new(100);
    for frame in count_frames(42, 3) {
        responses.push(frame).expect("queue has room");
        call.server_send();
    }

    assert_eq!(Some(42), responses.pop());
    assert_eq!(Some(43), responses.pop());
    assert_eq!(Some(44), responses.pop());
}

#[test]
fn test_server_stream_ends() {
    let mut call = CallState::start(CallShape::ServerStreaming);
    call.client_send();
    call.client_half_close();

    let mut responses: FrameQueue<i32> = FrameQueue::new(1);
    let frames = count_frames(100, 3);
    let mut received: Vec<i32> = Vec::new();
    for frame in frames {
        // A bounded queue refuses a frame while it is full: the producer
        // waits for the consumer, here by draining before producing more.
        let mut pending = frame;
        loop {
            match responses.push(pending) {
                Ok(()) => break,
                Err(back) => {
                    pending = back;
                    if let Some(f) = responses.pop() {
                        received.push(f);
                    }
                }
            }
        }
        call.server_send();
    }
    while let Some(f) = responses.pop() {
        received.push(f);
    }
    call.server_close();

    assert_eq!(vec![100, 101, 102], received);
    assert_eq!(None, responses.pop());
}
