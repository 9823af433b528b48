//! The call-shape runtime: the four frame-count cardinalities of a call, the
//! per-call state machine that enforces their frame patterns, and the bounded
//! producer/consumer queue that carries one direction of a streaming call.

use vstd::prelude::*;

verus! {

/// The four mutually exclusive call shapes.
#[derive(Clone, Copy, PartialEq, Eq, Structural, Debug)]
pub enum CallShape {
    Unary,
    ClientStreaming,
    ServerStreaming,
    BidiStreaming,
}

/// The shape derived from the two streaming flags.
pub open spec fn shape_spec(client_streaming: bool, server_streaming: bool) -> CallShape {
    if client_streaming && server_streaming {
        CallShape::BidiStreaming
    } else if client_streaming {
        CallShape::ClientStreaming
    } else if server_streaming {
        CallShape::ServerStreaming
    } else {
        CallShape::Unary
    }
}

/// Derive the call shape of a method from its two streaming flags.
pub fn call_shape(client_streaming: bool, server_streaming: bool) -> (r: CallShape)
    ensures
        r == shape_spec(client_streaming, server_streaming),
{
    if client_streaming && server_streaming {
        CallShape::BidiStreaming
    } else if client_streaming {
        CallShape::ClientStreaming
    } else if server_streaming {
        CallShape::ServerStreaming
    } else {
        CallShape::Unary
    }
}

/// Whether the client side may send more than one frame under this shape.
pub open spec fn client_streams(shape: CallShape) -> bool {
    shape is ClientStreaming || shape is BidiStreaming
}

/// Whether the server side may send more than one frame under this shape.
pub open spec fn server_streams(shape: CallShape) -> bool {
    shape is ServerStreaming || shape is BidiStreaming
}

/// The state of one in-flight call: how many frames each side has sent and
/// whether each direction has been closed.
pub struct CallState {
    pub shape: CallShape,
    pub client_frames: u64,
    pub server_frames: u64,
    pub client_closed: bool,
    pub server_closed: bool,
}

impl CallState {
    /// The frame-pattern invariant: a non-streaming side sends at most one
    /// frame and has sent exactly one by the time it closes, and under a
    /// shape whose client side is non-streaming the server replies only
    /// after the client's half-close.
    pub open spec fn wf(self) -> bool {
        &&& !client_streams(self.shape) ==> self.client_frames <= 1
        &&& !client_streams(self.shape) && self.client_closed ==> self.client_frames == 1
        &&& !server_streams(self.shape) ==> self.server_frames <= 1
        &&& !server_streams(self.shape) && self.server_closed ==> self.server_frames == 1
        &&& !client_streams(self.shape) && self.server_frames > 0 ==> self.client_closed
    }

    /// Both directions have been closed: the call has ended.
    pub open spec fn complete(self) -> bool {
        self.client_closed && self.server_closed
    }

    /// Open a call of the given shape.
    pub fn start(shape: CallShape) -> (r: CallState)
        ensures
            r.wf(),
            r.shape == shape,
            r.client_frames == 0,
            r.server_frames == 0,
            !r.client_closed,
            !r.server_closed,
    {
        CallState { shape, client_frames: 0, server_frames: 0, client_closed: false, server_closed: false }
    }

    /// The client sends one frame. A non-streaming client may send only its
    /// single frame, and no side sends after its half-close.
    pub fn client_send(&mut self)
        requires
            old(self).wf(),
            !old(self).client_closed,
            client_streams(old(self).shape) || old(self).client_frames == 0,
            old(self).client_frames < u64::MAX,
        ensures
            final(self).wf(),
            *final(self) == (CallState { client_frames: (old(self).client_frames + 1) as u64, ..*old(self) }),
    {
        self.client_frames = self.client_frames + 1;
    }

    /// The client half-closes: no further frames will flow from it. A
    /// non-streaming client half-closes only once its single frame is sent.
    pub fn client_half_close(&mut self)
        requires
            old(self).wf(),
            !old(self).client_closed,
            client_streams(old(self).shape) || old(self).client_frames == 1,
        ensures
            final(self).wf(),
            *final(self) == (CallState { client_closed: true, ..*old(self) }),
    {
        self.client_closed = true;
    }

    /// The server sends one frame. A non-streaming server sends only its
    /// single frame; when the client side is non-streaming the server sends
    /// only after the client's half-close.
    pub fn server_send(&mut self)
        requires
            old(self).wf(),
            !old(self).server_closed,
            server_streams(old(self).shape) || old(self).server_frames == 0,
            client_streams(old(self).shape) || old(self).client_closed,
            old(self).server_frames < u64::MAX,
        ensures
            final(self).wf(),
            *final(self) == (CallState { server_frames: (old(self).server_frames + 1) as u64, ..*old(self) }),
    {
        self.server_frames = self.server_frames + 1;
    }

    /// The server closes its direction. A non-streaming server closes only
    /// once its single reply is sent.
    pub fn server_close(&mut self)
        requires
            old(self).wf(),
            !old(self).server_closed,
            server_streams(old(self).shape) || old(self).server_frames == 1,
        ensures
            final(self).wf(),
            *final(self) == (CallState { server_closed: true, ..*old(self) }),
    {
        self.server_closed = true;
    }
}

/// Law: a completed unary call carried exactly one frame in each direction.
pub proof fn lemma_unary_frame_pattern(c: CallState)
    requires
        c.wf(),
        c.complete(),
        c.shape is Unary,
    ensures
        c.client_frames == 1,
        c.server_frames == 1,
{
}

/// Law: a completed client-streaming call carried exactly one reply frame.
pub proof fn lemma_client_streaming_frame_pattern(c: CallState)
    requires
        c.wf(),
        c.complete(),
        c.shape is ClientStreaming,
    ensures
        c.server_frames == 1,
{
}

/// Law: a completed server-streaming call carried exactly one request frame.
pub proof fn lemma_server_streaming_frame_pattern(c: CallState)
    requires
        c.wf(),
        c.complete(),
        c.shape is ServerStreaming,
    ensures
        c.client_frames == 1,
{
}

/// A bounded producer/consumer queue carrying one direction of one call.
/// Frames come out in the order they went in; a full queue refuses a frame
/// (the producer suspends rather than growing memory without bound); either
/// end may close the queue, which ends the direction.
pub struct FrameQueue<T> {
    buf: Vec<T>,
    capacity: usize,
    closed: bool,
}

impl<T> FrameQueue<T> {
    /// The frames currently queued, oldest first.
    pub closed spec fn frames(&self) -> Seq<T> {
        self.buf@
    }

    /// The fixed capacity the queue was created with.
    pub closed spec fn cap(&self) -> nat {
        self.capacity as nat
    }

    /// Whether the direction has been closed.
    pub closed spec fn is_closed(&self) -> bool {
        self.closed
    }

    /// The queue never holds more than its capacity.
    pub closed spec fn wf(&self) -> bool {
        self.buf@.len() <= self.capacity
    }

    /// An open, empty queue of the given capacity.
    pub fn new(capacity: usize) -> (r: FrameQueue<T>)
        requires
            capacity >= 1,
        ensures
            r.wf(),
            r.frames() == Seq::<T>::empty(),
            r.cap() == capacity,
            !r.is_closed(),
    {
        FrameQueue { buf: Vec::new(), capacity, closed: false }
    }

    /// Produce one frame. A closed or full queue hands the frame back: the
    /// producer must suspend (backpressure) or give up (the direction ended).
    pub fn push(&mut self, frame: T) -> (r: Result<(), T>)
        requires
            old(self).wf(),
        ensures
            final(self).wf(),
            final(self).cap() == old(self).cap(),
            final(self).is_closed() == old(self).is_closed(),
            old(self).is_closed() || old(self).frames().len() == old(self).cap() ==> (r
                matches Err(f) && f == frame && final(self).frames() == old(self).frames()),
            !old(self).is_closed() && old(self).frames().len() < old(self).cap() ==> r is Ok
                && final(self).frames() == old(self).frames().push(frame),
    {
        if self.closed || self.buf.len() == self.capacity {
            Err(frame)
        } else {
            self.buf.push(frame);
            Ok(())
        }
    }

    /// Consume the oldest frame, if any. Frames within one direction come
    /// out in send order; a closed queue still drains what was sent.
    pub fn pop(&mut self) -> (r: Option<T>)
        requires
            old(self).wf(),
        ensures
            final(self).wf(),
            final(self).cap() == old(self).cap(),
            final(self).is_closed() == old(self).is_closed(),
            old(self).frames().len() == 0 ==> r is None && final(self).frames() == old(self).frames(),
            old(self).frames().len() > 0 ==> (r matches Some(f) && f == old(self).frames()[0]
                && final(self).frames() == old(self).frames().drop_first()),
    {
        if self.buf.len() == 0 {
            None
        } else {
            let f = self.buf.remove(0);
            proof {
                assert(self.buf@ =~= old(self).buf@.drop_first());
            }
            Some(f)
        }
    }

    /// Close the direction from either end. Frames not yet consumed remain
    /// drainable but nothing more is accepted.
    pub fn close(&mut self)
        requires
            old(self).wf(),
        ensures
            final(self).wf(),
            final(self).cap() == old(self).cap(),
            final(self).is_closed(),
            final(self).frames() == old(self).frames(),
    {
        self.closed = true;
    }

    /// How many frames are queued.
    pub fn len(&self) -> (r: usize)
        ensures
            r == self.frames().len(),
    {
        self.buf.len()
    }

    /// Whether the direction has been closed, observably.
    pub fn closed(&self) -> (r: bool)
        ensures
            r == self.is_closed(),
    {
        self.closed
    }
}

} // verus!
