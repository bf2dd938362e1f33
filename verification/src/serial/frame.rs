//! The wire format of one frame and of a run of frames.

use vstd::prelude::*;

verus! {

/// Number of bytes in a link's send buffer and in a receive buffer.
pub const BUFFER_SIZE: usize = 32;

/// Bytes that precede the payload in an encoded frame: type, length, operation.
pub const FRAME_OVERHEAD: usize = 3;

/// Bytes of the fixed first burst of a reception: type and length.
pub const HEADER_SIZE: u16 = 2;

/// One message as it is handed to a link, before encoding.
pub struct Frame {
    pub message_type: u8,
    pub operation: u8,
    pub payload: Seq<u8>,
}

impl Frame {
    /// Number of bytes that the frame takes on the wire.
    pub open spec fn encoded_len(self) -> nat {
        FRAME_OVERHEAD as nat + self.payload.len()
    }

    /// The bytes of the frame on the wire. The length byte counts the
    /// operation byte and the payload.
    pub open spec fn encoding(self) -> Seq<u8> {
        seq![self.message_type, (1 + self.payload.len()) as u8, self.operation] + self.payload
    }
}

/// Whether a frame with `payload_len` payload bytes can be appended to a
/// buffer that already holds `cursor` bytes.
pub open spec fn fits(cursor: nat, payload_len: nat) -> bool {
    cursor + FRAME_OVERHEAD + payload_len <= BUFFER_SIZE
}

/// The wire bytes of a run of frames, in order.
pub open spec fn concat(frames: Seq<Frame>) -> Seq<u8>
    decreases frames.len(),
{
    if frames.len() == 0 {
        Seq::empty()
    } else {
        concat(frames.drop_last()) + frames.last().encoding()
    }
}

/// The queued bytes after one send is attempted on a buffer that holds
/// `queued`: the frame is appended when the adapter is ready and the frame
/// fits, and nothing changes otherwise.
pub open spec fn queue_one(queued: Seq<u8>, ready: bool, frame: Frame) -> Seq<u8> {
    if ready && fits(queued.len(), frame.payload.len()) {
        queued + frame.encoding()
    } else {
        queued
    }
}

/// The queued bytes after the frames are sent one after the other, the adapter
/// being ready each time.
pub open spec fn queue_all(queued: Seq<u8>, frames: Seq<Frame>) -> Seq<u8>
    decreases frames.len(),
{
    if frames.len() == 0 {
        queued
    } else {
        queue_one(queue_all(queued, frames.drop_last()), true, frames.last())
    }
}

/// Whether every one of the sends counted in `queue_all` is accepted.
pub open spec fn all_accepted(queued: Seq<u8>, frames: Seq<Frame>) -> bool
    decreases frames.len(),
{
    frames.len() == 0 || (all_accepted(queued, frames.drop_last()) && fits(
        queue_all(queued, frames.drop_last()).len(),
        frames.last().payload.len(),
    ))
}

/// The encoding of a frame has the length that `encoded_len` gives, and its
/// first three bytes are type, length and operation.
pub proof fn lemma_encoding_len(frame: Frame)
    ensures
        frame.encoding().len() == frame.encoded_len(),
        frame.encoding()[0] == frame.message_type,
        frame.encoding()[2] == frame.operation,
        frame.payload.len() <= 254 ==> frame.encoding()[1] == 1 + frame.payload.len(),
        frame.encoding().skip(3) == frame.payload,
{
    assert(frame.encoding().skip(3) =~= frame.payload);
}

/// A run of sends whose encodings, together with what is already queued, stay
/// within the buffer: each send is accepted, and the buffer then holds what it
/// held before followed by the encodings in the order of the calls.
pub proof fn lemma_sends_concatenate(queued: Seq<u8>, frames: Seq<Frame>)
    requires
        queued.len() + concat(frames).len() <= BUFFER_SIZE,
    ensures
        all_accepted(queued, frames),
        queue_all(queued, frames) == queued + concat(frames),
    decreases frames.len(),
{
    if frames.len() == 0 {
        assert(queued + Seq::<u8>::empty() =~= queued);
    } else {
        let front = frames.drop_last();
        let last = frames.last();
        lemma_encoding_len(last);
        assert(concat(frames) == concat(front) + last.encoding());
        lemma_sends_concatenate(queued, front);
        assert((queued + concat(front)) + last.encoding() =~= queued + (concat(front)
            + last.encoding()));
    }
}

/// A send that would carry the buffer past its capacity changes nothing,
/// whether or not the adapter is ready.
pub proof fn lemma_overflow_refused(queued: Seq<u8>, ready: bool, frame: Frame)
    requires
        queued.len() + frame.encoded_len() > BUFFER_SIZE,
    ensures
        queue_one(queued, ready, frame) == queued,
{
}

} // verus!
