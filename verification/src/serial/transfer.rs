//! The receive side: one frame comes in as two chained bursts, a header of
//! fixed size and a body whose length the header's second byte gives.

use vstd::prelude::*;
use core::convert::Infallible;
use crate::serial::adapter::{Burst, Command, DmaUsart};
use crate::serial::frame::{fits, Frame, HEADER_SIZE};
use crate::serial::platform::offset;

verus! {

/// How far a reception has come.
#[derive(Clone, Copy, Debug, PartialEq, Eq, Structural)]
pub enum ReceiveStage {
    /// The header burst is armed.
    Header,
    /// The header is in and the body burst is armed.
    Body,
    /// The body is in: the frame is complete.
    Done,
}

/// What one poll comes to.
#[derive(Clone, Copy, Debug, PartialEq, Eq, Structural)]
pub enum Step {
    /// No burst has completed: nothing to do, the frame is not ready.
    Wait,
    /// The header is in: the adapter is to be armed for the body, and the frame
    /// is not ready.
    ArmBody(Burst),
    /// The frame is complete.
    Complete,
}

impl Step {
    /// What the poll answers: done for a complete frame, "not ready" otherwise.
    pub open spec fn answer(self) -> Result<(), nb::Error<Infallible>> {
        if self == Step::Complete {
            Ok(())
        } else {
            Err(nb::Error::WouldBlock)
        }
    }

    /// The orders that the poll gives the adapter: the reception of the body,
    /// where the header has just come in, and none otherwise.
    pub open spec fn orders(self) -> Seq<Command> {
        match self {
            Step::ArmBody(burst) => seq![Command::Receive(burst)],
            _ => Seq::empty(),
        }
    }
}

/// The stage after one poll, given whether the adapter reported a completed
/// burst.
pub open spec fn next_stage(stage: ReceiveStage, pending: bool) -> ReceiveStage {
    if !pending {
        stage
    } else {
        match stage {
            ReceiveStage::Header => ReceiveStage::Body,
            ReceiveStage::Body => ReceiveStage::Done,
            ReceiveStage::Done => ReceiveStage::Done,
        }
    }
}

/// One frame in flight on the receive path of a link.
///
/// The adapter fills the buffer behind the program's back; the contracts here
/// speak of the bytes as the program reads them, and state that the transfer
/// itself never writes one.
pub struct Transfer {
    /// The memory that the frame is received into.
    pub buffer: &'static mut [u8; 32],
    receive_stage: ReceiveStage,
    origin: u32,
}

impl Transfer {
    /// The stage that the reception is in.
    pub closed spec fn stage_spec(&self) -> ReceiveStage {
        self.receive_stage
    }

    /// The address that the adapter was given for the buffer's first byte.
    pub closed spec fn origin(&self) -> u32 {
        self.origin
    }

    /// The bytes of the buffer, as the program reads them.
    pub closed spec fn bytes(&self) -> Seq<u8> {
        self.buffer@
    }

    /// The number of body bytes that the header announces.
    pub open spec fn body_len(&self) -> u16 {
        self.bytes()[1] as u16
    }

    /// The number of bytes of the whole frame, header included.
    pub open spec fn message_len(&self) -> nat {
        (HEADER_SIZE + self.bytes()[1]) as nat
    }

    /// The first burst: the two header bytes, at the buffer's start.
    pub open spec fn header_burst(&self) -> Burst {
        Burst { address: self.origin(), length: HEADER_SIZE }
    }

    /// The second burst: as many bytes as the header announces, right behind
    /// the header.
    pub open spec fn body_burst(&self) -> Burst {
        Burst { address: offset(self.origin(), HEADER_SIZE), length: self.body_len() }
    }

    /// What one poll comes to, given whether the adapter reported a completed
    /// burst.
    pub open spec fn step(&self, pending: bool) -> Step {
        if !pending {
            Step::Wait
        } else if self.stage_spec() == ReceiveStage::Header {
            Step::ArmBody(self.body_burst())
        } else {
            Step::Complete
        }
    }

    /// Whether one poll, on the adapter's answer `pending`, takes this transfer
    /// to `after`. No byte of the buffer changes.
    pub open spec fn steps_to(&self, after: Transfer, pending: bool) -> bool {
        &&& after.bytes() == self.bytes()
        &&& after.origin() == self.origin()
        &&& after.stage_spec() == next_stage(self.stage_spec(), pending)
    }

    /// A transfer in its first stage, for a header burst that was armed at
    /// address `origin` into `buffer`.
    pub(crate) fn armed(buffer: &'static mut [u8; 32], origin: u32) -> (transfer: Transfer)
        ensures
            transfer.bytes() == old(buffer)@,
            transfer.stage_spec() == ReceiveStage::Header,
            transfer.origin() == origin,
    {
        Transfer { buffer, receive_stage: ReceiveStage::Header, origin }
    }

    /// The stage that the reception is in.
    pub fn stage(&self) -> (stage: ReceiveStage)
        ensures
            stage == self.stage_spec(),
    {
        self.receive_stage
    }

    /// One step of the reception, for an adapter that has answered `pending`
    /// to the question whether a burst has completed.
    ///
    /// Without a completion nothing changes. A completed header moves the
    /// transfer on to the body and asks for the body burst: the number of
    /// bytes in the header's second byte, right behind the header. Any later
    /// completion ends the reception.
    pub fn advance(&mut self, pending: bool) -> (step: Step)
        ensures
            step == old(self).step(pending),
            old(self).steps_to(*final(self), pending),
    {
        if pending {
            match self.receive_stage {
                ReceiveStage::Header => {
                    self.receive_stage = ReceiveStage::Body;
                    let length: u16 = self.buffer[1] as u16;
                    let address: u32 = self.origin.wrapping_add(HEADER_SIZE as u32);
                    Step::ArmBody(Burst { address, length })
                },
                ReceiveStage::Body => {
                    self.receive_stage = ReceiveStage::Done;
                    Step::Complete
                },
                ReceiveStage::Done => Step::Complete,
            }
        } else {
            Step::Wait
        }
    }

    /// Asks the adapter whether a burst has completed, takes the step that
    /// `advance` describes for its answer, and arms the adapter for the body
    /// where that step asks for it. The adapter is given no other order.
    pub fn poll<USART>(&mut self, usart: &mut USART) -> (r: Result<
        (),
        nb::Error<Infallible>,
    >) where USART: DmaUsart
        ensures
            exists|pending: bool|
                {
                    &&& #[trigger] old(self).steps_to(*final(self), pending)
                    &&& r == old(self).step(pending).answer()
                    &&& final(usart).orders() == old(usart).orders() + old(self).step(
                        pending,
                    ).orders()
                },
    {
        let pending: bool = usart.is_receive_pending();
        let step = self.advance(pending);
        let r = match step {
            Step::Wait => Err(nb::Error::WouldBlock),
            Step::ArmBody(burst) => {
                usart.receive(burst.length, burst.address);
                Err(nb::Error::WouldBlock)
            },
            Step::Complete => Ok(()),
        };
        proof {
            assert(usart.orders() =~= old(usart).orders() + step.orders());
            assert(old(self).steps_to(*self, pending));
        }
        r
    }

    /// Ends the transfer and hands the buffer back, with every byte as the
    /// program last read it.
    pub fn finish(self) -> (buffer: &'static mut [u8; 32])
        ensures
            buffer@ == self.bytes(),
    {
        self.buffer
    }
}

/// A completed header takes the transfer from the header stage to the body
/// stage and asks for exactly the announced number of bytes at offset 2 of the
/// buffer; the frame is not ready yet.
pub proof fn lemma_header_completion(transfer: Transfer)
    requires
        transfer.stage_spec() == ReceiveStage::Header,
    ensures
        next_stage(transfer.stage_spec(), true) == ReceiveStage::Body,
        transfer.step(true) == Step::ArmBody(
            Burst { address: offset(transfer.origin(), 2), length: transfer.bytes()[1] as u16 },
        ),
        transfer.origin() + 2 <= u32::MAX ==> offset(transfer.origin(), 2) == transfer.origin() + 2,
        transfer.step(true).answer() == Err::<(), nb::Error<Infallible>>(nb::Error::WouldBlock),
{
}

/// A header that announces no body: the body burst is empty, the next
/// completion ends the reception, and the frame is two bytes long.
pub proof fn lemma_empty_body(transfer: Transfer)
    requires
        transfer.stage_spec() == ReceiveStage::Body,
        transfer.bytes()[1] == 0,
    ensures
        transfer.body_burst().length == 0,
        transfer.body_burst().span() == Set::<int>::empty(),
        next_stage(transfer.stage_spec(), true) == ReceiveStage::Done,
        transfer.step(true) == Step::Complete,
        transfer.step(true).answer() == Ok::<(), nb::Error<Infallible>>(()),
        transfer.message_len() == 2,
{
    assert(transfer.body_burst().span() =~= Set::<int>::empty());
}

/// The two bursts of a reception cover the frame and nothing else: the first
/// `message_len` bytes from the buffer's start, and no byte twice. Memory
/// behind the frame is never handed to the adapter.
pub proof fn lemma_bursts_cover_frame(transfer: Transfer)
    ensures
        transfer.header_burst().span().union(transfer.body_burst().span()) == (Burst {
            address: transfer.origin(),
            length: transfer.message_len() as u16,
        }).span(),
        transfer.header_burst().span().disjoint(transfer.body_burst().span()),
{
    let whole = Burst { address: transfer.origin(), length: transfer.message_len() as u16 };
    let header = transfer.header_burst();
    let body = transfer.body_burst();
    assert forall|a: int| #[trigger]
        header.span().union(body.span()).contains(a) == whole.span().contains(a) by {
        if 0 <= a < 0x1_0000_0000 {
            assert((a - body.address) % 0x1_0000_0000 == ((a - header.address) % 0x1_0000_0000
                - 2) % 0x1_0000_0000);
        }
    }
    assert(header.span().union(body.span()) =~= whole.span());
    assert forall|a: int| header.span().contains(a) implies !#[trigger] body.span().contains(
        a,
    ) by {
        assert((a - body.address) % 0x1_0000_0000 == ((a - header.address) % 0x1_0000_0000 - 2)
            % 0x1_0000_0000);
    }
}

/// What is sent is received whole: for a buffer that starts with the encoding
/// of a frame that a send accepts, the header announces the operation byte and
/// the payload, and the two bursts take in exactly the encoded frame.
pub proof fn lemma_receive_takes_encoded_frame(transfer: Transfer, frame: Frame)
    requires
        fits(0, frame.payload.len()),
        transfer.bytes().take(frame.encoded_len() as int) == frame.encoding(),
    ensures
        transfer.body_len() == 1 + frame.payload.len(),
        transfer.message_len() == frame.encoded_len(),
{
    assert(transfer.bytes()[1] == transfer.bytes().take(frame.encoded_len() as int)[1]);
}

} // verus!
