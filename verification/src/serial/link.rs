//! One link as its interrupt handlers see it: the transport, and the one
//! transfer that is in flight on its receive path.

use vstd::prelude::*;
use crate::serial::adapter::{Command, DmaUsart};
use crate::serial::transfer::{ReceiveStage, Step, Transfer};
use crate::serial::transport::Serial;

verus! {

/// A transport with at most one transfer in flight.
pub struct Link<'a, USART> where USART: DmaUsart {
    /// The send side of the link, for the tasks that emit frames.
    pub serial: Serial<'a, USART>,
    transfer: Option<Transfer>,
}

impl<'a, USART> Link<'a, USART> where USART: DmaUsart {
    /// The transfer in flight, if there is one.
    pub closed spec fn in_flight(&self) -> Option<Transfer> {
        self.transfer
    }

    /// The transport of the link.
    pub closed spec fn transport(&self) -> Serial<'a, USART> {
        self.serial
    }

    /// The orders given to the link's adapter so far, oldest first.
    pub open spec fn orders(&self) -> Seq<Command> {
        self.transport().orders()
    }

    /// A reception is armed.
    pub open spec fn wf(&self) -> bool {
        self.in_flight() is Some
    }

    /// Whether the send side of `after` is that of this link: cursor, buffer
    /// and buffer address.
    pub open spec fn same_send_side(&self, after: Self) -> bool {
        &&& after.transport().cursor() == self.transport().cursor()
        &&& after.transport().buffer() == self.transport().buffer()
        &&& after.transport().origin() == self.transport().origin()
    }

    /// Whether one receive completion, on the adapter's answer `pending`,
    /// takes this link to `after` and delivers `frame`.
    ///
    /// While the frame is incomplete the transfer takes one step, the adapter
    /// is given the order of that step, if it has one, and nothing is
    /// delivered. A complete frame is delivered as a copy of the whole buffer,
    /// and the adapter is given one order: the header of the next reception,
    /// into the same buffer. The send side stays as it is.
    pub open spec fn rx_to(&self, after: Self, pending: bool, frame: Option<[u8; 32]>) -> bool {
        &&& self.same_send_side(after)
        &&& match self.in_flight() {
            None => {
                &&& after.in_flight() is None
                &&& frame is None
                &&& after.orders() == self.orders()
            },
            Some(transfer) => {
                &&& after.in_flight() is Some
                &&& after.in_flight().unwrap().bytes() == transfer.bytes()
                &&& if transfer.step(pending) == Step::Complete {
                    &&& frame is Some
                    &&& frame.unwrap()@ == transfer.bytes()
                    &&& after.in_flight().unwrap().stage_spec() == ReceiveStage::Header
                    &&& after.orders() == self.orders().push(
                        Command::Receive(after.in_flight().unwrap().header_burst()),
                    )
                } else {
                    &&& frame is None
                    &&& transfer.steps_to(after.in_flight().unwrap(), pending)
                    &&& after.orders() == self.orders() + transfer.step(pending).orders()
                }
            },
        }
    }

    /// A link over `serial` whose first reception is armed into `buffer`: the
    /// adapter is given the order for its header, and no other.
    pub fn new(serial: Serial<'a, USART>, buffer: &'static mut [u8; 32]) -> (link: Link<'a, USART>)
        ensures
            link.wf(),
            link.in_flight().unwrap().stage_spec() == ReceiveStage::Header,
            link.in_flight().unwrap().bytes() == old(buffer)@,
            link.orders() == serial.orders().push(
                Command::Receive(link.in_flight().unwrap().header_burst()),
            ),
            link.transport().cursor() == serial.cursor(),
            link.transport().buffer() == serial.buffer(),
            link.transport().origin() == serial.origin(),
    {
        let mut serial = serial;
        let transfer = serial.receive(buffer);
        Link { serial, transfer: Some(transfer) }
    }

    /// One receive completion, for an adapter that has answered `pending` to
    /// the question whether a burst has completed: what `rx_to` describes.
    pub fn complete(&mut self, pending: bool) -> (frame: Option<[u8; 32]>)
        ensures
            old(self).rx_to(*final(self), pending, frame),
            old(self).wf() ==> final(self).wf(),
    {
        match self.transfer.take() {
            None => None,
            Some(mut transfer) => {
                match transfer.advance(pending) {
                    Step::Wait => {
                        self.transfer = Some(transfer);
                        proof {
                            assert(self.orders() =~= old(self).orders() + Step::Wait.orders());
                        }
                        None
                    },
                    Step::ArmBody(burst) => {
                        self.serial.usart.receive(burst.length, burst.address);
                        self.transfer = Some(transfer);
                        proof {
                            assert(self.orders() =~= old(self).orders() + Step::ArmBody(
                                burst,
                            ).orders());
                        }
                        None
                    },
                    Step::Complete => {
                        let buffer = transfer.finish();
                        let frame: [u8; 32] = *buffer;
                        let next = self.serial.receive(buffer);
                        self.transfer = Some(next);
                        Some(frame)
                    },
                }
            },
        }
    }

    /// Receive completion: asks the adapter whether a burst has completed and
    /// does what `complete` describes for its answer.
    pub fn rx(&mut self) -> (frame: Option<[u8; 32]>)
        ensures
            exists|pending: bool| #[trigger] old(self).rx_to(*final(self), pending, frame),
            old(self).wf() ==> final(self).wf(),
    {
        let pending: bool = self.serial.usart.is_receive_pending();
        let frame = self.complete(pending);
        proof {
            assert(old(self).rx_to(*self, pending, frame));
        }
        frame
    }

    /// Transmit completion: nothing is queued any more and the adapter is
    /// acknowledged, which is the one order given. The receive side stays as
    /// it is.
    pub fn tx(&mut self)
        ensures
            final(self).orders() == old(self).orders().push(Command::TxInterrupt),
            final(self).transport().cursor() == 0,
            final(self).transport().buffer() == old(self).transport().buffer(),
            final(self).transport().origin() == old(self).transport().origin(),
            final(self).in_flight() == old(self).in_flight(),
    {
        self.serial.tx_interrupt();
    }
}

} // verus!
