//! The send side of a link: frames are appended to one fixed buffer and the
//! whole of it is handed to the adapter as one burst.

use vstd::prelude::*;
use core::convert::Infallible;
use crate::serial::adapter::{Burst, Command, DmaUsart};
use crate::serial::frame::{fits, queue_one, Frame, BUFFER_SIZE, FRAME_OVERHEAD, HEADER_SIZE};
use crate::serial::platform::address_of;
use crate::serial::transfer::{ReceiveStage, Transfer};

verus! {

/// The transport of one link: an adapter, the buffer that outbound frames are
/// queued in, and the cursor behind the last queued byte.
pub struct Serial<'a, USART> where USART: DmaUsart {
    /// The adapter of the physical link.
    pub usart: USART,
    pub(crate) send_buffer: &'a mut [u8; 32],
    /// The number of bytes queued in the send buffer.
    pub send_buffer_pos: u16,
    pub(crate) send_origin: u32,
}

impl<'a, USART> Serial<'a, USART> where USART: DmaUsart {
    /// All bytes of the send buffer, queued or not.
    pub open(crate) spec fn buffer(&self) -> Seq<u8> {
        self.send_buffer@
    }

    /// The number of bytes queued in the send buffer.
    pub open(crate) spec fn cursor(&self) -> nat {
        self.send_buffer_pos as nat
    }

    /// The address that the adapter is given for the send buffer.
    pub open(crate) spec fn origin(&self) -> u32 {
        self.send_origin
    }

    /// The adapter of the link.
    pub open(crate) spec fn adapter(&self) -> USART {
        self.usart
    }

    /// The cursor lies within the buffer.
    pub open spec fn wf(&self) -> bool {
        self.cursor() <= BUFFER_SIZE
    }

    /// The bytes queued for transmission, in the order they were appended.
    pub open spec fn queued(&self) -> Seq<u8>
        recommends
            self.wf(),
    {
        self.buffer().take(self.cursor() as int)
    }

    /// Whether a send of `payload_len` payload bytes is accepted: the adapter
    /// is ready and the encoded frame ends within the buffer.
    pub open spec fn accepts(&self, ready: bool, payload_len: nat) -> bool {
        ready && fits(self.cursor(), payload_len)
    }

    /// The orders given to the adapter so far, oldest first.
    pub open spec fn orders(&self) -> Seq<Command> {
        self.adapter().orders()
    }

    /// Whether queueing `frame`, on the adapter's answer `ready`, takes the
    /// send buffer of this transport to that of `after`: an accepted frame is
    /// written at the cursor and the cursor moves behind it, a refused one
    /// changes nothing.
    pub open spec fn queues_to(&self, after: Self, ready: bool, frame: Frame) -> bool {
        &&& after.origin() == self.origin()
        &&& if self.accepts(ready, frame.payload.len()) {
            &&& after.cursor() == self.cursor() + frame.encoded_len()
            &&& after.buffer() == self.buffer().take(self.cursor() as int) + frame.encoding()
                + self.buffer().skip(after.cursor() as int)
        } else {
            &&& after.cursor() == self.cursor()
            &&& after.buffer() == self.buffer()
        }
    }

    /// Whether one send of `frame`, on the adapter's answer `ready`, takes this
    /// transport to `after`: the frame is queued as `queues_to` says, and for
    /// an accepted frame the adapter is ordered to transmit the buffer from its
    /// first byte to the new cursor. The adapter is given no other order.
    pub open spec fn sends_to(&self, after: Self, ready: bool, frame: Frame) -> bool {
        &&& self.queues_to(after, ready, frame)
        &&& after.orders() == match self.transmission(ready, frame) {
            Ok(burst) => self.orders().push(Command::Send(burst)),
            Err(_) => self.orders(),
        }
    }

    /// The burst that one send of `frame` hands to the adapter: the buffer from
    /// its first byte to the new cursor. A refused send hands over nothing and
    /// answers "not ready".
    pub open spec fn transmission(&self, ready: bool, frame: Frame) -> Result<
        Burst,
        nb::Error<Infallible>,
    > {
        if self.accepts(ready, frame.payload.len()) {
            Ok(
                Burst {
                    address: self.origin(),
                    length: (self.cursor() + frame.encoded_len()) as u16,
                },
            )
        } else {
            Err(nb::Error::WouldBlock)
        }
    }

    /// A transport over `usart` that queues its frames in `send_buffer`, with
    /// nothing queued.
    pub fn new(usart: USART, send_buffer: &'a mut [u8; 32]) -> (serial: Serial<'a, USART>)
        ensures
            serial.adapter() == usart,
            serial.orders() == usart.orders(),
            serial.cursor() == 0,
            serial.buffer() == old(send_buffer)@,
            serial.wf(),
    {
        let send_origin: u32 = address_of(send_buffer);
        Serial { usart, send_buffer, send_buffer_pos: 0, send_origin }
    }

    /// All bytes of the send buffer; the first `send_buffer_pos` of them are
    /// queued.
    pub fn send_buffer(&self) -> (bytes: &[u8; 32])
        ensures
            bytes@ == self.buffer(),
    {
        self.send_buffer
    }

    /// Arms the adapter for the two header bytes of a frame, to be received
    /// into `recv_buffer`, and returns the transfer that follows the frame in.
    /// That reception is the one order given; the send side is left as it is.
    pub fn receive(&mut self, recv_buffer: &'static mut [u8; 32]) -> (transfer: Transfer)
        ensures
            transfer.bytes() == old(recv_buffer)@,
            transfer.stage_spec() == ReceiveStage::Header,
            final(self).orders() == old(self).orders().push(
                Command::Receive(transfer.header_burst()),
            ),
            final(self).cursor() == old(self).cursor(),
            final(self).buffer() == old(self).buffer(),
            final(self).origin() == old(self).origin(),
    {
        let origin: u32 = address_of(recv_buffer);
        self.usart.receive(HEADER_SIZE, origin);
        Transfer::armed(recv_buffer, origin)
    }

    /// One send, for an adapter that has answered `ready` to the question
    /// whether a transmission can be started.
    ///
    /// The frame `[message_type, 1 + data.len(), operation, data..]` is accepted
    /// exactly when `ready` holds and appending it at the cursor does not carry
    /// the cursor past the 32 bytes of the buffer. The answer is then the burst
    /// to transmit, which runs from the buffer's first byte to the new cursor
    /// and so takes along every frame queued before. The adapter is not
    /// touched.
    pub fn enqueue(&mut self, ready: bool, message_type: u8, operation: u8, data: &[u8]) -> (r:
        Result<Burst, nb::Error<Infallible>>)
        ensures
            old(self).queues_to(
                *final(self),
                ready,
                (Frame { message_type, operation, payload: data@ }),
            ),
            final(self).adapter() == old(self).adapter(),
            r == old(self).transmission(
                ready,
                (Frame { message_type, operation, payload: data@ }),
            ),
            old(self).wf() ==> final(self).wf() && final(self).queued() == queue_one(
                old(self).queued(),
                ready,
                (Frame { message_type, operation, payload: data@ }),
            ),
    {
        let pos: usize = self.send_buffer_pos as usize;
        let len: usize = data.len();
        if ready && pos <= BUFFER_SIZE - FRAME_OVERHEAD && len <= BUFFER_SIZE - FRAME_OVERHEAD - pos {
            let ghost frame = Frame { message_type, operation, payload: data@ };
            let ghost before = self.send_buffer@;
            self.send_buffer[pos] = message_type;
            self.send_buffer[pos + 1] = (1 + len) as u8;
            self.send_buffer[pos + 2] = operation;
            let mut i: usize = 0;
            while i < len
                invariant
                    i <= len,
                    len == data@.len(),
                    pos + 3 + len <= 32,
                    pos == old(self).send_buffer_pos,
                    self.send_buffer_pos == old(self).send_buffer_pos,
                    self.send_origin == old(self).send_origin,
                    self.usart == old(self).usart,
                    self.send_buffer@.len() == 32,
                    before == old(self).send_buffer@,
                    forall|k: int| 0 <= k < pos ==> self.send_buffer@[k] == before[k],
                    forall|k: int| pos + 3 + len <= k < 32 ==> self.send_buffer@[k] == before[k],
                    self.send_buffer@[pos as int] == message_type,
                    self.send_buffer@[pos + 1] == (1 + len) as u8,
                    self.send_buffer@[pos + 2] == operation,
                    forall|k: int| 0 <= k < i ==> self.send_buffer@[pos + 3 + k] == data@[k],
                decreases len - i,
            {
                self.send_buffer[pos + 3 + i] = data[i];
                i = i + 1;
            }
            self.send_buffer_pos = (pos + 3 + len) as u16;
            proof {
                let end = pos + 3 + len;
                assert(self.send_buffer@ =~= before.take(pos as int) + frame.encoding()
                    + before.skip(end as int));
                assert(self.send_buffer@.take(end as int) =~= before.take(pos as int)
                    + frame.encoding());
            }
            Ok(Burst { address: self.send_origin, length: self.send_buffer_pos })
        } else {
            Err(nb::Error::WouldBlock)
        }
    }

    /// Queues one frame and orders its transmission, if the adapter is ready
    /// and the frame fits: asks the adapter whether a transmission can be
    /// started, does what `enqueue` describes for its answer, and hands the
    /// adapter the burst of an accepted frame. A frame that does not fit is
    /// refused whatever the adapter answers.
    pub fn send(&mut self, message_type: u8, operation: u8, data: &[u8]) -> (r: Result<
        (),
        nb::Error<Infallible>,
    >)
        ensures
            exists|ready: bool|
                {
                    &&& #[trigger] old(self).sends_to(
                        *final(self),
                        ready,
                        (Frame { message_type, operation, payload: data@ }),
                    )
                    &&& r == if old(self).accepts(ready, data@.len()) {
                        Ok::<(), nb::Error<Infallible>>(())
                    } else {
                        Err::<(), nb::Error<Infallible>>(nb::Error::WouldBlock)
                    }
                    &&& old(self).wf() ==> final(self).queued() == queue_one(
                        old(self).queued(),
                        ready,
                        (Frame { message_type, operation, payload: data@ }),
                    )
                },
            !fits(old(self).cursor(), data@.len()) ==> {
                &&& r == Err::<(), nb::Error<Infallible>>(nb::Error::WouldBlock)
                &&& final(self).cursor() == old(self).cursor()
                &&& final(self).buffer() == old(self).buffer()
                &&& final(self).orders() == old(self).orders()
            },
            old(self).wf() ==> final(self).wf(),
    {
        let ready: bool = self.usart.is_send_ready();
        let queued = self.enqueue(ready, message_type, operation, data);
        let r = match queued {
            Ok(burst) => {
                self.usart.send(burst.address, burst.length);
                Ok(())
            },
            Err(e) => Err(e),
        };
        proof {
            let frame = Frame { message_type, operation, payload: data@ };
            assert(old(self).sends_to(*self, ready, frame));
        }
        r
    }

    /// The adapter has finished a transmission: nothing is queued any more,
    /// and the adapter is acknowledged, which is the one order given. The
    /// bytes of the buffer stay.
    pub fn tx_interrupt(&mut self)
        ensures
            final(self).orders() == old(self).orders().push(Command::TxInterrupt),
            final(self).cursor() == 0,
            final(self).wf(),
            final(self).buffer() == old(self).buffer(),
            final(self).origin() == old(self).origin(),
    {
        self.send_buffer_pos = 0;
        self.usart.tx_interrupt();
    }
}

} // verus!
