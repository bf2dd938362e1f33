//! An adapter in software, to drive the transport without hardware.

use vstd::prelude::*;
use crate::serial::adapter::{Burst, Command, DmaUsart};

verus! {

/// An adapter that answers the two queries from flags its owner sets, and
/// keeps every order it is given.
pub struct MockUsart {
    /// The answer to `is_receive_pending`.
    pub receive_pending: bool,
    /// The answer to `is_send_ready`.
    pub send_ready: bool,
    /// The orders given so far, oldest first.
    pub commands: Vec<Command>,
}

impl MockUsart {
    /// An adapter that was given no order yet, ready to send and with no
    /// reception pending.
    pub fn new() -> (mock: MockUsart)
        ensures
            mock.commands@ == Seq::<Command>::empty(),
            mock.send_ready,
            !mock.receive_pending,
    {
        MockUsart { receive_pending: false, send_ready: true, commands: Vec::new() }
    }

    /// Whether giving `command` takes this adapter to `after`: the order is
    /// added behind those kept so far and the flags stay.
    pub open spec fn records(&self, after: MockUsart, command: Command) -> bool {
        &&& after.commands@ == self.commands@.push(command)
        &&& after.receive_pending == self.receive_pending
        &&& after.send_ready == self.send_ready
    }
}

impl DmaUsart for MockUsart {
    open spec fn orders(&self) -> Seq<Command> {
        self.commands@
    }

    fn is_receive_pending(&mut self) -> (pending: bool)
        ensures
            pending == old(self).receive_pending,
            *final(self) == *old(self),
    {
        self.receive_pending
    }

    fn receive(&mut self, length: u16, buffer: u32)
        ensures
            old(self).records(*final(self), Command::Receive(Burst { address: buffer, length })),
    {
        self.commands.push(Command::Receive(Burst { address: buffer, length }));
    }

    fn is_send_ready(&mut self) -> (ready: bool)
        ensures
            ready == old(self).send_ready,
            *final(self) == *old(self),
    {
        self.send_ready
    }

    fn send(&mut self, buffer: u32, len: u16)
        ensures
            old(self).records(*final(self), Command::Send(Burst { address: buffer, length: len })),
    {
        self.commands.push(Command::Send(Burst { address: buffer, length: len }));
    }

    fn ack_wakeup(&mut self)
        ensures
            old(self).records(*final(self), Command::AckWakeup),
    {
        self.commands.push(Command::AckWakeup);
    }

    fn tx_interrupt(&mut self)
        ensures
            old(self).records(*final(self), Command::TxInterrupt),
    {
        self.commands.push(Command::TxInterrupt);
    }
}

} // verus!
