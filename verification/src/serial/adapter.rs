//! The capability set that one physical link offers to the transport.

use vstd::prelude::*;

verus! {

/// A stretch of memory that the DMA controller moves in one go.
#[derive(Clone, Copy, Debug, PartialEq, Eq, Structural)]
pub struct Burst {
    /// The address of the first byte.
    pub address: u32,
    /// The number of bytes.
    pub length: u16,
}

impl Burst {
    /// The addresses that the burst covers: those that lie fewer than `length`
    /// bytes behind `address`, counted round the 32-bit address space.
    pub open spec fn span(self) -> Set<int> {
        Set::new(
            |a: int|
                0 <= a < 0x1_0000_0000 && (a - self.address) % 0x1_0000_0000 < self.length,
        )
    }
}

/// One order given to an adapter.
#[derive(Clone, Copy, Debug, PartialEq, Eq, Structural)]
pub enum Command {
    /// Receive from the line into the burst's memory.
    Receive(Burst),
    /// Send the burst's memory to the line.
    Send(Burst),
    /// Acknowledge a wake-up of the line.
    AckWakeup,
    /// Acknowledge the completion of a transmission.
    TxInterrupt,
}

/// DMA-driven send and receive primitives of one UART.
///
/// An adapter has a record of the orders it was given, oldest first. The two
/// queries give no order; each of the other four methods adds the one order
/// that stands for it. What an adapter answers to a query is up to the
/// hardware behind it, and nothing is claimed of that here.
///
/// The record is what the contracts of the transport speak of. A verified
/// adapter defines `orders` and is held to the four claims below. An adapter
/// written outside verified code cannot define it and is held to nothing: of
/// such an adapter the claims are taken on trust, as saying that each method
/// gives the hardware exactly the order that it stands for.
pub trait DmaUsart {
    /// The orders given to this adapter so far, oldest first.
    ///
    /// The body here only lets an adapter outside verified code leave the
    /// record out. No adapter with one of the four ordering methods can meet
    /// their claims with it, so every verified adapter gives its own.
    open spec fn orders(&self) -> Seq<Command> {
        Seq::empty()
    }

    /// Whether a reception that was armed has completed.
    fn is_receive_pending(&mut self) -> (pending: bool)
        ensures
            final(self).orders() == old(self).orders(),
    ;

    /// Arms a reception of `length` bytes into memory at address `buffer`.
    fn receive(&mut self, length: u16, buffer: u32)
        ensures
            final(self).orders() == old(self).orders().push(
                Command::Receive(Burst { address: buffer, length }),
            ),
    ;

    /// Whether a transmission can be started.
    fn is_send_ready(&mut self) -> (ready: bool)
        ensures
            final(self).orders() == old(self).orders(),
    ;

    /// Starts a transmission of `len` bytes from memory at address `buffer`.
    fn send(&mut self, buffer: u32, len: u16)
        ensures
            final(self).orders() == old(self).orders().push(
                Command::Send(Burst { address: buffer, length: len }),
            ),
    ;

    /// Acknowledges a wake-up of the line.
    fn ack_wakeup(&mut self)
        ensures
            final(self).orders() == old(self).orders().push(Command::AckWakeup),
    ;

    /// Acknowledges the completion of a transmission.
    fn tx_interrupt(&mut self)
        ensures
            final(self).orders() == old(self).orders().push(Command::TxInterrupt),
    ;
}

} // verus!
