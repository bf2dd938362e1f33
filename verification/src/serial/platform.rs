//! What the transport takes from outside itself: the signal for "not ready"
//! and the address at which a buffer lies.

use vstd::prelude::*;

verus! {

/// The error of a non-blocking operation, `nb::Error`, known by the two
/// variants that the crate defines: `Other` carries an error of the operation
/// itself, and `WouldBlock` says that the operation could not be done now and
/// is to be tried again later.
#[verifier::external_type_specification]
#[verifier::reject_recursive_types(E)]
pub struct ExNbError<E>(nb::Error<E>);

/// The address of a buffer's first byte, as the DMA controller is given it:
/// calls `as_ptr` of the array and keeps the low 32 bits. Nothing is claimed
/// of the number.
#[verifier::external_body]
pub(crate) fn address_of(buffer: &[u8; 32]) -> (address: u32) {
    buffer.as_ptr() as usize as u32
}

/// The address `by` bytes after `address`, in the 32-bit address space.
pub open spec fn offset(address: u32, by: u16) -> u32 {
    ((address + by) % 0x1_0000_0000) as u32
}

} // verus!
