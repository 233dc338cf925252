//! Actors: the senders and receivers of messages, and the addresses of message blocks.
pub mod reference;

use vstd::prelude::*;

verus! {

/// A contiguous block of memory, by offset and length in bytes.
#[derive(Clone, Copy, Debug, Eq, PartialEq, Structural)]
pub struct Address {
    offset: u32,
    length: u32,
}

impl View for Address {
    type V = (u32, u32);

    closed spec fn view(&self) -> (u32, u32) {
        (self.offset, self.length)
    }
}

impl Address {
    /// Creates a new address for a contiguous block with the given memory offset and length in bytes.
    pub fn new(offset: u32, length: u32) -> (r: Address)
        ensures
            r@ == (offset, length),
    {
        Address { offset, length }
    }

    /// The memory offset of the block represented by this address.
    pub fn offset(&self) -> (r: u32)
        ensures
            r == self@.0,
    {
        self.offset
    }

    /// The length in bytes of the memory block represented by this address.
    pub fn length(&self) -> (r: u32)
        ensures
            r == self@.1,
    {
        self.length
    }
}

/// A sender and receiver of messages.
/// Defines the contract between the intent and the system.
pub trait Actor {
    /// Allocates a slice whose length is greater than or equal to the given minimum.
    fn allocate(&self, minimum_length: u32) -> Address;

    /// Receives a message from another actor. The system makes no guarantees about the contents.
    fn receive(&self, message: Address);
}

/// An error that occurred while delivering a message to an actor.
#[derive(Clone, Copy, Debug, Eq, PartialEq, Structural)]
pub enum Error {
    /// Attempted to convert a large integer into too small a size.
    IntegerTooBig,
    /// Could not write the message into the guest.
    WriteFailed,
}

} // verus!
