//! The transfer channel: the only way bytes reach a caller's memory.

use vstd::prelude::*;
use crate::error::DispatchError;

verus! {

/// What a destination is, to a contract.
pub struct DestinationView {
    /// The number of bytes that the caller's region grants from the
    /// destination's start.
    pub room: nat,
    /// The bytes delivered so far, in order from the destination's start.
    pub received: Seq<u8>,
}

impl DestinationView {
    /// Whether `len` more bytes still lie inside the granted region.
    pub open spec fn grants(self, len: nat) -> bool {
        self.received.len() + len <= self.room
    }

    /// The destination once `data` has been delivered to it.
    pub open spec fn with(self, data: Seq<u8>) -> DestinationView {
        DestinationView { room: self.room, received: self.received + data }
    }
}

/// The region of a caller's memory that a request names as its destination.
/// Nothing is ever delivered beyond what the region grants.
#[derive(Debug)]
pub struct Destination {
    free: usize,
    received: Vec<u8>,
}

impl View for Destination {
    type V = DestinationView;

    closed spec fn view(&self) -> DestinationView {
        DestinationView {
            room: (self.free + self.received@.len()) as nat,
            received: self.received@,
        }
    }
}

impl Destination {
    /// A destination that grants `room` bytes and has received none. A
    /// destination that cannot be reached at all grants zero.
    pub fn new(room: usize) -> (dest: Self)
        ensures
            dest@ == (DestinationView { room: room as nat, received: Seq::empty() }),
    {
        Destination { free: room, received: Vec::new() }
    }

    /// The number of bytes that the region still grants behind those
    /// delivered.
    pub fn free(&self) -> (free: usize)
        ensures
            free == self@.room - self@.received.len(),
    {
        self.free
    }

    /// The bytes delivered so far.
    pub fn received(&self) -> (bytes: &[u8])
        ensures
            bytes@ == self@.received,
            bytes@.len() <= self@.room,
    {
        self.received.as_slice()
    }
}

/// The capability to write into one request's destination, up to the size
/// that the request declared.
#[derive(Debug)]
pub struct TransferChannel {
    remaining: usize,
}

impl TransferChannel {
    /// The number of bytes that the channel still lets through.
    pub closed spec fn remaining(&self) -> nat {
        self.remaining as nat
    }

    /// A channel for a request that declared `declared_size` bytes.
    pub fn new(declared_size: usize) -> (channel: Self)
        ensures
            channel.remaining() == declared_size,
    {
        TransferChannel { remaining: declared_size }
    }

    /// Whether the channel delivers `len` bytes to `dest`: they must fit in
    /// what is left of the declared size and lie inside the granted region.
    pub open spec fn admits(&self, dest: DestinationView, len: nat) -> bool {
        len <= self.remaining() && dest.grants(len)
    }

    /// Writes `data` to `dest`, whole or not at all. Where the channel admits
    /// it, the bytes are delivered behind those already there and count
    /// against the declared size. Else nothing changes and the write is
    /// refused with `TransferFault`.
    pub fn write_slice(&mut self, dest: &mut Destination, data: &[u8]) -> (written: Result<
        (),
        DispatchError,
    >)
        ensures
            old(self).admits(old(dest)@, data@.len()) ==> {
                &&& written is Ok
                &&& final(dest)@ == old(dest)@.with(data@)
                &&& final(self).remaining() == old(self).remaining() - data@.len()
            },
            !old(self).admits(old(dest)@, data@.len()) ==> {
                &&& written == Err::<(), DispatchError>(DispatchError::TransferFault)
                &&& final(dest)@ == old(dest)@
                &&& final(self).remaining() == old(self).remaining()
            },
    {
        let len: usize = data.len();
        if len > self.remaining || len > dest.free {
            return Err(DispatchError::TransferFault);
        }
        dest.received.extend_from_slice(data);
        dest.free = dest.free - len;
        self.remaining = self.remaining - len;
        assert(dest@.received =~= old(dest)@.received + data@);
        Ok(())
    }
}

} // verus!
