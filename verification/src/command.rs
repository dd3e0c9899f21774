//! Command words of control requests.
//!
//! A command word packs four fields: bits 0 to 7 hold the request's number,
//! bits 8 to 15 the type that groups it, bits 16 to 29 the size of the buffer
//! that comes with it, and bits 30 and 31 the direction of the transfer.

use vstd::prelude::*;

verus! {

/// The direction field of a request that reads from the endpoint.
pub const DIRECTION_READ: u32 = 2;

/// The largest size that a command word can declare.
pub const SIZE_MAX: usize = 0x3fff;

/// The type under which the endpoint's requests are grouped: the character `|`.
pub const REQUEST_TYPE: u32 = 0x7c;

/// The number of the request that reads the message.
pub const READ_MESSAGE_NUMBER: u32 = 0x83;

/// The size of the buffer that the read request declares.
pub const READ_MESSAGE_SIZE: usize = 256;

/// The one command that the endpoint recognizes: read the session's message
/// into a buffer of `READ_MESSAGE_SIZE` bytes.
pub const READ_MESSAGE: u32 = 0x8100_7c83;

/// The command word of a read request of type `ty` and number `nr` that
/// declares a buffer of `size` bytes.
pub open spec fn read_command(ty: u32, nr: u32, size: usize) -> u32 {
    (2u32 << 30) | ((size as u32) << 16) | (ty << 8) | nr
}

/// The size that a command word declares.
pub open spec fn declared_size(cmd: u32) -> usize {
    ((cmd >> 16) & 0x3fff) as usize
}

/// Packs the command word of a read request.
pub fn ior(ty: u32, nr: u32, size: usize) -> (cmd: u32)
    requires
        ty <= 0xff,
        nr <= 0xff,
        size <= SIZE_MAX,
    ensures
        cmd == read_command(ty, nr, size),
{
    let size_field: u32 = size as u32;
    (DIRECTION_READ << 30) | (size_field << 16) | (ty << 8) | nr
}

/// Extracts the size that a command word declares.
pub fn ioc_size(cmd: u32) -> (size: usize)
    ensures
        size == declared_size(cmd),
        size <= SIZE_MAX,
{
    let field: u32 = (cmd >> 16) & 0x3fff;
    assert(field <= 0x3fff) by (bit_vector)
        requires
            field == (cmd >> 16) & 0x3fff,
    ;
    field as usize
}

/// The size packed into a read command is the size extracted from it.
pub proof fn lemma_declared_size_of_read_command(ty: u32, nr: u32, size: usize)
    requires
        ty <= 0xff,
        nr <= 0xff,
        size <= SIZE_MAX,
    ensures
        declared_size(read_command(ty, nr, size)) == size,
{
    let s: u32 = size as u32;
    assert((((2u32 << 30) | (s << 16) | (ty << 8) | nr) >> 16) & 0x3fff == s) by (bit_vector)
        requires
            ty <= 0xff,
            nr <= 0xff,
            s <= 0x3fff,
    ;
}

/// `READ_MESSAGE` is the read command of type `|` and number `0x83` for a
/// buffer of 256 bytes, and that is the size it declares.
pub proof fn lemma_read_message_command()
    ensures
        READ_MESSAGE == read_command(REQUEST_TYPE, READ_MESSAGE_NUMBER, READ_MESSAGE_SIZE),
        declared_size(READ_MESSAGE) == READ_MESSAGE_SIZE,
{
    assert((2u32 << 30) | (256u32 << 16) | (0x7cu32 << 8) | 0x83u32 == 0x8100_7c83u32)
        by (bit_vector);
    assert((0x8100_7c83u32 >> 16) & 0x3fff == 256u32) by (bit_vector);
}

/// The requests that the endpoint serves.
#[derive(Clone, Copy, Debug, PartialEq, Eq, Structural)]
pub enum Opcode {
    /// Read the session's message.
    ReadMessage,
}

impl Opcode {
    /// The opcode that a command word names, if the endpoint serves it.
    pub open spec fn of(cmd: u32) -> Option<Opcode> {
        if cmd == READ_MESSAGE {
            Some(Opcode::ReadMessage)
        } else {
            None
        }
    }

    /// Recognizes a command word: `READ_MESSAGE` names the read request, and
    /// no other word names anything.
    pub fn decode(cmd: u32) -> (opcode: Option<Opcode>)
        ensures
            opcode == Opcode::of(cmd),
    {
        if cmd == READ_MESSAGE {
            Some(Opcode::ReadMessage)
        } else {
            None
        }
    }
}

} // verus!
