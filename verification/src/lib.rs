//! Command framing for W5500-class Ethernet controllers on a shared SPI bus.
//!
//! A register access is one bus transaction: a three-byte header
//! `[opcode, address high byte, address low byte]` followed by the payload,
//! all under a single chip-select assertion. This crate builds each
//! transaction as plain data and proves the encoding exact; an unverified
//! transport layer executes the transaction on the physical bus and hands
//! the outcome back unchanged.

use vstd::prelude::*;
use vstd::slice::slice_to_vec;

verus! {

/// Opcode byte that opens a register read: the chip clocks the payload out.
pub const READ_OPCODE: u8 = 0x0F;

/// Opcode byte that opens a register write: the host clocks the payload out.
pub const WRITE_OPCODE: u8 = 0xF0;

/// High byte of the big-endian address split used in the header.
pub open spec fn addr_high(address: u16) -> u8 {
    (address >> 8) as u8
}

/// Low byte of the big-endian address split used in the header.
pub open spec fn addr_low(address: u16) -> u8 {
    (address & 0xFF) as u8
}

/// The three header bytes that open every transaction:
/// opcode first, then the address, high byte before low byte.
pub open spec fn header_bytes(op: u8, address: u16) -> Seq<u8> {
    seq![op, addr_high(address), addr_low(address)]
}

/// Builds the header for operation `op` at `address`.
pub fn frame_header(op: u8, address: u16) -> (h: Vec<u8>)
    ensures
        h@ == header_bytes(op, address),
{
    proof {
        assert(address >> 8 < 256) by (bit_vector);
        assert(address & 0xFF < 256) by (bit_vector);
    }
    let mut h: Vec<u8> = Vec::new();
    h.push(op);
    h.push((address >> 8) as u8);
    h.push((address & 0xFF) as u8);
    proof {
        assert(h@ =~= header_bytes(op, address));
    }
    h
}

/// The big-endian split loses nothing: the two header address bytes
/// determine the address, so distinct addresses never frame alike.
pub proof fn lemma_header_determines_address(address: u16)
    by (bit_vector)
    ensures
        addr_high(address) * 0x100 + addr_low(address) == address,
{
}

/// One segment of a bus transaction. `Write` carries the bytes clocked out
/// to the chip; `Read` asks the transport to clock the given number of bytes
/// in from the chip, into the caller's buffer. All segments of one
/// transaction run under a single chip-select assertion; the transport's
/// transaction primitive guarantees that, never this crate.
#[derive(Debug, PartialEq, Eq)]
pub enum BusSegment {
    Write(Vec<u8>),
    Read(usize),
}

/// `t` is the one transaction a register read issues: the read header for
/// `address`, then `len` bytes clocked in.
pub open spec fn is_read_transaction(t: Seq<BusSegment>, address: u16, len: usize) -> bool {
    &&& t.len() == 2
    &&& t[0] matches BusSegment::Write(h) && h@ == header_bytes(READ_OPCODE, address)
    &&& t[1] matches BusSegment::Read(n) && n == len
}

/// `t` is the one transaction a register write issues: the write header for
/// `address`, then exactly the bytes of `data`, in order.
pub open spec fn is_write_transaction(t: Seq<BusSegment>, address: u16, data: Seq<u8>) -> bool {
    &&& t.len() == 2
    &&& t[0] matches BusSegment::Write(h) && h@ == header_bytes(WRITE_OPCODE, address)
    &&& t[1] matches BusSegment::Write(d) && d@ == data
}

/// Frames register accesses for one chip over the bus device handle it owns.
/// The handle stays opaque here: the transport layer that executes the
/// framed transactions is what constrains its type.
pub struct SpiInterface<SPI>(pub SPI);

impl<SPI> SpiInterface<SPI> {
    /// Encodes a read of `len` bytes starting at register `address` as one
    /// bus transaction. Any 16-bit address is accepted; this layer does not
    /// validate it against the chip's register map.
    pub fn read_frame(&self, address: u16, len: usize) -> (t: Vec<BusSegment>)
        ensures
            is_read_transaction(t@, address, len),
    {
        let mut t: Vec<BusSegment> = Vec::new();
        t.push(BusSegment::Write(frame_header(READ_OPCODE, address)));
        t.push(BusSegment::Read(len));
        t
    }

    /// Encodes a write of `data` starting at register `address` as one bus
    /// transaction.
    pub fn write_frame(&self, address: u16, data: &[u8]) -> (t: Vec<BusSegment>)
        ensures
            is_write_transaction(t@, address, data@),
    {
        let mut t: Vec<BusSegment> = Vec::new();
        t.push(BusSegment::Write(frame_header(WRITE_OPCODE, address)));
        t.push(BusSegment::Write(slice_to_vec(data)));
        t
    }
}

/// Surfaces the transport's verdict on a finished transaction unchanged:
/// failures are never interpreted, wrapped, retried or logged here, and
/// success carries no further meaning at this layer.
pub fn complete_transfer<E>(outcome: Result<(), E>) -> (r: Result<(), E>)
    ensures
        r == outcome,
{
    outcome
}

} // verus!
