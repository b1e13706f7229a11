//! The NCM Transfer Block: its layout, how one is built around a datagram,
//! how it is cut into USB packets, and how a datagram is found in one.
//!
//! An NTB starts with a 12-byte transfer header (NTH). The header points at a
//! chain of datagram pointers (NDP); each pointer names one datagram by its
//! offset and length within the block and gives the offset of the next
//! pointer, zero where it is the last.

use vstd::prelude::*;
use crate::wire::{push_u16, push_u32, u16_at, u16_le, u32_at, u32_le};

verus! {

/// The largest NTB that is sent or accepted, in bytes.
pub const NTB_MAX_SIZE: usize = 1600;

/// The signature of a transfer header: the bytes `NCMH` on the wire.
pub const NTH_SIG: u32 = 0x484d_434e;

/// The signature of a datagram pointer: the bytes `NCM0` on the wire.
pub const NDP_SIG: u32 = 0x304d_434e;

/// The length of a transfer header.
pub const NTH_LEN: usize = 12;

/// How much of a datagram pointer is read to find one datagram: the
/// signature, the length, the next pointer's offset and one entry.
pub const NDP_ENTRY_LEN: usize = 12;

/// The length of what precedes the datagram in an outbound NTB: the transfer
/// header and a datagram pointer of one entry and its terminator.
pub const OUT_HEADER_LEN: usize = 28;

/// The header of an outbound NTB: a transfer header followed by one datagram
/// pointer that holds a single entry.
#[derive(Clone, Copy, Debug, PartialEq, Eq)]
pub struct NtbOutHeader {
    pub nth_sig: u32,
    pub nth_len: u16,
    pub nth_seq: u16,
    pub nth_total_len: u16,
    pub nth_first_index: u16,
    pub ndp_sig: u32,
    pub ndp_len: u16,
    pub ndp_next_index: u16,
    pub ndp_datagram_index: u16,
    pub ndp_datagram_len: u16,
    pub ndp_term1: u16,
    pub ndp_term2: u16,
}

impl NtbOutHeader {
    /// The header that goes before a datagram of `len` bytes sent under the
    /// sequence number `seq`. The two length fields hold sixteen bits each.
    pub open spec fn for_datagram(seq: u16, len: nat) -> NtbOutHeader {
        NtbOutHeader {
            nth_sig: NTH_SIG,
            nth_len: 12,
            nth_seq: seq,
            nth_total_len: ((len + 28) % 65536) as u16,
            nth_first_index: 12,
            ndp_sig: NDP_SIG,
            ndp_len: 16,
            ndp_next_index: 0,
            ndp_datagram_index: 28,
            ndp_datagram_len: (len % 65536) as u16,
            ndp_term1: 0,
            ndp_term2: 0,
        }
    }

    /// The 12 bytes of the transfer header: signature, header length,
    /// sequence number, block length and the first pointer's offset.
    pub open spec fn nth_bytes(self) -> Seq<u8> {
        u32_le(self.nth_sig) + u16_le(self.nth_len) + u16_le(self.nth_seq) + u16_le(
            self.nth_total_len,
        ) + u16_le(self.nth_first_index)
    }

    /// The 16 bytes of the datagram pointer: signature, pointer length, the
    /// next pointer's offset, the datagram's offset and length, and the two
    /// zeros that end the list of entries.
    pub open spec fn ndp_bytes(self) -> Seq<u8> {
        u32_le(self.ndp_sig) + u16_le(self.ndp_len) + u16_le(self.ndp_next_index) + u16_le(
            self.ndp_datagram_index,
        ) + u16_le(self.ndp_datagram_len) + u16_le(self.ndp_term1) + u16_le(self.ndp_term2)
    }

    /// The 28 bytes of the header, field by field, each little-endian.
    pub open spec fn bytes(self) -> Seq<u8> {
        self.nth_bytes() + self.ndp_bytes()
    }

    /// Builds the header for a datagram of `len` bytes.
    pub fn new(seq: u16, len: usize) -> (header: NtbOutHeader)
        ensures
            header == NtbOutHeader::for_datagram(seq, len as nat),
    {
        let low: usize = len % 65536;
        NtbOutHeader {
            nth_sig: NTH_SIG,
            nth_len: 12,
            nth_seq: seq,
            nth_total_len: ((low + 28) % 65536) as u16,
            nth_first_index: 12,
            ndp_sig: NDP_SIG,
            ndp_len: 16,
            ndp_next_index: 0,
            ndp_datagram_index: 28,
            ndp_datagram_len: low as u16,
            ndp_term1: 0,
            ndp_term2: 0,
        }
    }

    /// Appends the header's bytes to `out`.
    pub fn byteify(&self, out: &mut Vec<u8>)
        ensures
            final(out)@ == old(out)@ + self.bytes(),
    {
        push_u32(out, self.nth_sig);
        push_u16(out, self.nth_len);
        push_u16(out, self.nth_seq);
        push_u16(out, self.nth_total_len);
        push_u16(out, self.nth_first_index);
        assert(out@ =~= old(out)@ + self.nth_bytes());
        let ghost mid = out@;
        push_u32(out, self.ndp_sig);
        push_u16(out, self.ndp_len);
        push_u16(out, self.ndp_next_index);
        push_u16(out, self.ndp_datagram_index);
        push_u16(out, self.ndp_datagram_len);
        push_u16(out, self.ndp_term1);
        push_u16(out, self.ndp_term2);
        assert(out@ =~= mid + self.ndp_bytes());
        assert(out@ =~= old(out)@ + self.bytes());
    }
}

/// The NTB that carries `data` alone under the sequence number `seq`.
pub open spec fn encode(seq: u16, data: Seq<u8>) -> Seq<u8> {
    NtbOutHeader::for_datagram(seq, data.len()).bytes() + data
}

/// The sequence number that follows `seq`: one more, and zero after 65535.
pub open spec fn next_seq(seq: u16) -> u16 {
    ((seq + 1) % 65536) as u16
}

/// How many USB packets carry a transfer of `len` bytes where a packet holds
/// at most `m`: the full ones and a last one that is shorter than `m`, which
/// is empty where `m` divides `len`.
pub open spec fn packet_count(len: nat, m: nat) -> nat
    recommends
        m > 0,
{
    len / m + 1
}

/// The `i`-th packet of `ntb`: its bytes from `i * m` on, `m` of them or as
/// many as are left.
pub open spec fn packet(ntb: Seq<u8>, m: nat, i: int) -> Seq<u8>
    recommends
        m > 0,
        0 <= i < packet_count(ntb.len(), m),
{
    if i * m + m <= ntb.len() {
        ntb.subrange(i * m, i * m + m)
    } else {
        ntb.subrange(i * m, ntb.len() as int)
    }
}

/// The packets that carry `ntb` over an endpoint whose packets hold at most
/// `m` bytes.
pub open spec fn fragments(ntb: Seq<u8>, m: nat) -> Seq<Seq<u8>>
    recommends
        m > 0,
{
    Seq::new(packet_count(ntb.len(), m), |i: int| packet(ntb, m, i))
}

/// The bytes of each packet of `packets`.
pub open spec fn views(packets: Seq<Vec<u8>>) -> Seq<Seq<u8>> {
    Seq::new(packets.len(), |i: int| packets[i]@)
}

/// What a receiver holds after taking packets from `packets` up to the first
/// one that is shorter than `m`, which ends the transfer.
pub open spec fn reassemble(packets: Seq<Seq<u8>>, m: nat) -> Seq<u8>
    decreases packets.len(),
{
    if packets.len() == 0 {
        Seq::empty()
    } else if packets[0].len() < m {
        packets[0]
    } else {
        packets[0] + reassemble(packets.subrange(1, packets.len() as int), m)
    }
}

/// Whether `packets` hold a whole transfer: one of them is shorter than `m`.
pub open spec fn complete(packets: Seq<Seq<u8>>, m: nat) -> bool
    decreases packets.len(),
{
    packets.len() > 0 && (packets[0].len() < m || complete(
        packets.subrange(1, packets.len() as int),
        m,
    ))
}

/// Why an NTB, or a request to read from one, was turned down.
#[derive(Clone, Copy, Debug, PartialEq, Eq, Structural)]
pub enum ProtocolError {
    /// The block ends before its transfer header or before the datagram
    /// pointer that is to be read.
    Truncated,
    /// The block does not start with the transfer header's signature.
    BadSignature,
    /// The transfer header names no datagram pointer.
    NoDatagramPointer,
    /// The datagram that a pointer names does not lie within the block.
    DatagramOutOfBounds,
    /// The caller's buffer cannot hold the datagram.
    BufferTooSmall,
    /// The packets of one transfer exceed the largest NTB.
    Overflow,
}

/// Where a datagram lies in an NTB, and where the pointer after its own is.
pub struct DatagramRef {
    /// The datagram's first byte, counted from the start of the block.
    pub offset: usize,
    /// The datagram's length.
    pub len: usize,
    /// The offset of the next datagram pointer, zero where there is none.
    pub next: usize,
}

/// The offset of the first datagram pointer, from the transfer header at the
/// start of `ntb`.
pub open spec fn first_pointer(ntb: Seq<u8>) -> Result<usize, ProtocolError> {
    if ntb.len() < NTH_LEN {
        Err(ProtocolError::Truncated)
    } else if u32_at(ntb, 0) != NTH_SIG {
        Err(ProtocolError::BadSignature)
    } else if u16_at(ntb, 10) == 0 {
        Err(ProtocolError::NoDatagramPointer)
    } else {
        Ok(u16_at(ntb, 10) as usize)
    }
}

/// The datagram named by the pointer at `at`.
pub open spec fn pointer_at(ntb: Seq<u8>, at: usize) -> Result<DatagramRef, ProtocolError> {
    if at + NDP_ENTRY_LEN > ntb.len() {
        Err(ProtocolError::Truncated)
    } else if u16_at(ntb, at + 8) + u16_at(ntb, at + 10) > ntb.len() {
        Err(ProtocolError::DatagramOutOfBounds)
    } else {
        Ok(
            DatagramRef {
                offset: u16_at(ntb, at + 8) as usize,
                len: u16_at(ntb, at + 10) as usize,
                next: u16_at(ntb, at + 6) as usize,
            },
        )
    }
}

/// The next datagram of `ntb` for a reader whose cursor is `cursor`: the one
/// named by the pointer at the cursor, or, where the cursor is zero, by the
/// first pointer that the transfer header gives.
pub open spec fn next_datagram(ntb: Seq<u8>, cursor: usize) -> Result<DatagramRef, ProtocolError> {
    if cursor == 0 {
        match first_pointer(ntb) {
            Ok(first) => pointer_at(ntb, first),
            Err(e) => Err(e),
        }
    } else {
        pointer_at(ntb, cursor)
    }
}

} // verus!
