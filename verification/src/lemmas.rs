//! What holds of the framing: the layout of an outbound NTB, how its packets
//! relate to it, and that what is sent is what is read back.

use vstd::prelude::*;
use vstd::arithmetic::div_mod::{
    lemma_basic_div,
    lemma_div_pos_is_pos,
    lemma_fundamental_div_mod,
    lemma_fundamental_div_mod_converse,
    lemma_mod_pos_bound,
};
use vstd::arithmetic::mul::lemma_mul_inequality;
use crate::ntb::{
    complete,
    encode,
    first_pointer,
    fragments,
    next_datagram,
    next_seq,
    packet,
    packet_count,
    reassemble,
    NtbOutHeader,
    NTB_MAX_SIZE,
    NDP_SIG,
    NTH_SIG,
    OUT_HEADER_LEN,
};
use crate::wire::{u16_at, u32_at};

verus! {

/// What the quotient and the remainder of a length by a packet size are.
proof fn lemma_quotient(len: int, m: int)
    requires
        0 <= len,
        0 < m,
    ensures
        0 <= len / m,
        0 <= len % m < m,
        len == (len / m) * m + len % m,
{
    lemma_fundamental_div_mod(len, m);
    lemma_mod_pos_bound(len, m);
    lemma_div_pos_is_pos(len, m);
    assert((len / m) * m == m * (len / m)) by (nonlinear_arith);
}

/// The fields of the transfer header, each at its offset.
pub proof fn lemma_nth_fields(header: NtbOutHeader)
    ensures
        header.nth_bytes().len() == 12,
        u32_at(header.nth_bytes(), 0) == header.nth_sig,
        u16_at(header.nth_bytes(), 4) == header.nth_len,
        u16_at(header.nth_bytes(), 6) == header.nth_seq,
        u16_at(header.nth_bytes(), 8) == header.nth_total_len,
        u16_at(header.nth_bytes(), 10) == header.nth_first_index,
{
}

/// The fields of the datagram pointer, each at its offset.
pub proof fn lemma_ndp_fields(header: NtbOutHeader)
    ensures
        header.ndp_bytes().len() == 16,
        u32_at(header.ndp_bytes(), 0) == header.ndp_sig,
        u16_at(header.ndp_bytes(), 4) == header.ndp_len,
        u16_at(header.ndp_bytes(), 6) == header.ndp_next_index,
        u16_at(header.ndp_bytes(), 8) == header.ndp_datagram_index,
        u16_at(header.ndp_bytes(), 10) == header.ndp_datagram_len,
        u16_at(header.ndp_bytes(), 12) == header.ndp_term1,
        u16_at(header.ndp_bytes(), 14) == header.ndp_term2,
{
}

/// The header of an outbound NTB is 28 bytes long.
pub proof fn lemma_header_len(header: NtbOutHeader)
    ensures
        header.bytes().len() == OUT_HEADER_LEN,
{
    lemma_nth_fields(header);
    lemma_ndp_fields(header);
}

/// The layout of an outbound NTB: the transfer header with its signature,
/// its own length, the sequence number, the length of the whole block and
/// the offset of the datagram pointer; the pointer with its signature, its
/// length, no successor, the datagram's offset and length, and a terminating
/// entry of zeros; then the datagram itself.
pub proof fn lemma_encode_layout(seq: u16, data: Seq<u8>)
    ensures
        ({
            let ntb = encode(seq, data);
            &&& ntb.len() == OUT_HEADER_LEN + data.len()
            &&& u32_at(ntb, 0) == NTH_SIG
            &&& u16_at(ntb, 4) == 12
            &&& u16_at(ntb, 6) == seq
            &&& u16_at(ntb, 8) == (data.len() + 28) % 65536
            &&& u16_at(ntb, 10) == 12
            &&& u32_at(ntb, 12) == NDP_SIG
            &&& u16_at(ntb, 16) == 16
            &&& u16_at(ntb, 18) == 0
            &&& u16_at(ntb, 20) == 28
            &&& u16_at(ntb, 22) == data.len() % 65536
            &&& u16_at(ntb, 24) == 0
            &&& u16_at(ntb, 26) == 0
            &&& ntb.subrange(28, 28 + data.len() as int) == data
        }),
{
    let header = NtbOutHeader::for_datagram(seq, data.len());
    let nth = header.nth_bytes();
    let ndp = header.ndp_bytes();
    let ntb = encode(seq, data);
    lemma_nth_fields(header);
    lemma_ndp_fields(header);
    assert(ntb =~= nth + ndp + data);
    assert forall|i: int| 0 <= i < 12 implies ntb[i] == nth[i] by {}
    assert forall|i: int| 0 <= i < 16 implies ntb[12 + i] == ndp[i] by {}
    assert(ntb.subrange(28, 28 + data.len() as int) =~= data);
}

/// Successive NTBs carry successive sequence numbers: the number in the
/// transfer header of the later one is that of the earlier one plus one,
/// modulo 65536.
pub proof fn lemma_sequence_advances(seq: u16, first: Seq<u8>, second: Seq<u8>)
    ensures
        u16_at(encode(next_seq(seq), second), 6) == (u16_at(encode(seq, first), 6) + 1) % 65536,
{
    lemma_encode_layout(seq, first);
    lemma_encode_layout(next_seq(seq), second);
}

/// Every packet before the last is full, and the last is shorter than a full
/// one: it holds what is left over, which is nothing where the packet size
/// divides the length.
pub proof fn lemma_packet_lengths(ntb: Seq<u8>, m: nat)
    requires
        m > 0,
    ensures
        fragments(ntb, m).len() == ntb.len() / m + 1,
        forall|i: int| 0 <= i < ntb.len() / m ==> (#[trigger] fragments(ntb, m)[i]).len() == m,
        fragments(ntb, m)[(ntb.len() / m) as int].len() == ntb.len() % m,
        ntb.len() % m < m,
{
    let len = ntb.len() as int;
    let q = len / (m as int);
    lemma_quotient(len, m as int);
    assert forall|i: int| 0 <= i < q implies (#[trigger] fragments(ntb, m)[i]).len() == m by {
        lemma_mul_inequality(i + 1, q, m as int);
        lemma_mul_inequality(0, i, m as int);
        assert((i + 1) * m == i * m + m) by (nonlinear_arith);
    }
}

/// A receiver that takes the packets of an NTB until the first short one
/// holds the NTB, whole and in order.
pub proof fn lemma_reassemble_fragments(ntb: Seq<u8>, m: nat)
    requires
        m > 0,
    ensures
        reassemble(fragments(ntb, m), m) == ntb,
    decreases ntb.len(),
{
    let len = ntb.len() as int;
    let d = m as int;
    let ps = fragments(ntb, m);
    lemma_quotient(len, d);
    let q = len / d;
    assert(0 * d == 0) by (nonlinear_arith);
    if len < d {
        lemma_basic_div(len, d);
        assert(ps[0] =~= ntb);
    } else {
        let rest = ntb.subrange(d, len);
        let tail = ps.subrange(1, ps.len() as int);
        assert(q >= 1) by (nonlinear_arith)
            requires
                len == q * d + len % d,
                0 <= len % d < d,
                len >= d,
                d > 0,
        ;
        assert((q - 1) * d == q * d - d) by (nonlinear_arith);
        lemma_fundamental_div_mod_converse(len - d, d, q - 1, len % d);
        assert(packet_count(rest.len(), m) == packet_count(ntb.len(), m) - 1);
        assert(ps[0] =~= ntb.subrange(0, d));
        assert forall|i: int| 0 <= i < tail.len() implies tail[i] == fragments(rest, m)[i] by {
            assert((i + 1) * d == i * d + d) by (nonlinear_arith);
            lemma_mul_inequality(0, i, d);
            lemma_mul_inequality(i, q - 1, d);
            assert(packet(ntb, m, i + 1) =~= packet(rest, m, i));
        }
        assert(tail =~= fragments(rest, m));
        lemma_reassemble_fragments(rest, m);
        assert(ntb.subrange(0, d) + rest =~= ntb);
    }
}

/// A datagram that, together with the header, is shorter than one packet is
/// sent as a single short packet, and no empty packet follows it.
pub proof fn lemma_short_frame(seq: u16, data: Seq<u8>, m: nat)
    requires
        OUT_HEADER_LEN + data.len() < m,
    ensures
        fragments(encode(seq, data), m) == seq![encode(seq, data)],
{
    let ntb = encode(seq, data);
    lemma_encode_layout(seq, data);
    lemma_basic_div(ntb.len() as int, m as int);
    assert(0 * m == 0) by (nonlinear_arith);
    assert(fragments(ntb, m)[0] =~= ntb);
    assert(fragments(ntb, m) =~= seq![ntb]);
}

/// A datagram that, together with the header, fills a packet or more is sent
/// as a full first packet, which holds the header and the datagram's first
/// bytes, and further packets, which hold what is left of the datagram, a
/// packet's size at a time. The last packet is the one that is not full. It is
/// empty where what was left after the first packet is a multiple of the
/// packet size, also where nothing was left.
pub proof fn lemma_long_frame(seq: u16, data: Seq<u8>, m: nat)
    requires
        m >= OUT_HEADER_LEN,
        OUT_HEADER_LEN + data.len() >= m,
    ensures
        ({
            let ps = fragments(encode(seq, data), m);
            let header = NtbOutHeader::for_datagram(seq, data.len()).bytes();
            let first = m - OUT_HEADER_LEN;
            &&& ps.len() >= 2
            &&& ps[0] == header + data.subrange(0, first)
            &&& forall|i: int|
                1 <= i < ps.len() - 1 ==> #[trigger] ps[i] == data.subrange(
                    i * m - OUT_HEADER_LEN,
                    i * m - OUT_HEADER_LEN + m,
                )
            &&& ps.last() == data.subrange(
                (ps.len() - 1) * m - OUT_HEADER_LEN,
                data.len() as int,
            )
            &&& ps.last().len() == (data.len() - first) % (m as int)
            &&& ps.last().len() < m
        }),
{
    let ntb = encode(seq, data);
    let ps = fragments(ntb, m);
    let header = NtbOutHeader::for_datagram(seq, data.len()).bytes();
    let len = ntb.len() as int;
    let d = m as int;
    let q = len / d;
    lemma_encode_layout(seq, data);
    lemma_packet_lengths(ntb, m);
    lemma_quotient(len, d);
    assert(q >= 1) by (nonlinear_arith)
        requires
            len == q * d + len % d,
            0 <= len % d < d,
            len >= d,
            d > 0,
    ;
    assert(0 * d == 0) by (nonlinear_arith);
    assert(1 * d == d) by (nonlinear_arith);
    assert(ps[0] =~= header + data.subrange(0, d - 28));
    assert forall|i: int| 1 <= i < ps.len() - 1 implies #[trigger] ps[i] == data.subrange(
        i * d - 28,
        i * d - 28 + d,
    ) by {
        lemma_mul_inequality(1, i, d);
        lemma_mul_inequality(i + 1, q, d);
        assert((i + 1) * d == i * d + d) by (nonlinear_arith);
        assert(ps[i] =~= data.subrange(i * d - 28, i * d - 28 + d));
    }
    lemma_mul_inequality(1, q, d);
    assert(ps[q] =~= data.subrange(q * d - 28, data.len() as int));
    assert((q - 1) * d == q * d - d) by (nonlinear_arith);
    lemma_fundamental_div_mod_converse(len - d, d, q - 1, len % d);
}

/// The packets of an NTB hold a whole transfer: the last one is short.
pub proof fn lemma_fragments_complete(ntb: Seq<u8>, m: nat)
    requires
        m > 0,
    ensures
        complete(fragments(ntb, m), m),
    decreases ntb.len(),
{
    let len = ntb.len() as int;
    let d = m as int;
    let ps = fragments(ntb, m);
    lemma_quotient(len, d);
    let q = len / d;
    assert(0 * d == 0) by (nonlinear_arith);
    if len < d {
        lemma_basic_div(len, d);
        assert(ps[0] =~= ntb);
    } else {
        let rest = ntb.subrange(d, len);
        let tail = ps.subrange(1, ps.len() as int);
        assert(q >= 1) by (nonlinear_arith)
            requires
                len == q * d + len % d,
                0 <= len % d < d,
                len >= d,
                d > 0,
        ;
        assert((q - 1) * d == q * d - d) by (nonlinear_arith);
        lemma_fundamental_div_mod_converse(len - d, d, q - 1, len % d);
        assert forall|i: int| 0 <= i < tail.len() implies tail[i] == fragments(rest, m)[i] by {
            assert((i + 1) * d == i * d + d) by (nonlinear_arith);
            lemma_mul_inequality(0, i, d);
            lemma_mul_inequality(i, q - 1, d);
            assert(packet(ntb, m, i + 1) =~= packet(rest, m, i));
        }
        assert(tail =~= fragments(rest, m));
        lemma_fragments_complete(rest, m);
    }
}

/// A block whose first four bytes are not the transfer header's signature is
/// not accepted, whatever follows and whatever its length.
pub proof fn lemma_bad_signature_rejected(ntb: Seq<u8>)
    requires
        ntb.len() < 4 || u32_at(ntb, 0) != NTH_SIG,
    ensures
        first_pointer(ntb) is Err,
        next_datagram(ntb, 0) is Err,
{
}

/// What is sent is what is read back. A datagram that fits the largest NTB,
/// wrapped by the sender and cut into packets of any size, is gathered by the
/// receiver into a block that it can hold; the first read from that block
/// finds the datagram, unchanged and in its full length, and leaves no
/// pointer pending.
pub proof fn lemma_round_trip(seq: u16, data: Seq<u8>, m: nat)
    requires
        data.len() <= NTB_MAX_SIZE - OUT_HEADER_LEN,
        m > 0,
    ensures
        complete(fragments(encode(seq, data), m), m),
        ({
            let ntb = reassemble(fragments(encode(seq, data), m), m);
            &&& ntb == encode(seq, data)
            &&& ntb.len() <= NTB_MAX_SIZE
            &&& next_datagram(ntb, 0) matches Ok(d)
            &&& d.len == data.len()
            &&& d.next == 0
            &&& ntb.subrange(d.offset as int, d.offset + d.len) == data
        }),
{
    lemma_encode_layout(seq, data);
    lemma_reassemble_fragments(encode(seq, data), m);
    lemma_fragments_complete(encode(seq, data), m);
}

} // verus!
