//! The sending side: one datagram becomes one NTB, cut into USB packets.

use vstd::prelude::*;
use vstd::arithmetic::div_mod::lemma_fundamental_div_mod_converse;
use vstd::slice::{slice_subrange, slice_to_vec};
use crate::ntb::{encode, fragments, next_seq, packet, views, NtbOutHeader};

verus! {

/// Turns datagrams into the packets of a bulk-IN transfer. It numbers the
/// NTBs it builds, one after the other.
pub struct Sender {
    seq: u16,
    max_packet_size: usize,
}

impl Sender {
    #[verifier::type_invariant]
    spec fn inv(self) -> bool {
        self.max_packet_size > 0
    }

    /// The sequence number that the next NTB will carry.
    pub closed spec fn spec_seq(&self) -> u16 {
        self.seq
    }

    /// The most bytes that one packet of the endpoint holds.
    pub closed spec fn spec_max_packet_size(&self) -> usize {
        self.max_packet_size
    }

    /// A sender for an endpoint whose packets hold `max_packet_size` bytes.
    /// Its first NTB carries the sequence number zero.
    pub fn new(max_packet_size: u16) -> (sender: Sender)
        requires
            max_packet_size > 0,
        ensures
            sender.spec_seq() == 0,
            sender.spec_max_packet_size() == max_packet_size,
    {
        Sender { seq: 0, max_packet_size: max_packet_size as usize }
    }

    /// The sequence number that the next NTB will carry.
    #[verifier::when_used_as_spec(spec_seq)]
    pub fn seq(&self) -> (seq: u16)
        ensures
            seq == self.spec_seq(),
    {
        self.seq
    }

    /// The most bytes that one packet of the endpoint holds.
    #[verifier::when_used_as_spec(spec_max_packet_size)]
    pub fn max_packet_size(&self) -> (m: usize)
        ensures
            m == self.spec_max_packet_size(),
            m > 0,
    {
        proof {
            use_type_invariant(self);
        }
        self.max_packet_size
    }

    /// Wraps `data` in an NTB of its own and returns the packets to write to
    /// the endpoint, in order: every packet but the last is full, and the last
    /// is short, or empty where the NTB fills its packets exactly. The
    /// sequence number advances whether or not the packets are written.
    pub fn write_packet(&mut self, data: &[u8]) -> (packets: Vec<Vec<u8>>)
        ensures
            final(self).spec_seq() == next_seq(old(self).spec_seq()),
            final(self).spec_max_packet_size() == old(self).spec_max_packet_size(),
            views(packets@) == fragments(
                encode(old(self).spec_seq(), data@),
                old(self).spec_max_packet_size() as nat,
            ),
    {
        proof {
            use_type_invariant(&*self);
        }
        let seq = self.seq;
        let m = self.max_packet_size;
        self.seq = seq.wrapping_add(1);

        let header = NtbOutHeader::new(seq, data.len());
        let mut ntb: Vec<u8> = Vec::new();
        header.byteify(&mut ntb);
        ntb.extend_from_slice(data);
        assert(ntb@ =~= encode(seq, data@));

        let len = ntb.len();
        let mut packets: Vec<Vec<u8>> = Vec::new();
        let mut pos: usize = 0;
        while len - pos >= m
            invariant
                m > 0,
                pos <= len,
                len == ntb@.len(),
                pos == packets@.len() * m,
                forall|j: int|
                    0 <= j < packets@.len() ==> (#[trigger] packets@[j])@ == packet(
                        ntb@,
                        m as nat,
                        j,
                    ),
            decreases len - pos,
        {
            let ghost k = packets@.len() as int;
            assert((k + 1) * m == k * m + m) by (nonlinear_arith);
            let full = slice_to_vec(slice_subrange(ntb.as_slice(), pos, pos + m));
            packets.push(full);
            pos = pos + m;
        }
        let ghost k = packets@.len() as int;
        proof {
            lemma_fundamental_div_mod_converse(len as int, m as int, k, len - pos);
        }
        let last = slice_to_vec(slice_subrange(ntb.as_slice(), pos, len));
        packets.push(last);
        assert(views(packets@) =~= fragments(ntb@, m as nat));
        packets
    }
}

} // verus!
