//! The receiving side: the packets of a bulk-OUT transfer are gathered into
//! one NTB, and its datagrams are handed out one per call.

use vstd::prelude::*;
use crate::ntb::{
    complete,
    next_datagram,
    reassemble,
    views,
    ProtocolError,
    NDP_ENTRY_LEN,
    NTB_MAX_SIZE,
    NTH_LEN,
    NTH_SIG,
};
use crate::wire::{read_u16, read_u32};

verus! {

/// How long the host is given to settle after it enables the data
/// interface, before it is told that the link is up, in seconds.
pub const SETTLE_SECS: u64 = 1;

/// The notification that tells the host that the network connection of the
/// data interface `data_if` is established.
pub open spec fn connection_notification(data_if: u8) -> Seq<u8> {
    seq![0xA1u8, 0x00u8, 0x01u8, 0x00u8, data_if, 0x00u8, 0x00u8, 0x00u8]
}

/// What is to be done once the data interface is enabled: wait, then write
/// the notification to the interrupt endpoint.
pub struct ConnectionNotice {
    /// The seconds to let pass before the notification is written.
    pub settle_secs: u64,
    /// The bytes of the notification.
    pub notification: [u8; 8],
}

/// Gathers an NTB from the packets of one transfer and serves its datagrams.
///
/// The cursor is the offset of the datagram pointer that the next read
/// follows. It is zero where no pointer is pending: the next read then starts
/// from the transfer header of what has been gathered, and the owner is
/// expected to have gathered a fresh NTB before it.
pub struct Receiver {
    data_if: u8,
    max_packet_size: usize,
    ntb: Vec<u8>,
    ntb_index: usize,
}

impl Receiver {
    /// The bytes gathered so far.
    pub closed spec fn buffered(&self) -> Seq<u8> {
        self.ntb@
    }

    /// The offset of the pending datagram pointer, zero where none is.
    pub closed spec fn cursor(&self) -> usize {
        self.ntb_index
    }

    /// The number of the data interface that the receiver belongs to.
    pub closed spec fn spec_data_if(&self) -> u8 {
        self.data_if
    }

    /// The most bytes that one packet of the endpoint holds.
    pub closed spec fn spec_max_packet_size(&self) -> usize {
        self.max_packet_size
    }

    /// A receiver that has gathered nothing.
    pub fn new(data_if: u8, max_packet_size: u16) -> (receiver: Receiver)
        ensures
            receiver.buffered() == Seq::<u8>::empty(),
            receiver.cursor() == 0,
            receiver.spec_data_if() == data_if,
            receiver.spec_max_packet_size() == max_packet_size,
    {
        Receiver { data_if, max_packet_size: max_packet_size as usize, ntb: Vec::new(), ntb_index: 0 }
    }

    /// The number of the data interface that the receiver belongs to.
    #[verifier::when_used_as_spec(spec_data_if)]
    pub fn data_if(&self) -> (n: u8)
        ensures
            n == self.spec_data_if(),
    {
        self.data_if
    }

    /// The most bytes that one packet of the endpoint holds.
    #[verifier::when_used_as_spec(spec_max_packet_size)]
    pub fn max_packet_size(&self) -> (m: usize)
        ensures
            m == self.spec_max_packet_size(),
    {
        self.max_packet_size
    }

    /// Whether the next read needs a fresh NTB: no datagram pointer is
    /// pending.
    pub fn needs_ntb(&self) -> (fresh: bool)
        ensures
            fresh == (self.cursor() == 0),
    {
        self.ntb_index == 0
    }

    /// Forgets what was gathered, before the first packet of a transfer.
    pub fn start_ntb(&mut self)
        ensures
            final(self).buffered() == Seq::<u8>::empty(),
            final(self).cursor() == 0,
            final(self).spec_data_if() == old(self).spec_data_if(),
            final(self).spec_max_packet_size() == old(self).spec_max_packet_size(),
    {
        self.ntb.clear();
        self.ntb_index = 0;
    }

    /// Takes one packet of the transfer. A packet that would make the NTB
    /// larger than `NTB_MAX_SIZE` is refused and nothing changes. Otherwise
    /// it is added to what was gathered, and the result says whether it ended
    /// the transfer: it does where it is shorter than the endpoint's packet
    /// size.
    pub fn push_packet(&mut self, packet: &[u8]) -> (r: Result<bool, ProtocolError>)
        ensures
            final(self).cursor() == old(self).cursor(),
            final(self).spec_data_if() == old(self).spec_data_if(),
            final(self).spec_max_packet_size() == old(self).spec_max_packet_size(),
            old(self).buffered().len() + packet@.len() > NTB_MAX_SIZE ==> {
                &&& r == Err::<bool, ProtocolError>(ProtocolError::Overflow)
                &&& final(self).buffered() == old(self).buffered()
            },
            old(self).buffered().len() + packet@.len() <= NTB_MAX_SIZE ==> {
                &&& r == Ok::<bool, ProtocolError>(
                    packet@.len() < old(self).spec_max_packet_size(),
                )
                &&& final(self).buffered() == old(self).buffered() + packet@
            },
    {
        let held = self.ntb.len();
        if held > NTB_MAX_SIZE || packet.len() > NTB_MAX_SIZE - held {
            return Err(ProtocolError::Overflow);
        }
        self.ntb.extend_from_slice(packet);
        assert(self.ntb@ =~= old(self).ntb@ + packet@);
        Ok(packet.len() < self.max_packet_size)
    }

    /// Gathers one transfer from `packets`, which hold what the endpoint
    /// delivered, in order: forgets what was gathered before, then takes
    /// packets up to the first short one. The result says whether there was a
    /// short one, so that the NTB is whole. A transfer that exceeds
    /// `NTB_MAX_SIZE` is refused.
    pub fn gather(&mut self, packets: &[Vec<u8>]) -> (r: Result<bool, ProtocolError>)
        ensures
            final(self).cursor() == 0,
            final(self).spec_data_if() == old(self).spec_data_if(),
            final(self).spec_max_packet_size() == old(self).spec_max_packet_size(),
            reassemble(views(packets@), old(self).spec_max_packet_size() as nat).len()
                > NTB_MAX_SIZE ==> r == Err::<bool, ProtocolError>(ProtocolError::Overflow),
            reassemble(views(packets@), old(self).spec_max_packet_size() as nat).len()
                <= NTB_MAX_SIZE ==> {
                &&& r == Ok::<bool, ProtocolError>(
                    complete(views(packets@), old(self).spec_max_packet_size() as nat),
                )
                &&& final(self).buffered() == reassemble(
                    views(packets@),
                    old(self).spec_max_packet_size() as nat,
                )
            },
    {
        self.start_ntb();
        let ghost vs = views(packets@);
        let ghost m = self.max_packet_size as nat;
        let n = packets.len();
        assert(vs.subrange(0, n as int) =~= vs);
        let mut i: usize = 0;
        while i < n
            invariant
                i <= n,
                n == packets@.len(),
                vs == views(packets@),
                m == self.max_packet_size,
                self.ntb_index == 0,
                self.data_if == old(self).data_if,
                self.max_packet_size == old(self).max_packet_size,
                self.ntb@.len() <= NTB_MAX_SIZE,
                reassemble(vs, m) == self.ntb@ + reassemble(vs.subrange(i as int, n as int), m),
                complete(vs, m) == complete(vs.subrange(i as int, n as int), m),
            decreases n - i,
        {
            let ghost rest = vs.subrange(i as int, n as int);
            assert(rest[0] == packets@[i as int]@);
            assert(rest.subrange(1, rest.len() as int) =~= vs.subrange(i + 1, n as int));
            match self.push_packet(packets[i].as_slice()) {
                Err(e) => {
                    return Err(e);
                },
                Ok(true) => {
                    return Ok(true);
                },
                Ok(false) => {},
            }
            assert(self.ntb@ + reassemble(vs.subrange(i + 1, n as int), m) =~= reassemble(vs, m));
            i = i + 1;
        }
        Ok(false)
    }

    /// Copies the next datagram of the gathered NTB to the front of `buf` and
    /// returns its length; the rest of `buf` stays as it was. The cursor moves
    /// to the pointer that follows, so that a further call serves the next
    /// datagram of the same NTB; it is zero after the last one.
    ///
    /// Where the caller's buffer is too small, nothing changes. Where the NTB
    /// is malformed it is dropped: nothing stays gathered, the cursor is zero
    /// and `buf` is untouched.
    pub fn read_packet(&mut self, buf: &mut [u8]) -> (r: Result<usize, ProtocolError>)
        ensures
            final(self).spec_data_if() == old(self).spec_data_if(),
            final(self).spec_max_packet_size() == old(self).spec_max_packet_size(),
            match next_datagram(old(self).buffered(), old(self).cursor()) {
                Err(e) => {
                    &&& r == Err::<usize, ProtocolError>(e)
                    &&& final(self).buffered() == Seq::<u8>::empty()
                    &&& final(self).cursor() == 0
                    &&& final(buf)@ == old(buf)@
                },
                Ok(d) => if d.len > old(buf)@.len() {
                    &&& r == Err::<usize, ProtocolError>(ProtocolError::BufferTooSmall)
                    &&& final(self).buffered() == old(self).buffered()
                    &&& final(self).cursor() == old(self).cursor()
                    &&& final(buf)@ == old(buf)@
                } else {
                    &&& r == Ok::<usize, ProtocolError>(d.len)
                    &&& final(self).buffered() == old(self).buffered()
                    &&& final(self).cursor() == d.next
                    &&& final(buf)@ == old(self).buffered().subrange(
                        d.offset as int,
                        d.offset + d.len,
                    ) + old(buf)@.subrange(d.len as int, old(buf)@.len() as int)
                },
            },
    {
        let len = self.ntb.len();
        let mut at: usize = self.ntb_index;
        if at == 0 {
            if len < NTH_LEN {
                self.drop_ntb();
                return Err(ProtocolError::Truncated);
            }
            if read_u32(self.ntb.as_slice(), 0) != NTH_SIG {
                self.drop_ntb();
                return Err(ProtocolError::BadSignature);
            }
            at = read_u16(self.ntb.as_slice(), 10) as usize;
            if at == 0 {
                self.drop_ntb();
                return Err(ProtocolError::NoDatagramPointer);
            }
        }
        if len < NDP_ENTRY_LEN || at > len - NDP_ENTRY_LEN {
            self.drop_ntb();
            return Err(ProtocolError::Truncated);
        }
        let next = read_u16(self.ntb.as_slice(), at + 6) as usize;
        let offset = read_u16(self.ntb.as_slice(), at + 8) as usize;
        let size = read_u16(self.ntb.as_slice(), at + 10) as usize;
        if offset + size > len {
            self.drop_ntb();
            return Err(ProtocolError::DatagramOutOfBounds);
        }
        if size > buf.len() {
            return Err(ProtocolError::BufferTooSmall);
        }
        let ghost ntb = self.ntb@;
        let mut i: usize = 0;
        while i < size
            invariant
                i <= size,
                offset + size <= len,
                len == ntb.len(),
                size <= buf@.len(),
                buf@.len() == old(buf)@.len(),
                self.ntb@ == ntb,
                forall|j: int| 0 <= j < i ==> buf@[j] == ntb[offset + j],
                forall|j: int| i <= j < buf@.len() ==> buf@[j] == old(buf)@[j],
            decreases size - i,
        {
            buf[i] = self.ntb[offset + i];
            i = i + 1;
        }
        self.ntb_index = next;
        assert(buf@ =~= ntb.subrange(offset as int, offset + size) + old(buf)@.subrange(
            size as int,
            old(buf)@.len() as int,
        ));
        Ok(size)
    }

    /// Says what follows once the host has enabled the data interface: the
    /// time to let pass, and the notification to write after it.
    pub fn wait_connection(&self) -> (notice: ConnectionNotice)
        ensures
            notice.settle_secs == SETTLE_SECS,
            notice.notification@ == connection_notification(self.spec_data_if()),
    {
        let notification: [u8; 8] = [0xA1, 0x00, 0x01, 0x00, self.data_if, 0x00, 0x00, 0x00];
        assert(notification@ =~= connection_notification(self.data_if));
        ConnectionNotice { settle_secs: SETTLE_SECS, notification }
    }

    fn drop_ntb(&mut self)
        ensures
            final(self).ntb@ == Seq::<u8>::empty(),
            final(self).ntb_index == 0,
            final(self).data_if == old(self).data_if,
            final(self).max_packet_size == old(self).max_packet_size,
    {
        self.ntb.clear();
        self.ntb_index = 0;
    }
}

} // verus!
