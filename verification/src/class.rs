//! The class as the host sees it: its two interfaces, the functional
//! descriptors of the communications interface, and the two transfer halves.

use vstd::prelude::*;
use crate::receiver::Receiver;
use crate::sender::Sender;

verus! {

/// The type of a class-specific interface descriptor.
pub const CS_INTERFACE: u8 = 0x24;

/// The subtype of the header functional descriptor.
pub const CDC_TYPE_HEADER: u8 = 0x00;

/// The subtype of the union functional descriptor.
pub const CDC_TYPE_UNION: u8 = 0x06;

/// The subtype of the Ethernet networking functional descriptor.
pub const CDC_TYPE_ETHERNET: u8 = 0x0F;

/// The subtype of the NCM functional descriptor.
pub const CDC_TYPE_NCM: u8 = 0x1A;

/// The packet size of the interrupt endpoint that carries notifications.
pub const NOTIF_MAX_PACKET_SIZE: u16 = 8;

/// The polling interval of the interrupt endpoint, in milliseconds.
pub const NOTIF_INTERVAL_MS: u8 = 255;

/// The header functional descriptor: CDC release 1.10.
pub open spec fn header_descriptor() -> Seq<u8> {
    seq![CDC_TYPE_HEADER, 0x10u8, 0x01u8]
}

/// The union functional descriptor: the communications interface controls
/// the interface that follows it.
pub open spec fn union_descriptor(comm_if: u8) -> Seq<u8>
    recommends
        comm_if < 255,
{
    seq![CDC_TYPE_UNION, comm_if, (comm_if + 1) as u8]
}

/// The Ethernet networking functional descriptor: the MAC address is string
/// 4, no statistics, segments of up to 1514 bytes, no multicast or power
/// filters.
pub open spec fn ethernet_descriptor() -> Seq<u8> {
    seq![
        CDC_TYPE_ETHERNET,
        0x04u8,
        0u8,
        0u8,
        0u8,
        0u8,
        0xeau8,
        0x05u8,
        0u8,
        0u8,
        0u8,
    ]
}

/// The NCM functional descriptor: NCM release 1.00, no optional
/// capabilities.
pub open spec fn ncm_descriptor() -> Seq<u8> {
    seq![CDC_TYPE_NCM, 0x00u8, 0x01u8, 0u8]
}

/// A CDC-NCM function: a communications interface and the data interface
/// after it, whose two bulk endpoints have the same packet size.
pub struct CdcNcmClass {
    comm_if: u8,
    data_if: u8,
    max_packet_size: u16,
}

impl CdcNcmClass {
    #[verifier::type_invariant]
    spec fn inv(self) -> bool {
        &&& self.comm_if < 255
        &&& self.max_packet_size > 0
    }

    /// The number of the communications interface.
    pub closed spec fn spec_comm_if(&self) -> u8 {
        self.comm_if
    }

    /// The number of the data interface.
    pub closed spec fn spec_data_if(&self) -> u8 {
        self.data_if
    }

    /// The packet size of the two bulk endpoints.
    pub closed spec fn spec_max_packet_size(&self) -> u16 {
        self.max_packet_size
    }

    /// The class on the interfaces `comm_if` and `data_if`, with bulk
    /// endpoints whose packets hold `max_packet_size` bytes.
    pub fn new(comm_if: u8, data_if: u8, max_packet_size: u16) -> (class: CdcNcmClass)
        requires
            comm_if < 255,
            max_packet_size > 0,
        ensures
            class.spec_comm_if() == comm_if,
            class.spec_data_if() == data_if,
            class.spec_max_packet_size() == max_packet_size,
    {
        CdcNcmClass { comm_if, data_if, max_packet_size }
    }

    /// The number of the communications interface.
    #[verifier::when_used_as_spec(spec_comm_if)]
    pub fn comm_if(&self) -> (n: u8)
        ensures
            n == self.spec_comm_if(),
            n < 255,
    {
        proof {
            use_type_invariant(self);
        }
        self.comm_if
    }

    /// The number of the data interface.
    #[verifier::when_used_as_spec(spec_data_if)]
    pub fn data_if(&self) -> (n: u8)
        ensures
            n == self.spec_data_if(),
    {
        self.data_if
    }

    /// The packet size of the two bulk endpoints.
    #[verifier::when_used_as_spec(spec_max_packet_size)]
    pub fn max_packet_size(&self) -> (m: u16)
        ensures
            m == self.spec_max_packet_size(),
            m > 0,
    {
        proof {
            use_type_invariant(self);
        }
        self.max_packet_size
    }

    /// The body of the header functional descriptor.
    pub fn header_descriptor(&self) -> (body: [u8; 3])
        ensures
            body@ == header_descriptor(),
    {
        let body: [u8; 3] = [CDC_TYPE_HEADER, 0x10, 0x01];
        assert(body@ =~= header_descriptor());
        body
    }

    /// The body of the union functional descriptor.
    pub fn union_descriptor(&self) -> (body: [u8; 3])
        ensures
            body@ == union_descriptor(self.spec_comm_if()),
    {
        proof {
            use_type_invariant(self);
        }
        let body: [u8; 3] = [CDC_TYPE_UNION, self.comm_if, self.comm_if + 1];
        assert(body@ =~= union_descriptor(self.comm_if));
        body
    }

    /// The body of the Ethernet networking functional descriptor.
    pub fn ethernet_descriptor(&self) -> (body: [u8; 11])
        ensures
            body@ == ethernet_descriptor(),
    {
        let body: [u8; 11] = [CDC_TYPE_ETHERNET, 0x04, 0, 0, 0, 0, 0xea, 0x05, 0, 0, 0];
        assert(body@ =~= ethernet_descriptor());
        body
    }

    /// The body of the NCM functional descriptor.
    pub fn ncm_descriptor(&self) -> (body: [u8; 4])
        ensures
            body@ == ncm_descriptor(),
    {
        let body: [u8; 4] = [CDC_TYPE_NCM, 0x00, 0x01, 0];
        assert(body@ =~= ncm_descriptor());
        body
    }

    /// Splits the class into its two halves: a sender that starts at the
    /// sequence number zero, and a receiver that has gathered nothing.
    pub fn split(self) -> (halves: (Sender, Receiver))
        ensures
            halves.0.spec_seq() == 0,
            halves.0.spec_max_packet_size() == self.spec_max_packet_size(),
            halves.1.buffered() == Seq::<u8>::empty(),
            halves.1.cursor() == 0,
            halves.1.spec_data_if() == self.spec_data_if(),
            halves.1.spec_max_packet_size() == self.spec_max_packet_size(),
    {
        proof {
            use_type_invariant(&self);
        }
        (Sender::new(self.max_packet_size), Receiver::new(self.data_if, self.max_packet_size))
    }
}

} // verus!
