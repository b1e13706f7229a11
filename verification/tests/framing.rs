use usb_ncm::ntb::{NtbOutHeader, ProtocolError, NDP_SIG, NTB_MAX_SIZE, NTH_SIG, OUT_HEADER_LEN};
use usb_ncm::wire::{push_u16, push_u32, read_u16, read_u32};
use usb_ncm::{CdcNcmClass, Receiver, Sender};

fn pattern(len: usize) -> Vec<u8> {
    (0..len).map(|i| (i * 7 + 3) as u8).collect()
}

fn header_for(seq: u16, len: u16) -> Vec<u8> {
    let total = len.wrapping_add(28).to_le_bytes();
    let seq = seq.to_le_bytes();
    let len = len.to_le_bytes();
    vec![
        0x4E, 0x43, 0x4D, 0x48, 0x0C, 0x00, seq[0], seq[1], total[0], total[1], 0x0C, 0x00,
        0x4E, 0x43, 0x4D, 0x30, 0x10, 0x00, 0x00, 0x00, 0x1C, 0x00, len[0], len[1], 0x00, 0x00,
        0x00, 0x00,
    ]
}

/// Feeds the packets of one transfer to the receiver one by one, as the
/// owner of an endpoint does: until the first short packet. Returns how many
/// packets were taken.
fn feed(rx: &mut Receiver, packets: &[Vec<u8>]) -> usize {
    rx.start_ntb();
    let mut taken = 0;
    for p in packets {
        taken += 1;
        if rx.push_packet(p).unwrap() {
            break;
        }
    }
    taken
}

fn round_trip(len: usize, m: u16) {
    let (mut tx, mut rx) = CdcNcmClass::new(0, 1, m).split();
    let data = pattern(len);
    let packets = tx.write_packet(&data);
    if len % 2 == 0 {
        assert_eq!(feed(&mut rx, &packets), packets.len());
    } else {
        assert_eq!(rx.gather(&packets), Ok(true));
    }
    let mut buf = vec![0xAAu8; len + 5];
    assert_eq!(rx.read_packet(&mut buf), Ok(len));
    assert_eq!(&buf[..len], &data[..]);
    assert_eq!(&buf[len..], &[0xAAu8; 5][..]);
    assert!(rx.needs_ntb());
}

#[test]
fn wire_fields_are_little_endian() {
    let mut out = vec![0xEE];
    push_u16(&mut out, 0x1234);
    push_u32(&mut out, 0x89AB_CDEF);
    assert_eq!(out, vec![0xEE, 0x34, 0x12, 0xEF, 0xCD, 0xAB, 0x89]);
    assert_eq!(read_u16(&out, 1), 0x1234);
    assert_eq!(read_u32(&out, 3), 0x89AB_CDEF);
    assert_eq!(read_u16(&[0xFF, 0xFF], 0), 0xFFFF);
    assert_eq!(read_u32(&[0xFF, 0xFF, 0xFF, 0xFF], 0), 0xFFFF_FFFF);
}

#[test]
fn signatures_spell_ncm_on_the_wire() {
    assert_eq!(NTH_SIG.to_le_bytes(), *b"NCMH");
    assert_eq!(NDP_SIG.to_le_bytes(), *b"NCM0");
}

#[test]
fn header_has_the_documented_layout() {
    let header = NtbOutHeader::new(0x0102, 100);
    assert_eq!(header.nth_total_len, 128);
    assert_eq!(header.ndp_datagram_len, 100);
    let mut out = Vec::new();
    header.byteify(&mut out);
    assert_eq!(out.len(), OUT_HEADER_LEN);
    assert_eq!(out, header_for(0x0102, 100));
}

#[test]
fn header_length_fields_hold_sixteen_bits() {
    let header = NtbOutHeader::new(0, 65536 + 5);
    assert_eq!(header.ndp_datagram_len, 5);
    assert_eq!(header.nth_total_len, 33);
    let header = NtbOutHeader::new(0, 65535);
    assert_eq!(header.ndp_datagram_len, 65535);
    assert_eq!(header.nth_total_len, 27);
}

#[test]
fn fragmentation_boundary() {
    let mut tx = Sender::new(64);
    let data = pattern(100);
    let packets = tx.write_packet(&data);
    assert_eq!(packets.len(), 3);
    assert_eq!(packets[0].len(), 64);
    assert_eq!(&packets[0][..28], &header_for(0, 100)[..]);
    assert_eq!(&packets[0][28..], &data[..36]);
    assert_eq!(packets[1], data[36..].to_vec());
    assert_eq!(packets[1].len(), 64);
    assert_eq!(packets[2], Vec::<u8>::new());
}

#[test]
fn short_frame_has_no_zlp() {
    let mut tx = Sender::new(64);
    let data = pattern(30);
    let packets = tx.write_packet(&data);
    assert_eq!(packets.len(), 1);
    assert_eq!(packets[0].len(), 58);
    assert_eq!(&packets[0][..28], &header_for(0, 30)[..]);
    assert_eq!(&packets[0][28..], &data[..]);
}

#[test]
fn frame_that_fills_one_packet_gets_a_zlp() {
    let mut tx = Sender::new(64);
    let data = pattern(36);
    let packets = tx.write_packet(&data);
    assert_eq!(packets.len(), 2);
    assert_eq!(packets[0].len(), 64);
    assert!(packets[1].is_empty());
}

#[test]
fn long_frame_ends_in_a_short_packet() {
    let mut tx = Sender::new(64);
    let data = pattern(101);
    let packets = tx.write_packet(&data);
    assert_eq!(packets.len(), 3);
    assert_eq!(packets[2], data[100..].to_vec());
}

#[test]
fn empty_datagram_is_a_bare_header() {
    let mut tx = Sender::new(64);
    let packets = tx.write_packet(&[]);
    assert_eq!(packets, vec![header_for(0, 0)]);
}

#[test]
fn header_may_span_packets() {
    let mut tx = Sender::new(8);
    let data = pattern(5);
    let packets = tx.write_packet(&data);
    let lens: Vec<usize> = packets.iter().map(|p| p.len()).collect();
    assert_eq!(lens, vec![8, 8, 8, 8, 1]);
    let all: Vec<u8> = packets.concat();
    assert_eq!(&all[..28], &header_for(0, 5)[..]);
    assert_eq!(&all[28..], &data[..]);
}

#[test]
fn sequence_numbers_advance_by_one() {
    let mut tx = Sender::new(64);
    assert_eq!(tx.seq(), 0);
    assert_eq!(tx.max_packet_size(), 64);
    for expected in 0u16..5 {
        assert_eq!(tx.seq(), expected);
        let packets = tx.write_packet(&[1, 2, 3]);
        assert_eq!(read_u16(&packets[0], 6), expected);
    }
    assert_eq!(tx.seq(), 5);
}

#[test]
fn sequence_number_wraps_to_zero() {
    let mut tx = Sender::new(64);
    for _ in 0..65535u32 {
        tx.write_packet(&[]);
    }
    assert_eq!(tx.seq(), 65535);
    let last = tx.write_packet(&[9]);
    assert_eq!(read_u16(&last[0], 6), 65535);
    assert_eq!(tx.seq(), 0);
    let first = tx.write_packet(&[9]);
    assert_eq!(read_u16(&first[0], 6), 0);
    assert_eq!(tx.seq(), 1);
}

#[test]
fn round_trip_of_every_size_class() {
    for &m in &[64u16, 8, 1, 28, 29, 512, 1600, 2000] {
        for &len in &[0usize, 1, 35, 36, 37, 100, 1000, 1571, 1572] {
            round_trip(len, m);
        }
    }
}

#[test]
fn round_trip_of_the_largest_datagram() {
    assert_eq!(NTB_MAX_SIZE - OUT_HEADER_LEN, 1572);
    round_trip(1572, 64);
}

#[test]
fn datagram_beyond_the_largest_ntb_overflows_the_receiver() {
    let (mut tx, mut rx) = CdcNcmClass::new(0, 1, 64).split();
    let packets = tx.write_packet(&pattern(1573));
    rx.start_ntb();
    let mut result = Ok(false);
    for p in &packets {
        result = rx.push_packet(p);
        if result != Ok(false) {
            break;
        }
    }
    assert_eq!(result, Err(ProtocolError::Overflow));
}

#[test]
fn gather_stops_at_the_first_short_packet() {
    let mut rx = Receiver::new(1, 4);
    let packets = vec![vec![1, 2, 3, 4], vec![5, 6], vec![7, 8, 9, 10], vec![11]];
    assert_eq!(rx.gather(&packets), Ok(true));
    // Only the first two packets belong to the transfer: twelve bytes would
    // make a transfer header, six do not.
    let mut buf = [0u8; 4];
    assert_eq!(rx.read_packet(&mut buf), Err(ProtocolError::Truncated));
}

#[test]
fn gather_without_a_short_packet_is_not_whole() {
    let mut rx = Receiver::new(1, 4);
    assert_eq!(rx.gather(&[vec![1, 2, 3, 4], vec![5, 6, 7, 8]]), Ok(false));
    assert_eq!(rx.gather(&[]), Ok(false));
    assert_eq!(rx.gather(&[vec![]]), Ok(true));
}

#[test]
fn gather_forgets_the_transfer_before() {
    let (mut tx, mut rx) = CdcNcmClass::new(0, 1, 64).split();
    assert_eq!(rx.gather(&tx.write_packet(&[1, 2, 3])), Ok(true));
    assert_eq!(rx.gather(&tx.write_packet(&[4, 5])), Ok(true));
    let mut buf = [0u8; 8];
    assert_eq!(rx.read_packet(&mut buf), Ok(2));
    assert_eq!(&buf[..2], &[4, 5]);
}

#[test]
fn gather_refuses_what_exceeds_the_largest_ntb() {
    let mut rx = Receiver::new(1, 64);
    let mut packets = vec![vec![0u8; 64]; 25];
    packets.push(vec![]);
    assert_eq!(rx.gather(&packets), Ok(true));
    packets.insert(0, vec![0u8; 64]);
    assert_eq!(rx.gather(&packets), Err(ProtocolError::Overflow));
    let (mut tx, mut rx) = CdcNcmClass::new(0, 1, 64).split();
    assert_eq!(rx.gather(&tx.write_packet(&pattern(1573))), Err(ProtocolError::Overflow));
    assert_eq!(rx.gather(&tx.write_packet(&pattern(1572))), Ok(true));
}

#[test]
fn push_packet_says_when_the_transfer_ends() {
    let mut rx = Receiver::new(1, 4);
    assert!(rx.needs_ntb());
    assert_eq!(rx.max_packet_size(), 4);
    assert_eq!(rx.push_packet(&[1, 2, 3, 4]), Ok(false));
    assert_eq!(rx.push_packet(&[1, 2, 3, 4, 5]), Ok(false));
    assert_eq!(rx.push_packet(&[1, 2, 3]), Ok(true));
    assert_eq!(rx.push_packet(&[]), Ok(true));
}

#[test]
fn push_packet_refuses_what_does_not_fit() {
    let mut rx = Receiver::new(1, 64);
    assert_eq!(rx.push_packet(&vec![0u8; 1600]), Ok(false));
    assert_eq!(rx.push_packet(&[0]), Err(ProtocolError::Overflow));
    assert_eq!(rx.push_packet(&[]), Ok(true));
    rx.start_ntb();
    assert_eq!(rx.push_packet(&vec![0u8; 1601]), Err(ProtocolError::Overflow));
    assert_eq!(rx.push_packet(&vec![0u8; 1600]), Ok(false));
}

/// An NTB with two chained datagram pointers.
fn chained_ntb() -> Vec<u8> {
    let mut ntb = Vec::new();
    // NTH
    push_u32(&mut ntb, NTH_SIG);
    push_u16(&mut ntb, 12);
    push_u16(&mut ntb, 7);
    push_u16(&mut ntb, 52);
    push_u16(&mut ntb, 12);
    // first NDP at 12, next at 28
    push_u32(&mut ntb, NDP_SIG);
    push_u16(&mut ntb, 16);
    push_u16(&mut ntb, 28);
    push_u16(&mut ntb, 44);
    push_u16(&mut ntb, 3);
    push_u16(&mut ntb, 0);
    push_u16(&mut ntb, 0);
    // second NDP at 28, last
    push_u32(&mut ntb, NDP_SIG);
    push_u16(&mut ntb, 16);
    push_u16(&mut ntb, 0);
    push_u16(&mut ntb, 47);
    push_u16(&mut ntb, 5);
    push_u16(&mut ntb, 0);
    push_u16(&mut ntb, 0);
    ntb.extend_from_slice(&[0xA1, 0xA2, 0xA3]);
    ntb.extend_from_slice(&[0xB1, 0xB2, 0xB3, 0xB4, 0xB5]);
    ntb
}

#[test]
fn multi_datagram_chaining() {
    let mut rx = Receiver::new(1, 64);
    let ntb = chained_ntb();
    assert_eq!(ntb.len(), 52);
    rx.start_ntb();
    assert_eq!(rx.push_packet(&ntb), Ok(true));
    assert!(rx.needs_ntb());

    let mut buf = [0u8; 16];
    assert_eq!(rx.read_packet(&mut buf), Ok(3));
    assert_eq!(&buf[..3], &[0xA1, 0xA2, 0xA3]);
    // The second datagram is served from the same block: nothing is to be
    // read from the endpoint in between.
    assert!(!rx.needs_ntb());
    assert_eq!(rx.read_packet(&mut buf), Ok(5));
    assert_eq!(&buf[..5], &[0xB1, 0xB2, 0xB3, 0xB4, 0xB5]);
    assert!(rx.needs_ntb());
}

fn receiver_with(ntb: &[u8]) -> Receiver {
    let mut rx = Receiver::new(1, 2048);
    rx.start_ntb();
    assert_eq!(rx.push_packet(ntb), Ok(true));
    rx
}

#[test]
fn malformed_signature() {
    let mut ntb = chained_ntb();
    ntb[0] = 0x4F;
    let mut rx = receiver_with(&ntb);
    let mut buf = [0x55u8; 16];
    assert_eq!(rx.read_packet(&mut buf), Err(ProtocolError::BadSignature));
    assert_eq!(buf, [0x55u8; 16]);
    // The block is dropped: nothing of it is served afterwards.
    assert!(rx.needs_ntb());
    assert_eq!(rx.read_packet(&mut buf), Err(ProtocolError::Truncated));
}

#[test]
fn signature_of_a_datagram_pointer_is_no_transfer_header() {
    let mut ntb = chained_ntb();
    ntb[3] = 0x30;
    let mut rx = receiver_with(&ntb);
    let mut buf = [0u8; 16];
    assert_eq!(rx.read_packet(&mut buf), Err(ProtocolError::BadSignature));
}

#[test]
fn block_shorter_than_its_header_is_truncated() {
    let ntb = chained_ntb();
    let mut buf = [0u8; 16];
    assert_eq!(receiver_with(&ntb[..11]).read_packet(&mut buf), Err(ProtocolError::Truncated));
    assert_eq!(receiver_with(&[]).read_packet(&mut buf), Err(ProtocolError::Truncated));
    assert_eq!(Receiver::new(0, 64).read_packet(&mut buf), Err(ProtocolError::Truncated));
}

#[test]
fn zero_first_pointer_is_rejected() {
    let mut ntb = chained_ntb();
    ntb[10] = 0;
    ntb[11] = 0;
    let mut buf = [0u8; 16];
    assert_eq!(
        receiver_with(&ntb).read_packet(&mut buf),
        Err(ProtocolError::NoDatagramPointer)
    );
}

#[test]
fn pointer_beyond_the_block_is_truncated() {
    let mut ntb = chained_ntb();
    // 52 - 12 = 40 is the last offset at which a pointer still fits.
    ntb[10] = 41;
    let mut buf = [0u8; 16];
    assert_eq!(receiver_with(&ntb).read_packet(&mut buf), Err(ProtocolError::Truncated));
    // At 40 the pointer fits; what it names is the tail of the block read as
    // an offset and a length, which lie far outside.
    ntb[10] = 40;
    assert_eq!(
        receiver_with(&ntb).read_packet(&mut buf),
        Err(ProtocolError::DatagramOutOfBounds)
    );
}

#[test]
fn datagram_beyond_the_block_is_rejected() {
    let mut ntb = chained_ntb();
    // first datagram: offset 44, length 9 ends at 53 > 52
    ntb[22] = 9;
    let mut rx = receiver_with(&ntb);
    let mut buf = [0x11u8; 16];
    assert_eq!(rx.read_packet(&mut buf), Err(ProtocolError::DatagramOutOfBounds));
    assert_eq!(buf, [0x11u8; 16]);
    assert!(rx.needs_ntb());
    // length 8 ends at 52, which is within
    ntb[22] = 8;
    assert_eq!(receiver_with(&ntb).read_packet(&mut buf), Ok(8));
}

#[test]
fn broken_second_pointer_drops_the_block() {
    let mut ntb = chained_ntb();
    // second datagram: offset 47, length 6 ends at 53 > 52
    ntb[38] = 6;
    let mut rx = receiver_with(&ntb);
    let mut buf = [0u8; 16];
    assert_eq!(rx.read_packet(&mut buf), Ok(3));
    assert_eq!(rx.read_packet(&mut buf), Err(ProtocolError::DatagramOutOfBounds));
    // The first datagram is not served a second time.
    assert!(rx.needs_ntb());
    assert_eq!(rx.read_packet(&mut buf), Err(ProtocolError::Truncated));
}

#[test]
fn small_buffer_changes_nothing() {
    let mut rx = receiver_with(&chained_ntb());
    let mut small = [0x77u8; 2];
    assert_eq!(rx.read_packet(&mut small), Err(ProtocolError::BufferTooSmall));
    assert_eq!(small, [0x77u8; 2]);
    let mut exact = [0u8; 3];
    assert_eq!(rx.read_packet(&mut exact), Ok(3));
    assert_eq!(exact, [0xA1, 0xA2, 0xA3]);
    let mut small = [0x77u8; 4];
    assert_eq!(rx.read_packet(&mut small), Err(ProtocolError::BufferTooSmall));
    assert!(!rx.needs_ntb());
    let mut exact = [0u8; 5];
    assert_eq!(rx.read_packet(&mut exact), Ok(5));
    assert_eq!(exact, [0xB1, 0xB2, 0xB3, 0xB4, 0xB5]);
}

#[test]
fn connection_notification_names_the_data_interface() {
    let rx = Receiver::new(3, 64);
    assert_eq!(rx.data_if(), 3);
    let notice = rx.wait_connection();
    assert_eq!(notice.settle_secs, 1);
    assert_eq!(notice.notification, [0xA1, 0x00, 0x01, 0x00, 0x03, 0x00, 0x00, 0x00]);
}
