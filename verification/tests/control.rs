use usb_ncm::class::{
    CDC_TYPE_ETHERNET, CDC_TYPE_HEADER, CDC_TYPE_NCM, CDC_TYPE_UNION, CS_INTERFACE,
};
use usb_ncm::control::{
    Control, ControlShared, InResponse, NtbParameters, OutResponse, ALTERNATE_SETTING_DISABLED,
    ALTERNATE_SETTING_ENABLED, REQ_GET_NTB_PARAMETERS, REQ_SEND_ENCAPSULATED_COMMAND,
    REQ_SET_NTB_INPUT_SIZE,
};
use usb_ncm::{CdcNcmClass, State, USB_CLASS_CDC};

const PARAMETERS: [u8; 28] = [
    0x1C, 0x00, 0x01, 0x00, // length, formats
    0x40, 0x06, 0x00, 0x00, 0x04, 0x00, 0x00, 0x00, 0x04, 0x00, 0x00, 0x00, // in
    0x40, 0x06, 0x00, 0x00, 0x04, 0x00, 0x00, 0x00, 0x04, 0x00, 0x14, 0x00, // out
];

#[test]
fn new_state_is_disabled_and_quiet() {
    let state = State::new();
    assert!(!state.shared.is_enabled());
    assert_eq!(state.shared, ControlShared { enabled: false, rx_wake: false, tx_wake: false });
    assert_eq!(ControlShared::new(), state.shared);
}

#[test]
fn state_sync_wakeup() {
    let mut state = State::new();
    let data = Control::Data;

    data.set_alternate_setting(&mut state.shared, ALTERNATE_SETTING_ENABLED);
    assert!(state.shared.is_enabled());
    assert!(state.shared.take_rx_wake());
    assert!(state.shared.take_tx_wake());
    assert!(!state.shared.take_rx_wake());
    assert!(!state.shared.take_tx_wake());
    assert!(state.shared.is_enabled());

    data.set_alternate_setting(&mut state.shared, ALTERNATE_SETTING_DISABLED);
    assert!(!state.shared.is_enabled());
    assert!(state.shared.take_rx_wake());
    assert!(state.shared.take_tx_wake());
}

#[test]
fn repeated_setting_still_wakes() {
    let mut shared = ControlShared::new();
    Control::Data.set_alternate_setting(&mut shared, ALTERNATE_SETTING_DISABLED);
    assert_eq!(shared, ControlShared { enabled: false, rx_wake: true, tx_wake: true });
    assert!(shared.take_tx_wake());
    assert_eq!(shared, ControlShared { enabled: false, rx_wake: true, tx_wake: false });
    Control::Data.set_alternate_setting(&mut shared, ALTERNATE_SETTING_DISABLED);
    assert_eq!(shared, ControlShared { enabled: false, rx_wake: true, tx_wake: true });
}

#[test]
fn wakeup_stays_until_it_is_taken() {
    let mut shared = ControlShared::new();
    Control::Data.set_alternate_setting(&mut shared, ALTERNATE_SETTING_ENABLED);
    Control::Data.set_alternate_setting(&mut shared, ALTERNATE_SETTING_DISABLED);
    Control::Data.set_alternate_setting(&mut shared, ALTERNATE_SETTING_ENABLED);
    // Three changes collapse into the latest, and one wake-up each.
    assert!(shared.is_enabled());
    assert!(shared.take_rx_wake());
    assert!(!shared.take_rx_wake());
}

#[test]
fn comm_interface_has_no_alternate_setting_to_follow() {
    let mut shared = ControlShared::new();
    Control::Comm.set_alternate_setting(&mut shared, ALTERNATE_SETTING_ENABLED);
    assert_eq!(shared, ControlShared::new());
    Control::Comm.set_alternate_setting(&mut shared, 7);
    assert_eq!(shared, ControlShared::new());
}

#[test]
fn reset_disables_and_wakes() {
    for handler in [Control::Comm, Control::Data] {
        let mut shared = ControlShared::new();
        Control::Data.set_alternate_setting(&mut shared, ALTERNATE_SETTING_ENABLED);
        shared.take_rx_wake();
        shared.take_tx_wake();
        handler.reset(&mut shared);
        assert_eq!(shared, ControlShared { enabled: false, rx_wake: true, tx_wake: true });
    }
}

#[test]
fn control_out_accepts_two_requests() {
    let comm = Control::Comm;
    assert_eq!(comm.control_out(REQ_SEND_ENCAPSULATED_COMMAND, &[1, 2]), OutResponse::Accepted);
    assert_eq!(comm.control_out(REQ_SET_NTB_INPUT_SIZE, &[0x40, 6, 0, 0]), OutResponse::Accepted);
    assert_eq!(comm.control_out(0x00, &[]), OutResponse::Accepted);
    assert_eq!(comm.control_out(0x86, &[]), OutResponse::Accepted);
    for request in 0u8..=255 {
        let expected = if request == 0x00 || request == 0x86 {
            OutResponse::Accepted
        } else {
            OutResponse::Rejected
        };
        assert_eq!(comm.control_out(request, &[]), expected);
        assert_eq!(Control::Data.control_out(request, &[]), OutResponse::Rejected);
    }
}

#[test]
fn control_in_answers_ntb_parameters() {
    let mut buf = [0xEEu8; 64];
    assert_eq!(Control::Comm.control_in(REQ_GET_NTB_PARAMETERS, &mut buf), InResponse::Accepted(28));
    assert_eq!(&buf[..28], &PARAMETERS[..]);
    assert_eq!(&buf[28..], &[0xEEu8; 36][..]);

    let mut exact = [0u8; 28];
    assert_eq!(Control::Comm.control_in(0x80, &mut exact), InResponse::Accepted(28));
    assert_eq!(exact, PARAMETERS);
}

#[test]
fn control_in_rejects_everything_else() {
    for request in 0u8..=255 {
        let mut buf = [0xEEu8; 64];
        if request != 0x80 {
            assert_eq!(Control::Comm.control_in(request, &mut buf), InResponse::Rejected);
            assert_eq!(buf, [0xEEu8; 64]);
        }
        assert_eq!(Control::Data.control_in(request, &mut buf), InResponse::Rejected);
        assert_eq!(buf, [0xEEu8; 64]);
    }
}

#[test]
fn control_in_rejects_where_the_answer_has_no_room() {
    let mut buf = [0xEEu8; 27];
    assert_eq!(Control::Comm.control_in(REQ_GET_NTB_PARAMETERS, &mut buf), InResponse::Rejected);
    assert_eq!(buf, [0xEEu8; 27]);
}

#[test]
fn advertised_parameters() {
    let params = NtbParameters::new();
    assert_eq!(params.length, 28);
    assert_eq!(params.formats_supported, 1);
    assert_eq!(params.in_params.max_size, 1600);
    assert_eq!(params.out_params.max_size, 1600);
    assert_eq!(params.in_params.divisor, 4);
    assert_eq!(params.in_params.payload_remainder, 0);
    assert_eq!(params.in_params.out_alignment, 4);
    assert_eq!(params.in_params.max_datagram_count, 0);
    assert_eq!(params.out_params.max_datagram_count, 20);
    let mut out = vec![0x99];
    params.byteify(&mut out);
    assert_eq!(out[0], 0x99);
    assert_eq!(&out[1..], &PARAMETERS[..]);
    let mut dir = Vec::new();
    params.out_params.byteify(&mut dir);
    assert_eq!(&dir[..], &PARAMETERS[16..]);
}

#[test]
fn class_constants() {
    assert_eq!(USB_CLASS_CDC, 0x02);
    assert_eq!(CS_INTERFACE, 0x24);
    assert_eq!(
        [CDC_TYPE_HEADER, CDC_TYPE_UNION, CDC_TYPE_ETHERNET, CDC_TYPE_NCM],
        [0x00, 0x06, 0x0F, 0x1A]
    );
}

#[test]
fn functional_descriptors() {
    let class = CdcNcmClass::new(2, 3, 64);
    assert_eq!(class.comm_if(), 2);
    assert_eq!(class.data_if(), 3);
    assert_eq!(class.max_packet_size(), 64);
    assert_eq!(class.header_descriptor(), [0x00, 0x10, 0x01]);
    assert_eq!(class.union_descriptor(), [0x06, 2, 3]);
    assert_eq!(class.ethernet_descriptor(), [0x0F, 0x04, 0, 0, 0, 0, 0xEA, 0x05, 0, 0, 0]);
    assert_eq!(class.ncm_descriptor(), [0x1A, 0x00, 0x01, 0]);
    assert_eq!(CdcNcmClass::new(254, 255, 8).union_descriptor(), [0x06, 254, 255]);
}

#[test]
fn split_gives_fresh_halves() {
    let (tx, rx) = CdcNcmClass::new(0, 1, 32).split();
    assert_eq!(tx.seq(), 0);
    assert_eq!(tx.max_packet_size(), 32);
    assert_eq!(rx.max_packet_size(), 32);
    assert_eq!(rx.data_if(), 1);
    assert!(rx.needs_ntb());
}
