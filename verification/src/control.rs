//! The control plane: the link state that the two interfaces share, and the
//! handlers that answer the host's control requests and follow the data
//! interface's alternate setting.

use vstd::prelude::*;
use crate::ntb::NTB_MAX_SIZE;
use crate::wire::{push_u16, push_u32, u16_le, u32_le};

verus! {

/// The class code of the communications interface, also the device class.
pub const USB_CLASS_CDC: u8 = 0x02;

/// The class code of the data interface.
pub const USB_CLASS_CDC_DATA: u8 = 0x0a;

/// The subclass code of the network control model.
pub const CDC_SUBCLASS_NCM: u8 = 0x0d;

/// The protocol code of the communications interface.
pub const CDC_PROTOCOL_NONE: u8 = 0x00;

/// The protocol code of the data interface: NCM transfer blocks.
pub const CDC_PROTOCOL_NTB: u8 = 0x01;

/// The request by which the host sends an encapsulated command.
pub const REQ_SEND_ENCAPSULATED_COMMAND: u8 = 0x00;

/// The request by which the host asks for the NTB parameters.
pub const REQ_GET_NTB_PARAMETERS: u8 = 0x80;

/// The request by which the host sets the size of the NTBs it wants to get.
pub const REQ_SET_NTB_INPUT_SIZE: u8 = 0x86;

/// The alternate setting of the data interface in which no data flows.
pub const ALTERNATE_SETTING_DISABLED: u8 = 0x00;

/// The alternate setting of the data interface in which data flows.
pub const ALTERNATE_SETTING_ENABLED: u8 = 0x01;

/// The length of the NTB parameters as they are sent to the host.
pub const NTB_PARAMETERS_LEN: usize = 28;

/// What the device accepts or produces in one direction.
#[derive(Clone, Copy, Debug, PartialEq, Eq)]
pub struct NtbParametersDir {
    pub max_size: u32,
    pub divisor: u16,
    pub payload_remainder: u16,
    pub out_alignment: u16,
    pub max_datagram_count: u16,
}

/// The answer to the host's request for the NTB parameters.
#[derive(Clone, Copy, Debug, PartialEq, Eq)]
pub struct NtbParameters {
    pub length: u16,
    pub formats_supported: u16,
    pub in_params: NtbParametersDir,
    pub out_params: NtbParametersDir,
}

impl NtbParametersDir {
    /// The 12 bytes of one direction's parameters, each field little-endian.
    pub open spec fn bytes(self) -> Seq<u8> {
        u32_le(self.max_size) + u16_le(self.divisor) + u16_le(self.payload_remainder) + u16_le(
            self.out_alignment,
        ) + u16_le(self.max_datagram_count)
    }

    /// Appends the parameters' bytes to `out`.
    pub fn byteify(&self, out: &mut Vec<u8>)
        ensures
            final(out)@ == old(out)@ + self.bytes(),
    {
        push_u32(out, self.max_size);
        push_u16(out, self.divisor);
        push_u16(out, self.payload_remainder);
        push_u16(out, self.out_alignment);
        push_u16(out, self.max_datagram_count);
        assert(out@ =~= old(out)@ + self.bytes());
    }
}

impl NtbParameters {
    /// What this device advertises: blocks of up to `NTB_MAX_SIZE` bytes in
    /// the 16-bit format, in both directions; datagrams aligned to 4 bytes
    /// with no remainder; and up to 20 datagrams in a block that the host
    /// sends, while the count is left open for the blocks that it gets.
    pub open spec fn advertised() -> NtbParameters {
        NtbParameters {
            length: 28,
            formats_supported: 1,
            in_params: NtbParametersDir {
                max_size: NTB_MAX_SIZE as u32,
                divisor: 4,
                payload_remainder: 0,
                out_alignment: 4,
                max_datagram_count: 0,
            },
            out_params: NtbParametersDir {
                max_size: NTB_MAX_SIZE as u32,
                divisor: 4,
                payload_remainder: 0,
                out_alignment: 4,
                max_datagram_count: 20,
            },
        }
    }

    /// The 28 bytes of the parameters: the length, the formats, the inbound
    /// and then the outbound direction.
    pub open spec fn bytes(self) -> Seq<u8> {
        u16_le(self.length) + u16_le(self.formats_supported) + self.in_params.bytes()
            + self.out_params.bytes()
    }

    /// The parameters that this device advertises.
    pub fn new() -> (params: NtbParameters)
        ensures
            params == NtbParameters::advertised(),
    {
        NtbParameters {
            length: 28,
            formats_supported: 1,
            in_params: NtbParametersDir {
                max_size: 1600,
                divisor: 4,
                payload_remainder: 0,
                out_alignment: 4,
                max_datagram_count: 0,
            },
            out_params: NtbParametersDir {
                max_size: 1600,
                divisor: 4,
                payload_remainder: 0,
                out_alignment: 4,
                max_datagram_count: 20,
            },
        }
    }

    /// Appends the parameters' bytes to `out`.
    pub fn byteify(&self, out: &mut Vec<u8>)
        ensures
            final(out)@ == old(out)@ + self.bytes(),
    {
        push_u16(out, self.length);
        push_u16(out, self.formats_supported);
        self.in_params.byteify(out);
        self.out_params.byteify(out);
        assert(out@ =~= old(out)@ + self.bytes());
    }
}

/// The link state that the control handlers write and the transfer tasks
/// read: whether the data interface is enabled, and, for each of the two
/// transfer tasks, whether it has been woken since it last looked.
///
/// A wake-up stays pending until its task takes it, so one that arrives
/// before the task suspends is not lost. Several changes between two looks
/// collapse into the latest.
#[derive(Clone, Copy, Debug, PartialEq, Eq)]
pub struct ControlShared {
    pub enabled: bool,
    pub rx_wake: bool,
    pub tx_wake: bool,
}

impl ControlShared {
    /// The link state after the data interface took the alternate setting
    /// `alternate_setting` and both tasks were woken.
    pub open spec fn switched(self, alternate_setting: u8) -> ControlShared {
        ControlShared {
            enabled: alternate_setting == ALTERNATE_SETTING_ENABLED,
            rx_wake: true,
            tx_wake: true,
        }
    }

    /// The link state after a reset: disabled, and both tasks woken.
    pub open spec fn after_reset(self) -> ControlShared {
        ControlShared { enabled: false, rx_wake: true, tx_wake: true }
    }

    /// The state before the host has configured anything: disabled, nobody
    /// woken.
    pub fn new() -> (shared: ControlShared)
        ensures
            shared == (ControlShared { enabled: false, rx_wake: false, tx_wake: false }),
    {
        ControlShared { enabled: false, rx_wake: false, tx_wake: false }
    }

    /// Whether the data interface is enabled.
    pub fn is_enabled(&self) -> (enabled: bool)
        ensures
            enabled == self.enabled,
    {
        self.enabled
    }

    /// Takes the receiving task's pending wake-up: says whether there was
    /// one, and leaves none.
    pub fn take_rx_wake(&mut self) -> (woken: bool)
        ensures
            woken == old(self).rx_wake,
            *final(self) == (ControlShared { rx_wake: false, ..*old(self) }),
    {
        let woken = self.rx_wake;
        self.rx_wake = false;
        woken
    }

    /// Takes the sending task's pending wake-up: says whether there was one,
    /// and leaves none.
    pub fn take_tx_wake(&mut self) -> (woken: bool)
        ensures
            woken == old(self).tx_wake,
            *final(self) == (ControlShared { tx_wake: false, ..*old(self) }),
    {
        let woken = self.tx_wake;
        self.tx_wake = false;
        woken
    }
}

/// What the class keeps between the USB stack and the transfer tasks.
pub struct State {
    pub shared: ControlShared,
}

impl State {
    /// The state of a class that the host has not configured yet.
    pub fn new() -> (state: State)
        ensures
            state.shared == (ControlShared { enabled: false, rx_wake: false, tx_wake: false }),
    {
        State { shared: ControlShared::new() }
    }
}

/// The answer to a control request that carries data to the device.
#[derive(Clone, Copy, Debug, PartialEq, Eq, Structural)]
pub enum OutResponse {
    Accepted,
    Rejected,
}

/// The answer to a control request that asks the device for data. An accepted
/// request says how many bytes, at the front of the buffer, are the answer.
#[derive(Clone, Copy, Debug, PartialEq, Eq, Structural)]
pub enum InResponse {
    Accepted(usize),
    Rejected,
}

/// The handler of one of the two interfaces.
#[derive(Clone, Copy, Debug, PartialEq, Eq, Structural)]
pub enum Control {
    /// The communications interface, which answers the class's requests.
    Comm,
    /// The data interface, whose alternate setting switches the link.
    Data,
}

impl Control {
    /// A bus reset or a new configuration: the link is disabled, and both
    /// transfer tasks are woken so that they look at it again.
    pub fn reset(&self, shared: &mut ControlShared)
        ensures
            *final(shared) == old(shared).after_reset(),
    {
        shared.enabled = false;
        shared.rx_wake = true;
        shared.tx_wake = true;
    }

    /// The host selected an alternate setting of the interface. On the data
    /// interface this switches the link on or off and wakes both transfer
    /// tasks, whichever way it went. The communications interface has a
    /// single setting and nothing changes.
    pub fn set_alternate_setting(&self, shared: &mut ControlShared, alternate_setting: u8)
        requires
            *self == Control::Data ==> alternate_setting == ALTERNATE_SETTING_DISABLED
                || alternate_setting == ALTERNATE_SETTING_ENABLED,
        ensures
            *self == Control::Data ==> *final(shared) == old(shared).switched(alternate_setting),
            *self == Control::Comm ==> *final(shared) == *old(shared),
    {
        match self {
            Control::Data => {
                shared.enabled = alternate_setting == ALTERNATE_SETTING_ENABLED;
                shared.rx_wake = true;
                shared.tx_wake = true;
            },
            Control::Comm => {},
        }
    }

    /// Answers a request that carries data to the device. The communications
    /// interface accepts an encapsulated command and a new NTB input size,
    /// and acts on neither. Everything else is rejected.
    pub fn control_out(&self, request: u8, data: &[u8]) -> (response: OutResponse)
        ensures
            response == OutResponse::Accepted <==> *self == Control::Comm && (request
                == REQ_SEND_ENCAPSULATED_COMMAND || request == REQ_SET_NTB_INPUT_SIZE),
    {
        match self {
            Control::Comm => {
                if request == REQ_SEND_ENCAPSULATED_COMMAND || request == REQ_SET_NTB_INPUT_SIZE {
                    OutResponse::Accepted
                } else {
                    OutResponse::Rejected
                }
            },
            Control::Data => OutResponse::Rejected,
        }
    }

    /// Whether a request for data is answered: it is the request for the NTB
    /// parameters, made to the communications interface, with room for the
    /// answer.
    pub open spec fn answers(self, request: u8, room: nat) -> bool {
        self == Control::Comm && request == REQ_GET_NTB_PARAMETERS && room >= NTB_PARAMETERS_LEN
    }

    /// Answers a request that asks the device for data. The request for the
    /// NTB parameters, made to the communications interface, is answered with
    /// the parameters that this device advertises, written to the front of
    /// `buf`. Every other request is rejected, and so is that one where `buf`
    /// has no room for the answer; `buf` is then left as it was.
    pub fn control_in(&self, request: u8, buf: &mut [u8]) -> (response: InResponse)
        ensures
            final(buf)@.len() == old(buf)@.len(),
            self.answers(request, old(buf)@.len()) ==> {
                &&& response == InResponse::Accepted(NTB_PARAMETERS_LEN)
                &&& final(buf)@ == NtbParameters::advertised().bytes() + old(buf)@.subrange(
                    NTB_PARAMETERS_LEN as int,
                    old(buf)@.len() as int,
                )
            },
            !self.answers(request, old(buf)@.len()) ==> {
                &&& response == InResponse::Rejected
                &&& final(buf)@ == old(buf)@
            },
    {
        match self {
            Control::Comm => {
                if request != REQ_GET_NTB_PARAMETERS || buf.len() < NTB_PARAMETERS_LEN {
                    return InResponse::Rejected;
                }
            },
            Control::Data => {
                return InResponse::Rejected;
            },
        }
        let mut bytes: Vec<u8> = Vec::new();
        NtbParameters::new().byteify(&mut bytes);
        assert(bytes@ =~= NtbParameters::advertised().bytes());
        assert(bytes@.len() == 28);
        let mut i: usize = 0;
        while i < NTB_PARAMETERS_LEN
            invariant
                i <= NTB_PARAMETERS_LEN,
                bytes@.len() == NTB_PARAMETERS_LEN,
                buf@.len() == old(buf)@.len(),
                buf@.len() >= NTB_PARAMETERS_LEN,
                forall|j: int| 0 <= j < i ==> buf@[j] == bytes@[j],
                forall|j: int| i <= j < buf@.len() ==> buf@[j] == old(buf)@[j],
            decreases NTB_PARAMETERS_LEN - i,
        {
            buf[i] = bytes[i];
            i = i + 1;
        }
        assert(buf@ =~= bytes@ + old(buf)@.subrange(
            NTB_PARAMETERS_LEN as int,
            old(buf)@.len() as int,
        ));
        InResponse::Accepted(NTB_PARAMETERS_LEN)
    }
}

/// Every change of the data interface's alternate setting wakes both
/// transfer tasks, whichever way it goes and whatever was pending, and the
/// link is enabled after it exactly if the new setting is the enabled one. So
/// it is after the switch from disabled to enabled, and again after the
/// switch back.
pub proof fn lemma_every_switch_wakes(shared: ControlShared, alternate_setting: u8)
    ensures
        shared.switched(alternate_setting).rx_wake,
        shared.switched(alternate_setting).tx_wake,
        shared.switched(alternate_setting).enabled == (alternate_setting
            == ALTERNATE_SETTING_ENABLED),
        shared.switched(ALTERNATE_SETTING_ENABLED).switched(ALTERNATE_SETTING_DISABLED)
            == (ControlShared { enabled: false, rx_wake: true, tx_wake: true }),
{
}

} // verus!
