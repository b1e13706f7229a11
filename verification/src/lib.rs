//! CDC-NCM transport for a USB device: NTB framing, link state, and the
//! flash and clock rules of the boards it runs on.
//!
//! The crate decides and computes; it performs no I/O. Its owner reads and
//! writes the endpoints and the registers and hands over what came in.

pub mod wire;
pub mod ntb;
pub mod sender;
pub mod receiver;
pub mod lemmas;
pub mod control;
pub mod class;
pub mod flash;
pub mod rcc;

pub use class::CdcNcmClass;
pub use control::{State, USB_CLASS_CDC};
pub use receiver::Receiver;
pub use sender::Sender;
