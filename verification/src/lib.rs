//! Early-boot core of a Raspberry Pi kernel: the VideoCore mailbox property
//! protocol and a framebuffer driver built on it.
//!
//! The crate performs no device access itself. Messages are encoded into
//! words, the register handshake is a transition function that the caller
//! drives against the hardware, and drawing works on the framebuffer memory
//! handed in as a slice of pixels.

pub mod arch;
pub mod codec;
pub mod console;
pub mod cpu;
pub mod framebuffer;
pub mod mac;
pub mod mailbox;
pub mod uart;
