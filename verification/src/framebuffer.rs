//! The framebuffer driver.

pub mod implementation;
pub mod message;

pub use implementation::{Framebuffer, FramebufferError, FramebufferInfo};
pub use message::{
    AllocateBufferRequest, AllocateBufferResponse, FramebufferInitializeRequest,
    FramebufferInitializeResponse, GetPitchMessage, PixelOrder, SetDepthMessage,
    SetDisplaySizeMessage, SetPixelOrderMessage, SetVirtualOffsetMessage,
};
