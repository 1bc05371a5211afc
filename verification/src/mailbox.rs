//! The mailbox channel between the CPU and the VideoCore.

pub mod implementation;
pub mod message;
pub mod types;

pub use implementation::{
    test_mailbox, Action, BoardQuery, Channel, Exchange, Handshake, Mailbox, MailboxError,
    Registers, Step,
};
pub use message::{
    GetArmMemory, GetBoardMacAddress, GetBoardRevision, GetFirmwareVersionMessage, TagIdentifier,
};
pub use types::{CombinedTag, Message, MessageBuilder, MessageHeader, MessageStatus, MessageTag};
