//! The mailbox itself: its registers, the handshake that carries a buffer's
//! address to the VideoCore and back, and the reading of the reply.

use super::message::{
    GetArmMemory, GetBoardMacAddress, GetBoardRevision, GetFirmwareVersionMessage, TagIdentifier,
};
use super::types::{CombinedTag, Message, MessageBuilder, MessageStatus, MessageTag};
use crate::codec::{lemma_round_up_to_multiple_of_4, word_count, zeros, Payload};
use crate::cpu::RaspberryPi;
use crate::mac::MacAddress;
use vstd::prelude::*;
use vstd::slice::slice_subrange;

verus! {

/// What can go wrong with a request once the VideoCore has answered.
#[derive(Debug, Clone, Copy, PartialEq, Eq)]
pub enum MailboxError {
    /// The reply carries [`MessageStatus::Error`]. Nothing more can be
    /// learnt about this case.
    Errored,
    /// The reply still carries [`MessageStatus::Request`]: the VideoCore
    /// did not process the message.
    NotAcknowledged,
}

/// The logical queue of the mailbox that a request is meant for.
#[derive(Debug, PartialEq, Eq, Copy, Clone)]
pub enum Channel {
    /// The property interface.
    PropertyTags,
}

impl Channel {
    /// The number of the channel.
    pub open spec fn spec_id(self) -> u32 {
        match self {
            Channel::PropertyTags => 8,
        }
    }

    /// The number of the channel.
    #[verifier::when_used_as_spec(spec_id)]
    pub fn id(self) -> (id: u32)
        ensures
            id == self.spec_id(),
            id <= 15,
    {
        match self {
            Channel::PropertyTags => 8,
        }
    }
}

/// The bit of the write status that says that the mailbox is full.
pub const WRITE_MAILBOX_FULL: u32 = 0x8000_0000;

/// The bit of the read status that says that the mailbox is empty.
pub const READ_MAILBOX_EMPTY: u32 = 0x4000_0000;

/// Whether a status word has every bit of `flag` set.
pub open spec fn spec_contains(status: u32, flag: u32) -> bool {
    status & flag == flag
}

/// Whether a status word has every bit of `flag` set.
#[verifier::when_used_as_spec(spec_contains)]
pub fn contains(status: u32, flag: u32) -> (set: bool)
    ensures
        set == spec_contains(status, flag),
{
    status & flag == flag
}

/// The word that carries a buffer's address and a channel: the address
/// without its four lowest bits, and the channel in their place.
pub open spec fn spec_pack(address: u32, channel: u32) -> u32 {
    (address & !0xFu32) | (channel & 0xFu32)
}

/// The channel that a packed word carries.
pub open spec fn spec_unpack_channel(word: u32) -> u32 {
    word & 0xFu32
}

/// The address that a packed word carries.
pub open spec fn spec_unpack_address(word: u32) -> u32 {
    word & !0xFu32
}

/// Packs a buffer's address and a channel into one word.
#[verifier::when_used_as_spec(spec_pack)]
pub fn pack(address: u32, channel: u32) -> (word: u32)
    ensures
        word == spec_pack(address, channel),
{
    (address & !0xFu32) | (channel & 0xFu32)
}

/// The channel that a packed word carries.
#[verifier::when_used_as_spec(spec_unpack_channel)]
pub fn unpack_channel(word: u32) -> (channel: u32)
    ensures
        channel == spec_unpack_channel(word),
        channel <= 15,
{
    let channel: u32 = word & 0xFu32;
    assert(channel <= 15) by (bit_vector)
        requires
            channel == word & 0xFu32,
    ;
    channel
}

/// The address that a packed word carries.
#[verifier::when_used_as_spec(spec_unpack_address)]
pub fn unpack_address(word: u32) -> (address: u32)
    ensures
        address == spec_unpack_address(word),
{
    word & !0xFu32
}

/// Packing an address whose four lowest bits are zero with a channel below
/// sixteen loses nothing: both are found again in the word.
pub proof fn lemma_pack_unpack(address: u32, channel: u32)
    requires
        address & 0xFu32 == 0,
        channel <= 15,
    ensures
        spec_unpack_channel(spec_pack(address, channel)) == channel,
        spec_unpack_address(spec_pack(address, channel)) == address,
{
    assert(((address & !0xFu32) | (channel & 0xFu32)) & 0xFu32 == channel) by (bit_vector)
        requires
            channel <= 15,
    ;
    assert(((address & !0xFu32) | (channel & 0xFu32)) & !0xFu32 == address) by (bit_vector)
        requires
            address & 0xFu32 == 0,
    ;
}

/// The addresses of the four registers of the mailbox.
#[derive(Debug, Clone, Copy, PartialEq, Eq)]
pub struct Registers {
    /// Mailbox 0 is used for reading: the reply comes in here.
    pub read: usize,
    /// Bit 30 says that mailbox 0 is empty.
    pub read_status: usize,
    /// Mailbox 1 is used for writing: the request goes out here.
    pub write: usize,
    /// Bit 31 says that mailbox 1 is full.
    pub write_status: usize,
}

impl Registers {
    /// The registers of a mailbox at `mailbox_base`.
    pub open spec fn spec_new(mailbox_base: usize) -> Registers {
        Registers {
            read: mailbox_base,
            read_status: (mailbox_base + 0x18) as usize,
            write: (mailbox_base + 0x20) as usize,
            write_status: (mailbox_base + 0x38) as usize,
        }
    }

    /// The registers of a mailbox at `mailbox_base`.
    pub fn new(mailbox_base: usize) -> (registers: Registers)
        requires
            mailbox_base + 0x38 <= usize::MAX,
        ensures
            registers == Self::spec_new(mailbox_base),
            registers.read == mailbox_base,
            registers.read_status == mailbox_base + 0x18,
            registers.write == mailbox_base + 0x20,
            registers.write_status == mailbox_base + 0x38,
    {
        let mailbox_0: usize = mailbox_base;
        let mailbox_1: usize = mailbox_base + 0x20;
        Registers {
            read: mailbox_0,
            read_status: mailbox_0 + 0x18,
            write: mailbox_1,
            write_status: mailbox_1 + 0x18,
        }
    }
}

/// How far the handshake for one request has come.
#[derive(Debug, Clone, Copy, PartialEq, Eq)]
pub enum Handshake {
    /// The write status is being polled until the mailbox has room.
    AwaitingRoom { request: u32 },
    /// The request word is being stored to the write register.
    Posting { request: u32 },
    /// The read status is being polled until the mailbox holds a reply.
    AwaitingReply { request: u32 },
    /// The reply word is being loaded from the read register.
    ReadingReply { request: u32 },
    /// The VideoCore has echoed the request word: the buffer holds the
    /// reply.
    Complete,
}

impl Handshake {
    /// The request word that the handshake is for, while it is under way.
    pub open spec fn request(self) -> Option<u32> {
        match self {
            Handshake::AwaitingRoom { request } => Some(request),
            Handshake::Posting { request } => Some(request),
            Handshake::AwaitingReply { request } => Some(request),
            Handshake::ReadingReply { request } => Some(request),
            Handshake::Complete => None,
        }
    }
}

/// What the caller does to the device before it hands the next value to
/// [`Mailbox::advance`].
#[derive(Debug, Clone, Copy, PartialEq, Eq)]
pub enum Action {
    /// Load the register and hand its value on.
    Load { register: usize },
    /// Store the value to the register; the value handed on is ignored.
    Store { register: usize, value: u32 },
    /// Nothing: the handshake is over.
    Done,
}

/// A state of the handshake and the access that it waits for.
#[derive(Debug, Clone, Copy, PartialEq, Eq)]
pub struct Step {
    pub state: Handshake,
    pub action: Action,
}

/// A request on its way: the words to put at the buffer's address, and the
/// first step of the handshake.
#[derive(Debug, Clone, PartialEq, Eq)]
pub struct Exchange {
    pub buffer: Vec<u32>,
    pub step: Step,
}

/// A mailbox handles communication between the CPU and the VideoCore.
#[derive(Debug, Clone, Copy, PartialEq, Eq)]
pub struct Mailbox {
    registers: Registers,
}

impl Mailbox {
    /// The registers of this mailbox.
    pub closed spec fn spec_registers(&self) -> Registers {
        self.registers
    }

    /// The first step of the handshake for the buffer at `value`: the
    /// request word is packed, and the write status is polled.
    pub open spec fn spec_write(&self, value: u32, channel: Channel) -> Step {
        Step {
            state: Handshake::AwaitingRoom { request: spec_pack(value, channel.spec_id()) },
            action: Action::Load { register: self.registers().write_status },
        }
    }

    /// The step that follows `state` once the access it waited for has given
    /// `loaded`.
    ///
    /// While the mailbox is full the write status is polled again; then the
    /// request word is stored. While the mailbox is empty the read status is
    /// polled again; then the reply is loaded. A reply that is not the
    /// request word bit for bit belongs to another sender: it is dropped and
    /// the read status is polled again.
    pub open spec fn spec_advance(&self, state: Handshake, loaded: u32) -> Step {
        match state {
            Handshake::AwaitingRoom { request } => if spec_contains(loaded, WRITE_MAILBOX_FULL) {
                Step { state, action: Action::Load { register: self.registers().write_status } }
            } else {
                Step {
                    state: Handshake::Posting { request },
                    action: Action::Store { register: self.registers().write, value: request },
                }
            },
            Handshake::Posting { request } => Step {
                state: Handshake::AwaitingReply { request },
                action: Action::Load { register: self.registers().read_status },
            },
            Handshake::AwaitingReply { request } => if spec_contains(loaded, READ_MAILBOX_EMPTY) {
                Step { state, action: Action::Load { register: self.registers().read_status } }
            } else {
                Step {
                    state: Handshake::ReadingReply { request },
                    action: Action::Load { register: self.registers().read },
                }
            },
            Handshake::ReadingReply { request } => if loaded == request {
                Step { state: Handshake::Complete, action: Action::Done }
            } else {
                Step {
                    state: Handshake::AwaitingReply { request },
                    action: Action::Load { register: self.registers().read_status },
                }
            },
            Handshake::Complete => Step { state: Handshake::Complete, action: Action::Done },
        }
    }

    /// What a reply buffer says: an error for the two status words that
    /// stand for failure, else the payload that follows the status word.
    pub open spec fn spec_receive<Response: Payload>(reply: Seq<u32>) -> Result<
        Response,
        MailboxError,
    > {
        if reply[1] == MessageStatus::Error.spec_code() {
            Err(MailboxError::Errored)
        } else if reply[1] == MessageStatus::Request.spec_code() {
            Err(MailboxError::NotAcknowledged)
        } else {
            Ok(Response::from_words(reply.subrange(2, reply.len() as int)))
        }
    }

    /// What a reply buffer with one tag says: the value inside the tag.
    pub open spec fn spec_receive_single<Response: Payload>(reply: Seq<u32>) -> Result<
        Response,
        MailboxError,
    > {
        match Self::spec_receive::<MessageTag<Response>>(reply) {
            Ok(tag) => Ok(tag.data),
            Err(error) => Err(error),
        }
    }

    /// Creates the mailbox of a board: its registers lie 0xb880 bytes above
    /// the base of the peripherals.
    pub fn new(board: &RaspberryPi) -> (mailbox: Mailbox)
        ensures
            mailbox.registers() == Registers::spec_new(
                (board.spec_peripheral_base_address() + 0xb880) as usize,
            ),
    {
        let base_address: usize = board.peripheral_base_address() + 0xb880;
        Mailbox { registers: Registers::new(base_address) }
    }

    /// The registers of this mailbox.
    #[verifier::when_used_as_spec(spec_registers)]
    pub fn registers(&self) -> (registers: Registers)
        ensures
            registers == self.spec_registers(),
    {
        self.registers
    }

    /// Begins the exchange for `request`, whose buffer the caller puts at
    /// `address`: gives the words of the buffer and the first step of the
    /// handshake.
    pub fn send<Request: Payload>(
        &self,
        channel: Channel,
        request: &Message<Request>,
        address: u32,
    ) -> (exchange: Exchange)
        ensures
            exchange.buffer@ == request.words(),
            request.well_formed() ==> exchange.buffer@.len() * 4 == request.size,
            exchange.step == self.spec_write(address, channel),
    {
        Exchange { buffer: request.encode(), step: self.write(address, channel) }
    }

    /// Begins the exchange for a single tag: wraps it in a message and
    /// sends that.
    pub fn send_single<Request: Payload>(
        &self,
        channel: Channel,
        request: Request,
        address: u32,
    ) -> (exchange: Exchange)
        requires
            Message::<Request>::buffer_size() <= u32::MAX,
        ensures
            exchange.buffer@ == (Message {
                size: Message::<Request>::buffer_size() as u32,
                status: MessageStatus::Request,
                data: request,
                end: 0,
            }).words(),
            exchange.buffer@.len() * 4 == Message::<Request>::buffer_size(),
            exchange.step == self.spec_write(address, channel),
    {
        let message = Message::new(request);
        self.send(channel, &message, address)
    }

    /// Begins the handshake for the buffer at `value`.
    ///
    /// The four lowest bits of the address give way to the channel, so the
    /// buffer has to lie at a multiple of sixteen.
    pub fn write(&self, value: u32, channel: Channel) -> (step: Step)
        ensures
            step == self.spec_write(value, channel),
    {
        let request: u32 = pack(value, channel.id());
        Step {
            state: Handshake::AwaitingRoom { request },
            action: Action::Load { register: self.registers.write_status },
        }
    }

    /// Takes the handshake one step on. `loaded` is the value that the last
    /// action loaded; after a store, and once the handshake is complete, it
    /// is ignored.
    pub fn advance(&self, state: Handshake, loaded: u32) -> (step: Step)
        ensures
            step == self.spec_advance(state, loaded),
    {
        match state {
            Handshake::AwaitingRoom { request } => {
                if contains(loaded, WRITE_MAILBOX_FULL) {
                    Step { state, action: Action::Load { register: self.registers.write_status } }
                } else {
                    Step {
                        state: Handshake::Posting { request },
                        action: Action::Store { register: self.registers.write, value: request },
                    }
                }
            },
            Handshake::Posting { request } => Step {
                state: Handshake::AwaitingReply { request },
                action: Action::Load { register: self.registers.read_status },
            },
            Handshake::AwaitingReply { request } => {
                if contains(loaded, READ_MAILBOX_EMPTY) {
                    Step { state, action: Action::Load { register: self.registers.read_status } }
                } else {
                    Step {
                        state: Handshake::ReadingReply { request },
                        action: Action::Load { register: self.registers.read },
                    }
                }
            },
            Handshake::ReadingReply { request } => {
                if loaded == request {
                    Step { state: Handshake::Complete, action: Action::Done }
                } else {
                    Step {
                        state: Handshake::AwaitingReply { request },
                        action: Action::Load { register: self.registers.read_status },
                    }
                }
            },
            Handshake::Complete => Step { state: Handshake::Complete, action: Action::Done },
        }
    }

    /// Reads the reply out of the buffer once the handshake is complete.
    ///
    /// The status word decides: the error code gives
    /// [`MailboxError::Errored`], the request code, left as it was sent,
    /// gives [`MailboxError::NotAcknowledged`], and anything else gives the
    /// payload.
    pub fn receive<Response: Payload>(reply: &[u32]) -> (result: Result<Response, MailboxError>)
        requires
            reply@.len() >= 2 + word_count(Response::byte_size()),
        ensures
            result == Self::spec_receive::<Response>(reply@),
    {
        let status: u32 = reply[1];
        if status == MessageStatus::Error.code() {
            Err(MailboxError::Errored)
        } else if status == MessageStatus::Request.code() {
            Err(MailboxError::NotAcknowledged)
        } else {
            Ok(Response::decode(slice_subrange(reply, 2, reply.len())))
        }
    }

    /// Reads the reply to a single tag out of the buffer, and takes the
    /// value out of the tag.
    pub fn receive_single<Response: Payload>(reply: &[u32]) -> (result: Result<
        Response,
        MailboxError,
    >)
        requires
            reply@.len() >= 5 + word_count(Response::byte_size()),
        ensures
            result == Self::spec_receive_single::<Response>(reply@),
    {
        proof {
            lemma_round_up_to_multiple_of_4(Response::byte_size());
        }
        match Self::receive::<MessageTag<Response>>(reply) {
            Ok(tag) => Ok(tag.data),
            Err(error) => Err(error),
        }
    }
}

/// The tags of a query for what the board is: its MAC address, the firmware
/// version, the memory of the ARM cores and the board revision.
pub type BoardQuery = CombinedTag<
    CombinedTag<
        CombinedTag<MessageTag<GetBoardMacAddress>, MessageTag<GetFirmwareVersionMessage>>,
        MessageTag<GetArmMemory>,
    >,
    MessageTag<GetBoardRevision>,
>;

/// The query for what the board is, with every value still zero.
pub open spec fn spec_board_query() -> BoardQuery {
    CombinedTag(
        CombinedTag(
            CombinedTag(
                MessageTag {
                    identifier: TagIdentifier::GetBoardMacAddress.spec_code(),
                    value_size: 8,
                    codes: 0,
                    data: GetBoardMacAddress { address: MacAddress::spec_zero() },
                },
                MessageTag {
                    identifier: TagIdentifier::GetFirmwareVersion.spec_code(),
                    value_size: 4,
                    codes: 0,
                    data: GetFirmwareVersionMessage { firmware_version: 0 },
                },
            ),
            MessageTag {
                identifier: TagIdentifier::GetArmMemory.spec_code(),
                value_size: 8,
                codes: 0,
                data: GetArmMemory { base_address: 0, size: 0 },
            },
        ),
        MessageTag {
            identifier: TagIdentifier::GetBoardRevision.spec_code(),
            value_size: 4,
            codes: 0,
            data: GetBoardRevision { board_revision: 0 },
        },
    )
}

/// Begins an exchange that tries the mailbox out: a query for what the
/// board is, four tags in one buffer of 96 bytes, on the property channel.
pub fn test_mailbox(mailbox: &Mailbox, address: u32) -> (exchange: Exchange)
    ensures
        exchange.buffer@ == (Message {
            size: 96,
            status: MessageStatus::Request,
            data: spec_board_query(),
            end: 0,
        }).words(),
        exchange.buffer@.len() == 24,
        exchange.step == mailbox.spec_write(address, Channel::PropertyTags),
{
    let builder = MessageBuilder::new(GetBoardMacAddress::new()).with(
        GetFirmwareVersionMessage::new(),
    ).with(GetArmMemory::new()).with(GetBoardRevision::new());
    let message = builder.build();
    mailbox.send(Channel::PropertyTags, &message, address)
}

/// A reply whose status is the success code, and whose other words are
/// those of the request, gives the request's payload back unchanged.
pub proof fn lemma_success_returns_payload<T: Payload>(request: Message<T>, reply: Seq<u32>)
    requires
        reply == request.words().update(1, MessageStatus::Success.spec_code()),
    ensures
        Mailbox::spec_receive::<T>(reply) == Ok::<T, MailboxError>(request.data),
{
    let rest = seq![request.end] + zeros(Message::<T>::padding(request.data.words().len()));
    request.data.lemma_round_trip(rest);
    assert(reply.subrange(2, reply.len() as int) =~= request.data.words() + rest);
}

/// A reply whose status is the error code gives `Errored`, whatever else
/// it holds.
pub proof fn lemma_error_status_is_errored<T: Payload>(reply: Seq<u32>)
    requires
        reply.len() >= 2,
        reply[1] == MessageStatus::Error.spec_code(),
    ensures
        Mailbox::spec_receive::<T>(reply) == Err::<T, MailboxError>(MailboxError::Errored),
{
}

/// A buffer that comes back as the request was sent gives
/// `NotAcknowledged`.
pub proof fn lemma_untouched_request_is_not_acknowledged<T: Payload>(request: Message<T>)
    requires
        request.status == MessageStatus::Request,
    ensures
        Mailbox::spec_receive::<T>(request.words()) == Err::<T, MailboxError>(
            MailboxError::NotAcknowledged,
        ),
{
}

/// The handshake is complete only after the device has echoed the request
/// word.
pub proof fn lemma_complete_only_on_echo(mailbox: Mailbox, state: Handshake, loaded: u32)
    requires
        state != Handshake::Complete,
        mailbox.spec_advance(state, loaded).state == Handshake::Complete,
    ensures
        state == (Handshake::ReadingReply { request: loaded }),
{
}

/// A handshake keeps its request word until it is complete, and a complete
/// handshake stays complete.
pub proof fn lemma_request_is_kept(mailbox: Mailbox, state: Handshake, loaded: u32)
    ensures
        mailbox.spec_advance(state, loaded).state == Handshake::Complete
            || mailbox.spec_advance(state, loaded).state.request() == state.request(),
        state == Handshake::Complete ==> mailbox.spec_advance(state, loaded).state
            == Handshake::Complete,
{
}

/// The only store of a handshake puts the request word into the write
/// register, and it is made only once the mailbox is seen to have room.
pub proof fn lemma_store_posts_request(mailbox: Mailbox, state: Handshake, loaded: u32)
    requires
        mailbox.spec_advance(state, loaded).action is Store,
    ensures
        state is AwaitingRoom,
        !spec_contains(loaded, WRITE_MAILBOX_FULL),
        mailbox.spec_advance(state, loaded).action == (Action::Store {
            register: mailbox.registers().write,
            value: state.request().unwrap(),
        }),
        mailbox.spec_advance(state, loaded).state == (Handshake::Posting {
            request: state.request().unwrap(),
        }),
{
}

/// With a device that has room, holds a reply and echoes the request word,
/// the handshake takes four accesses: it loads the write status, stores the
/// request word, loads the read status, loads the reply, and is complete.
pub proof fn lemma_echo_completes(
    mailbox: Mailbox,
    address: u32,
    channel: Channel,
    write_status: u32,
    read_status: u32,
    ignored: u32,
)
    requires
        !spec_contains(write_status, WRITE_MAILBOX_FULL),
        !spec_contains(read_status, READ_MAILBOX_EMPTY),
    ensures
        ({
            let request = spec_pack(address, channel.spec_id());
            let first = mailbox.spec_write(address, channel);
            let second = mailbox.spec_advance(first.state, write_status);
            let third = mailbox.spec_advance(second.state, ignored);
            let fourth = mailbox.spec_advance(third.state, read_status);
            let last = mailbox.spec_advance(fourth.state, request);
            &&& first.action == (Action::Load { register: mailbox.registers().write_status })
            &&& second.action == (Action::Store {
                register: mailbox.registers().write,
                value: request,
            })
            &&& third.action == (Action::Load { register: mailbox.registers().read_status })
            &&& fourth.action == (Action::Load { register: mailbox.registers().read })
            &&& last == (Step { state: Handshake::Complete, action: Action::Done })
        }),
{
}

} // verus!
