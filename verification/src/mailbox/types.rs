//! The envelope types of the mailbox property protocol.

use super::message::TagIdentifier;
use crate::codec::{
    lemma_round_up_to_multiple_of_16, lemma_round_up_to_multiple_of_4, next_multiple_of_16,
    next_multiple_of_4, push_zeros, round_up_to_multiple_of_16, round_up_to_multiple_of_4, word_count,
    zeros, Payload,
};
use vstd::prelude::*;
use vstd::slice::slice_subrange;

verus! {

/// The status word of a message.
///
/// A request carries [`MessageStatus::Request`]; the VideoCore overwrites it
/// according to whether it could handle the message.
#[derive(Debug, Clone, Copy, PartialEq, Eq)]
pub enum MessageStatus {
    Request,
    Success,
    Error,
}

impl MessageStatus {
    /// The word that stands for the status in a buffer.
    pub open spec fn spec_code(self) -> u32 {
        match self {
            MessageStatus::Request => 0x0000_0000,
            MessageStatus::Success => 0x8000_0000,
            MessageStatus::Error => 0x8000_0001,
        }
    }

    /// The status that a word stands for, if any.
    pub open spec fn spec_from_code(code: u32) -> Option<MessageStatus> {
        if code == 0x0000_0000 {
            Some(MessageStatus::Request)
        } else if code == 0x8000_0000 {
            Some(MessageStatus::Success)
        } else if code == 0x8000_0001 {
            Some(MessageStatus::Error)
        } else {
            None
        }
    }

    /// The word that stands for the status in a buffer.
    #[verifier::when_used_as_spec(spec_code)]
    pub fn code(self) -> (code: u32)
        ensures
            code == self.spec_code(),
    {
        match self {
            MessageStatus::Request => 0x0000_0000,
            MessageStatus::Success => 0x8000_0000,
            MessageStatus::Error => 0x8000_0001,
        }
    }

    /// The status that a word stands for, if any.
    pub fn from_code(code: u32) -> (status: Option<MessageStatus>)
        ensures
            status == Self::spec_from_code(code),
    {
        if code == 0x0000_0000 {
            Some(MessageStatus::Request)
        } else if code == 0x8000_0000 {
            Some(MessageStatus::Success)
        } else if code == 0x8000_0001 {
            Some(MessageStatus::Error)
        } else {
            None
        }
    }
}

/// Every status is found again from its word.
pub proof fn lemma_status_code_round_trip(status: MessageStatus)
    ensures
        MessageStatus::spec_from_code(status.spec_code()) == Some(status),
{
}

/// One property tag: an identifier, the size of its value, and the value.
#[derive(Debug, Clone, Copy, PartialEq, Eq)]
pub struct MessageTag<T> {
    /// The protocol's code for this tag.
    pub identifier: u32,
    /// The size of the value in bytes, a multiple of four.
    pub value_size: u32,
    /// Request and response codes (mostly ignored).
    pub codes: u32,
    /// The data sent or returned within this tag.
    pub data: T,
}

impl<T: Payload> MessageTag<T> {
    /// Wraps `data` in a tag whose value size is the size of `T` rounded up
    /// to a multiple of four.
    pub fn new(identifier: TagIdentifier, data: T) -> (tag: MessageTag<T>)
        requires
            round_up_to_multiple_of_4(T::byte_size()) <= u32::MAX,
        ensures
            tag.identifier == identifier.spec_code(),
            tag.value_size == round_up_to_multiple_of_4(T::byte_size()),
            tag.value_size >= T::byte_size(),
            tag.value_size % 4 == 0,
            tag.codes == 0,
            tag.data == data,
    {
        proof {
            lemma_round_up_to_multiple_of_4(T::byte_size());
        }
        let data_size: u32 = T::size();
        MessageTag { identifier: identifier.code(), value_size: next_multiple_of_4(data_size), codes: 0, data }
    }

    /// The tag that the identifier word names, if the protocol knows it.
    pub fn tag_identifier(&self) -> (identifier: Option<TagIdentifier>)
        ensures
            identifier == TagIdentifier::spec_from_code(self.identifier),
    {
        TagIdentifier::from_code(self.identifier)
    }
}

impl<T: Payload> Payload for MessageTag<T> {
    open spec fn byte_size() -> nat {
        12 + round_up_to_multiple_of_4(T::byte_size())
    }

    open spec fn words(&self) -> Seq<u32> {
        seq![self.identifier, self.value_size, self.codes] + self.data.words()
    }

    open spec fn from_words(words: Seq<u32>) -> Self {
        MessageTag {
            identifier: words[0],
            value_size: words[1],
            codes: words[2],
            data: T::from_words(words.subrange(3, words.len() as int)),
        }
    }

    proof fn lemma_length(&self) {
        self.data.lemma_length();
        lemma_round_up_to_multiple_of_4(T::byte_size());
    }

    proof fn lemma_round_trip(&self, rest: Seq<u32>) {
        self.data.lemma_round_trip(rest);
        let words = self.words() + rest;
        assert(words.subrange(3, words.len() as int) =~= self.data.words() + rest);
    }

    fn size() -> (n: u32) {
        proof {
            lemma_round_up_to_multiple_of_4(T::byte_size());
        }
        12 + next_multiple_of_4(T::size())
    }

    fn word_len() -> (n: usize) {
        proof {
            lemma_round_up_to_multiple_of_4(T::byte_size());
        }
        3 + T::word_len()
    }

    fn encode(&self, out: &mut Vec<u32>) {
        out.push(self.identifier);
        out.push(self.value_size);
        out.push(self.codes);
        self.data.encode(out);
        assert(out@ =~= old(out)@ + self.words());
    }

    fn decode(words: &[u32]) -> (value: Self) {
        proof {
            lemma_round_up_to_multiple_of_4(T::byte_size());
        }
        let data = T::decode(slice_subrange(words, 3, words.len()));
        MessageTag { identifier: words[0], value_size: words[1], codes: words[2], data }
    }
}

/// Two values that stand one after the other in a buffer, each from a word
/// boundary on. Nested, it makes a list of tags of any length.
#[derive(Debug, Clone, Copy, PartialEq, Eq)]
pub struct CombinedTag<A, B>(pub A, pub B);

impl<A: Payload, B: Payload> Payload for CombinedTag<A, B> {
    open spec fn byte_size() -> nat {
        round_up_to_multiple_of_4(A::byte_size()) + B::byte_size()
    }

    open spec fn words(&self) -> Seq<u32> {
        self.0.words() + self.1.words()
    }

    open spec fn from_words(words: Seq<u32>) -> Self {
        CombinedTag(
            A::from_words(words),
            B::from_words(words.subrange(word_count(A::byte_size()) as int, words.len() as int)),
        )
    }

    proof fn lemma_length(&self) {
        self.0.lemma_length();
        self.1.lemma_length();
        lemma_round_up_to_multiple_of_4(A::byte_size());
    }

    proof fn lemma_round_trip(&self, rest: Seq<u32>) {
        self.0.lemma_length();
        self.0.lemma_round_trip(self.1.words() + rest);
        self.1.lemma_round_trip(rest);
        let words = self.words() + rest;
        assert(words =~= self.0.words() + (self.1.words() + rest));
        assert(words.subrange(word_count(A::byte_size()) as int, words.len() as int)
            =~= self.1.words() + rest);
    }

    fn size() -> (n: u32) {
        proof {
            lemma_round_up_to_multiple_of_4(A::byte_size());
        }
        next_multiple_of_4(A::size()) + B::size()
    }

    fn word_len() -> (n: usize) {
        proof {
            lemma_round_up_to_multiple_of_4(A::byte_size());
        }
        A::word_len() + B::word_len()
    }

    fn encode(&self, out: &mut Vec<u32>) {
        self.0.encode(out);
        self.1.encode(out);
        assert(out@ =~= old(out)@ + self.words());
    }

    fn decode(words: &[u32]) -> (value: Self) {
        proof {
            lemma_round_up_to_multiple_of_4(A::byte_size());
        }
        let end: usize = words.len();
        let first = A::decode(words);
        let second = B::decode(slice_subrange(words, A::word_len(), end));
        CombinedTag(first, second)
    }
}

/// Collects tags, one at a time, into the payload of a message.
#[derive(Debug, Clone, Copy, PartialEq, Eq)]
pub struct MessageBuilder<C>(pub C);

impl<C: Payload> MessageBuilder<C> {
    /// A builder that holds one tag.
    pub fn new(tag: C) -> (builder: MessageBuilder<C>)
        ensures
            builder.0 == tag,
    {
        MessageBuilder(tag)
    }

    /// Puts `tag` behind the tags collected so far.
    pub fn with<T: Payload>(self, tag: T) -> (builder: MessageBuilder<CombinedTag<C, T>>)
        ensures
            builder.0 == CombinedTag(self.0, tag),
            builder.0.words() == self.0.words() + tag.words(),
    {
        MessageBuilder(CombinedTag(self.0, tag))
    }

    /// The request that carries the collected tags.
    pub fn build(self) -> (message: Message<C>)
        requires
            Message::<C>::buffer_size() <= u32::MAX,
        ensures
            message.size == Message::<C>::buffer_size(),
            message.status == MessageStatus::Request,
            message.data == self.0,
            message.end == 0,
            message.well_formed(),
    {
        Message::new(self.0)
    }
}

/// A message seen as what it is in memory: a header in front of its tags.
pub type MessageHeader<T> = Message<T>;

/// A whole property buffer: the total size, the status word, the tags and
/// the end tag, padded to a multiple of sixteen bytes.
#[derive(Debug, Clone, Copy, PartialEq, Eq)]
pub struct Message<T> {
    /// The size of the whole buffer in bytes, with the header, the end tag
    /// and the padding.
    pub size: u32,
    /// The status of this message.
    pub status: MessageStatus,
    /// The tags that the message carries.
    pub data: T,
    /// The end tag: zero, the mark of the end of the tags.
    pub end: u32,
}

impl<T: Payload> Message<T> {
    /// The size in bytes of a buffer that carries a `T`: the two words of
    /// the header, the tags, and the end tag, rounded up to a multiple of
    /// sixteen.
    pub open spec fn buffer_size() -> nat {
        round_up_to_multiple_of_16(12 + round_up_to_multiple_of_4(T::byte_size()))
    }

    /// The number of zero words that follow the end tag of a buffer whose
    /// tags take `tags` words: as many as fill the buffer up to a multiple
    /// of four words.
    pub open spec fn padding(tags: nat) -> nat {
        ((4 - (tags + 3) % 4) % 4) as nat
    }

    /// The size field is the size of the buffer and the end tag is zero.
    pub open spec fn well_formed(&self) -> bool {
        &&& self.size == Self::buffer_size()
        &&& self.end == 0
    }

    /// The words of the buffer: size, status, the tags, the end tag and the
    /// padding.
    pub open spec fn words(&self) -> Seq<u32> {
        seq![self.size, self.status.spec_code()] + self.data.words() + seq![self.end] + zeros(
            Self::padding(self.data.words().len()),
        )
    }

    /// A request that carries `tag`.
    pub fn new(tag: T) -> (message: Message<T>)
        requires
            Self::buffer_size() <= u32::MAX,
        ensures
            message.size == Self::buffer_size(),
            message.size % 16 == 0,
            message.status == MessageStatus::Request,
            message.data == tag,
            message.end == 0,
            message.well_formed(),
            message.words().len() * 4 == message.size,
    {
        proof {
            lemma_round_up_to_multiple_of_4(T::byte_size());
            lemma_round_up_to_multiple_of_16(12 + round_up_to_multiple_of_4(T::byte_size()));
        }
        let tags: u32 = next_multiple_of_4(T::size());
        let message = Message {
            size: next_multiple_of_16(12 + tags),
            status: MessageStatus::Request,
            data: tag,
            end: 0x0,
        };
        proof {
            message.lemma_size();
        }
        message
    }

    /// The buffer of every message is a multiple of sixteen bytes long. The
    /// size field of a well-formed message is the exact length in bytes of
    /// its buffer.
    pub proof fn lemma_size(&self)
        ensures
            (self.words().len() * 4) % 16 == 0,
            self.words().len() >= 4,
            self.well_formed() ==> self.words().len() * 4 == self.size,
            self.well_formed() ==> self.size % 16 == 0,
    {
        self.data.lemma_length();
        lemma_round_up_to_multiple_of_4(T::byte_size());
        lemma_round_up_to_multiple_of_16(12 + round_up_to_multiple_of_4(T::byte_size()));
    }

    /// Lays the message out as the words of its buffer.
    pub fn encode(&self) -> (buffer: Vec<u32>)
        ensures
            buffer@ == self.words(),
            (buffer@.len() * 4) % 16 == 0,
            self.well_formed() ==> buffer@.len() * 4 == self.size,
    {
        proof {
            self.lemma_size();
        }
        let mut buffer: Vec<u32> = Vec::new();
        buffer.push(self.size);
        buffer.push(self.status.code());
        self.data.encode(&mut buffer);
        buffer.push(self.end);
        let filled: usize = buffer.len();
        let padding: usize = (4 - filled % 4) % 4;
        push_zeros(&mut buffer, padding);
        assert(buffer@ =~= self.words());
        buffer
    }

    /// The message that the words of a buffer stand for, if the status word
    /// is one of the three that the protocol knows.
    pub open spec fn spec_decode(words: Seq<u32>) -> Option<Message<T>> {
        match MessageStatus::spec_from_code(words[1]) {
            None => None,
            Some(status) => Some(
                Message {
                    size: words[0],
                    status,
                    data: T::from_words(words.subrange(2, words.len() as int)),
                    end: words[2 + word_count(T::byte_size()) as int],
                },
            ),
        }
    }

    /// Decoding the words of a message gives the message back.
    pub proof fn lemma_decode_encode(&self)
        ensures
            Self::spec_decode(self.words()) == Some(*self),
    {
        let rest = seq![self.end] + zeros(Self::padding(self.data.words().len()));
        self.data.lemma_length();
        self.data.lemma_round_trip(rest);
        lemma_status_code_round_trip(self.status);
        let words = self.words();
        assert(words.subrange(2, words.len() as int) =~= self.data.words() + rest);
    }

    /// Reads a message from the words of a buffer: the header, the tags and
    /// the end tag. An unknown status word gives `None`.
    pub fn decode(words: &[u32]) -> (message: Option<Message<T>>)
        requires
            words@.len() >= 3 + word_count(T::byte_size()),
        ensures
            message == Self::spec_decode(words@),
    {
        let length: usize = words.len();
        let status = match MessageStatus::from_code(words[1]) {
            Some(status) => status,
            None => {
                return None;
            },
        };
        let data = T::decode(slice_subrange(words, 2, length));
        Some(Message { size: words[0], status, data, end: words[2 + T::word_len()] })
    }
}

} // verus!
