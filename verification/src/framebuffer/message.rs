//! The tags that configure the display and allocate the framebuffer.

use crate::codec::Payload;
use crate::mailbox::message::TagIdentifier;
use crate::mailbox::types::MessageTag;
use vstd::prelude::*;
use vstd::slice::slice_subrange;

verus! {

/// Holds all of the tags sent to initialize the framebuffer, in the order in
/// which they stand in the buffer.
#[derive(Debug, Clone, Copy, PartialEq, Eq)]
pub struct FramebufferInitializeRequest {
    pub set_physical_size_request: MessageTag<SetDisplaySizeMessage>,
    pub set_virtual_size_request: MessageTag<SetDisplaySizeMessage>,
    pub set_virtual_offset_request: MessageTag<SetVirtualOffsetMessage>,
    pub set_depth_request: MessageTag<SetDepthMessage>,
    pub set_pixel_order_request: MessageTag<SetPixelOrderMessage>,
    pub allocate_buffer_request: MessageTag<AllocateBufferRequest>,
    pub get_pitch_request: MessageTag<GetPitchMessage>,
}

impl Payload for FramebufferInitializeRequest {
    open spec fn byte_size() -> nat {
        132
    }

    open spec fn words(&self) -> Seq<u32> {
        self.set_physical_size_request.words() + self.set_virtual_size_request.words() + self.set_virtual_offset_request.words() + self.set_depth_request.words() + self.set_pixel_order_request.words() + self.allocate_buffer_request.words() + self.get_pitch_request.words()
    }

    open spec fn from_words(words: Seq<u32>) -> Self {
        FramebufferInitializeRequest {
            set_physical_size_request: MessageTag::<SetDisplaySizeMessage>::from_words(words.subrange(0, words.len() as int)),
            set_virtual_size_request: MessageTag::<SetDisplaySizeMessage>::from_words(words.subrange(5, words.len() as int)),
            set_virtual_offset_request: MessageTag::<SetVirtualOffsetMessage>::from_words(words.subrange(10, words.len() as int)),
            set_depth_request: MessageTag::<SetDepthMessage>::from_words(words.subrange(15, words.len() as int)),
            set_pixel_order_request: MessageTag::<SetPixelOrderMessage>::from_words(words.subrange(19, words.len() as int)),
            allocate_buffer_request: MessageTag::<AllocateBufferRequest>::from_words(words.subrange(24, words.len() as int)),
            get_pitch_request: MessageTag::<GetPitchMessage>::from_words(words.subrange(29, words.len() as int)),
        }
    }

    proof fn lemma_length(&self) {
        self.set_physical_size_request.lemma_length();
        self.set_virtual_size_request.lemma_length();
        self.set_virtual_offset_request.lemma_length();
        self.set_depth_request.lemma_length();
        self.set_pixel_order_request.lemma_length();
        self.allocate_buffer_request.lemma_length();
        self.get_pitch_request.lemma_length();
    }

    proof fn lemma_round_trip(&self, rest: Seq<u32>) {
        self.set_physical_size_request.lemma_length();
        self.set_virtual_size_request.lemma_length();
        self.set_virtual_offset_request.lemma_length();
        self.set_depth_request.lemma_length();
        self.set_pixel_order_request.lemma_length();
        self.allocate_buffer_request.lemma_length();
        self.get_pitch_request.lemma_length();
        let words = self.words() + rest;
        self.set_physical_size_request.lemma_round_trip(self.set_virtual_size_request.words() + self.set_virtual_offset_request.words() + self.set_depth_request.words() + self.set_pixel_order_request.words() + self.allocate_buffer_request.words() + self.get_pitch_request.words() + rest);
        assert(words.subrange(0, words.len() as int) =~= self.set_physical_size_request.words() + (self.set_virtual_size_request.words() + self.set_virtual_offset_request.words() + self.set_depth_request.words() + self.set_pixel_order_request.words() + self.allocate_buffer_request.words() + self.get_pitch_request.words() + rest));
        self.set_virtual_size_request.lemma_round_trip(self.set_virtual_offset_request.words() + self.set_depth_request.words() + self.set_pixel_order_request.words() + self.allocate_buffer_request.words() + self.get_pitch_request.words() + rest);
        assert(words.subrange(5, words.len() as int) =~= self.set_virtual_size_request.words() + (self.set_virtual_offset_request.words() + self.set_depth_request.words() + self.set_pixel_order_request.words() + self.allocate_buffer_request.words() + self.get_pitch_request.words() + rest));
        self.set_virtual_offset_request.lemma_round_trip(self.set_depth_request.words() + self.set_pixel_order_request.words() + self.allocate_buffer_request.words() + self.get_pitch_request.words() + rest);
        assert(words.subrange(10, words.len() as int) =~= self.set_virtual_offset_request.words() + (self.set_depth_request.words() + self.set_pixel_order_request.words() + self.allocate_buffer_request.words() + self.get_pitch_request.words() + rest));
        self.set_depth_request.lemma_round_trip(self.set_pixel_order_request.words() + self.allocate_buffer_request.words() + self.get_pitch_request.words() + rest);
        assert(words.subrange(15, words.len() as int) =~= self.set_depth_request.words() + (self.set_pixel_order_request.words() + self.allocate_buffer_request.words() + self.get_pitch_request.words() + rest));
        self.set_pixel_order_request.lemma_round_trip(self.allocate_buffer_request.words() + self.get_pitch_request.words() + rest);
        assert(words.subrange(19, words.len() as int) =~= self.set_pixel_order_request.words() + (self.allocate_buffer_request.words() + self.get_pitch_request.words() + rest));
        self.allocate_buffer_request.lemma_round_trip(self.get_pitch_request.words() + rest);
        assert(words.subrange(24, words.len() as int) =~= self.allocate_buffer_request.words() + (self.get_pitch_request.words() + rest));
        self.get_pitch_request.lemma_round_trip(rest);
        assert(words.subrange(29, words.len() as int) =~= self.get_pitch_request.words() + (rest));
    }

    fn size() -> (n: u32) {
        132
    }

    fn word_len() -> (n: usize) {
        33
    }

    fn encode(&self, out: &mut Vec<u32>) {
        self.set_physical_size_request.encode(out);
        self.set_virtual_size_request.encode(out);
        self.set_virtual_offset_request.encode(out);
        self.set_depth_request.encode(out);
        self.set_pixel_order_request.encode(out);
        self.allocate_buffer_request.encode(out);
        self.get_pitch_request.encode(out);
        assert(out@ =~= old(out)@ + self.words());
    }

    fn decode(words: &[u32]) -> (value: Self) {
        let end: usize = words.len();
        let set_physical_size_request = MessageTag::<SetDisplaySizeMessage>::decode(slice_subrange(words, 0, end));
        let set_virtual_size_request = MessageTag::<SetDisplaySizeMessage>::decode(slice_subrange(words, 5, end));
        let set_virtual_offset_request = MessageTag::<SetVirtualOffsetMessage>::decode(slice_subrange(words, 10, end));
        let set_depth_request = MessageTag::<SetDepthMessage>::decode(slice_subrange(words, 15, end));
        let set_pixel_order_request = MessageTag::<SetPixelOrderMessage>::decode(slice_subrange(words, 19, end));
        let allocate_buffer_request = MessageTag::<AllocateBufferRequest>::decode(slice_subrange(words, 24, end));
        let get_pitch_request = MessageTag::<GetPitchMessage>::decode(slice_subrange(words, 29, end));
        FramebufferInitializeRequest { set_physical_size_request, set_virtual_size_request, set_virtual_offset_request, set_depth_request, set_pixel_order_request, allocate_buffer_request, get_pitch_request }
    }
}

/// Holds all of the tags received after a [`FramebufferInitializeRequest`]
/// has been sent: the same tags, with the values that the VideoCore chose.
#[derive(Debug, Clone, Copy, PartialEq, Eq)]
pub struct FramebufferInitializeResponse {
    pub set_physical_size_response: MessageTag<SetDisplaySizeMessage>,
    pub set_virtual_size_response: MessageTag<SetDisplaySizeMessage>,
    pub set_virtual_offset_response: MessageTag<SetVirtualOffsetMessage>,
    pub set_depth_response: MessageTag<SetDepthMessage>,
    pub set_pixel_order_response: MessageTag<SetPixelOrderMessage>,
    pub allocate_buffer_response: MessageTag<AllocateBufferResponse>,
    pub get_pitch_response: MessageTag<GetPitchMessage>,
}

impl Payload for FramebufferInitializeResponse {
    open spec fn byte_size() -> nat {
        132
    }

    open spec fn words(&self) -> Seq<u32> {
        self.set_physical_size_response.words() + self.set_virtual_size_response.words() + self.set_virtual_offset_response.words() + self.set_depth_response.words() + self.set_pixel_order_response.words() + self.allocate_buffer_response.words() + self.get_pitch_response.words()
    }

    open spec fn from_words(words: Seq<u32>) -> Self {
        FramebufferInitializeResponse {
            set_physical_size_response: MessageTag::<SetDisplaySizeMessage>::from_words(words.subrange(0, words.len() as int)),
            set_virtual_size_response: MessageTag::<SetDisplaySizeMessage>::from_words(words.subrange(5, words.len() as int)),
            set_virtual_offset_response: MessageTag::<SetVirtualOffsetMessage>::from_words(words.subrange(10, words.len() as int)),
            set_depth_response: MessageTag::<SetDepthMessage>::from_words(words.subrange(15, words.len() as int)),
            set_pixel_order_response: MessageTag::<SetPixelOrderMessage>::from_words(words.subrange(19, words.len() as int)),
            allocate_buffer_response: MessageTag::<AllocateBufferResponse>::from_words(words.subrange(24, words.len() as int)),
            get_pitch_response: MessageTag::<GetPitchMessage>::from_words(words.subrange(29, words.len() as int)),
        }
    }

    proof fn lemma_length(&self) {
        self.set_physical_size_response.lemma_length();
        self.set_virtual_size_response.lemma_length();
        self.set_virtual_offset_response.lemma_length();
        self.set_depth_response.lemma_length();
        self.set_pixel_order_response.lemma_length();
        self.allocate_buffer_response.lemma_length();
        self.get_pitch_response.lemma_length();
    }

    proof fn lemma_round_trip(&self, rest: Seq<u32>) {
        self.set_physical_size_response.lemma_length();
        self.set_virtual_size_response.lemma_length();
        self.set_virtual_offset_response.lemma_length();
        self.set_depth_response.lemma_length();
        self.set_pixel_order_response.lemma_length();
        self.allocate_buffer_response.lemma_length();
        self.get_pitch_response.lemma_length();
        let words = self.words() + rest;
        self.set_physical_size_response.lemma_round_trip(self.set_virtual_size_response.words() + self.set_virtual_offset_response.words() + self.set_depth_response.words() + self.set_pixel_order_response.words() + self.allocate_buffer_response.words() + self.get_pitch_response.words() + rest);
        assert(words.subrange(0, words.len() as int) =~= self.set_physical_size_response.words() + (self.set_virtual_size_response.words() + self.set_virtual_offset_response.words() + self.set_depth_response.words() + self.set_pixel_order_response.words() + self.allocate_buffer_response.words() + self.get_pitch_response.words() + rest));
        self.set_virtual_size_response.lemma_round_trip(self.set_virtual_offset_response.words() + self.set_depth_response.words() + self.set_pixel_order_response.words() + self.allocate_buffer_response.words() + self.get_pitch_response.words() + rest);
        assert(words.subrange(5, words.len() as int) =~= self.set_virtual_size_response.words() + (self.set_virtual_offset_response.words() + self.set_depth_response.words() + self.set_pixel_order_response.words() + self.allocate_buffer_response.words() + self.get_pitch_response.words() + rest));
        self.set_virtual_offset_response.lemma_round_trip(self.set_depth_response.words() + self.set_pixel_order_response.words() + self.allocate_buffer_response.words() + self.get_pitch_response.words() + rest);
        assert(words.subrange(10, words.len() as int) =~= self.set_virtual_offset_response.words() + (self.set_depth_response.words() + self.set_pixel_order_response.words() + self.allocate_buffer_response.words() + self.get_pitch_response.words() + rest));
        self.set_depth_response.lemma_round_trip(self.set_pixel_order_response.words() + self.allocate_buffer_response.words() + self.get_pitch_response.words() + rest);
        assert(words.subrange(15, words.len() as int) =~= self.set_depth_response.words() + (self.set_pixel_order_response.words() + self.allocate_buffer_response.words() + self.get_pitch_response.words() + rest));
        self.set_pixel_order_response.lemma_round_trip(self.allocate_buffer_response.words() + self.get_pitch_response.words() + rest);
        assert(words.subrange(19, words.len() as int) =~= self.set_pixel_order_response.words() + (self.allocate_buffer_response.words() + self.get_pitch_response.words() + rest));
        self.allocate_buffer_response.lemma_round_trip(self.get_pitch_response.words() + rest);
        assert(words.subrange(24, words.len() as int) =~= self.allocate_buffer_response.words() + (self.get_pitch_response.words() + rest));
        self.get_pitch_response.lemma_round_trip(rest);
        assert(words.subrange(29, words.len() as int) =~= self.get_pitch_response.words() + (rest));
    }

    fn size() -> (n: u32) {
        132
    }

    fn word_len() -> (n: usize) {
        33
    }

    fn encode(&self, out: &mut Vec<u32>) {
        self.set_physical_size_response.encode(out);
        self.set_virtual_size_response.encode(out);
        self.set_virtual_offset_response.encode(out);
        self.set_depth_response.encode(out);
        self.set_pixel_order_response.encode(out);
        self.allocate_buffer_response.encode(out);
        self.get_pitch_response.encode(out);
        assert(out@ =~= old(out)@ + self.words());
    }

    fn decode(words: &[u32]) -> (value: Self) {
        let end: usize = words.len();
        let set_physical_size_response = MessageTag::<SetDisplaySizeMessage>::decode(slice_subrange(words, 0, end));
        let set_virtual_size_response = MessageTag::<SetDisplaySizeMessage>::decode(slice_subrange(words, 5, end));
        let set_virtual_offset_response = MessageTag::<SetVirtualOffsetMessage>::decode(slice_subrange(words, 10, end));
        let set_depth_response = MessageTag::<SetDepthMessage>::decode(slice_subrange(words, 15, end));
        let set_pixel_order_response = MessageTag::<SetPixelOrderMessage>::decode(slice_subrange(words, 19, end));
        let allocate_buffer_response = MessageTag::<AllocateBufferResponse>::decode(slice_subrange(words, 24, end));
        let get_pitch_response = MessageTag::<GetPitchMessage>::decode(slice_subrange(words, 29, end));
        FramebufferInitializeResponse { set_physical_size_response, set_virtual_size_response, set_virtual_offset_response, set_depth_response, set_pixel_order_response, allocate_buffer_response, get_pitch_response }
    }
}

/// Getters for the values inside the tags.
impl FramebufferInitializeResponse {
    pub fn allocate_buffer_response(&self) -> (data: AllocateBufferResponse)
        ensures
            data == self.allocate_buffer_response.data,
    {
        self.allocate_buffer_response.data
    }

    pub fn set_physical_size_response(&self) -> (data: SetDisplaySizeMessage)
        ensures
            data == self.set_physical_size_response.data,
    {
        self.set_physical_size_response.data
    }

    pub fn set_virtual_size_response(&self) -> (data: SetDisplaySizeMessage)
        ensures
            data == self.set_virtual_size_response.data,
    {
        self.set_virtual_size_response.data
    }

    pub fn set_virtual_offset_response(&self) -> (data: SetVirtualOffsetMessage)
        ensures
            data == self.set_virtual_offset_response.data,
    {
        self.set_virtual_offset_response.data
    }

    pub fn set_depth_response(&self) -> (data: SetDepthMessage)
        ensures
            data == self.set_depth_response.data,
    {
        self.set_depth_response.data
    }

    pub fn set_pixel_order_response(&self) -> (data: SetPixelOrderMessage)
        ensures
            data == self.set_pixel_order_response.data,
    {
        self.set_pixel_order_response.data
    }

    pub fn get_pitch_response(&self) -> (data: GetPitchMessage)
        ensures
            data == self.get_pitch_response.data,
    {
        self.get_pitch_response.data
    }
}

/// Allocates a frame buffer using a certain alignment.
#[derive(Debug, Clone, Copy, PartialEq, Eq)]
pub struct AllocateBufferRequest {
    /// The alignment of the buffer address in bytes.
    pub alignment: u32,
    /// The response has two fields and the request only one: this fills the
    /// request up.
    pub padding: u32,
}

impl AllocateBufferRequest {
    /// The request tag for a buffer with the given alignment.
    pub fn new(alignment: u32) -> (tag: MessageTag<AllocateBufferRequest>)
        ensures
            tag == (MessageTag {
                identifier: TagIdentifier::AllocateBuffer.spec_code(),
                value_size: 8,
                codes: 0,
                data: AllocateBufferRequest { alignment, padding: 0 },
            }),
    {
        MessageTag::new(
            TagIdentifier::AllocateBuffer,
            AllocateBufferRequest { alignment, padding: 0 },
        )
    }
}

/// The response received after an [`AllocateBufferRequest`] has been sent.
#[derive(Debug, Clone, Copy, PartialEq, Eq)]
pub struct AllocateBufferResponse {
    pub base_address: u32,
    pub size: u32,
}

/// Sets the display's width and height; used for the physical and for the
/// virtual display size.
#[derive(Debug, Clone, Copy, PartialEq, Eq)]
pub struct SetDisplaySizeMessage {
    /// The width of the display.
    pub width: u32,
    /// The height of the display.
    pub height: u32,
}

impl SetDisplaySizeMessage {
    /// The request tag for the physical display size.
    pub fn new_physical(width: u32, height: u32) -> (tag: MessageTag<SetDisplaySizeMessage>)
        ensures
            tag == (MessageTag {
                identifier: TagIdentifier::SetPhysicalDisplaySize.spec_code(),
                value_size: 8,
                codes: 0,
                data: SetDisplaySizeMessage { width, height },
            }),
    {
        MessageTag::new(
            TagIdentifier::SetPhysicalDisplaySize,
            SetDisplaySizeMessage { width, height },
        )
    }

    /// The request tag for the virtual display size.
    pub fn new_virtual(width: u32, height: u32) -> (tag: MessageTag<SetDisplaySizeMessage>)
        ensures
            tag == (MessageTag {
                identifier: TagIdentifier::SetVirtualDisplaySize.spec_code(),
                value_size: 8,
                codes: 0,
                data: SetDisplaySizeMessage { width, height },
            }),
    {
        MessageTag::new(
            TagIdentifier::SetVirtualDisplaySize,
            SetDisplaySizeMessage { width, height },
        )
    }
}

/// Sets the offset of the physical display inside the virtual one.
#[derive(Debug, Clone, Copy, PartialEq, Eq)]
pub struct SetVirtualOffsetMessage {
    /// The offset in pixels from the left.
    pub x: u32,
    /// The offset in pixels from the top.
    pub y: u32,
}

impl SetVirtualOffsetMessage {
    /// The request tag for the virtual offset.
    pub fn new(x: u32, y: u32) -> (tag: MessageTag<SetVirtualOffsetMessage>)
        ensures
            tag == (MessageTag {
                identifier: TagIdentifier::SetVirtualOffset.spec_code(),
                value_size: 8,
                codes: 0,
                data: SetVirtualOffsetMessage { x, y },
            }),
    {
        MessageTag::new(TagIdentifier::SetVirtualOffset, SetVirtualOffsetMessage { x, y })
    }
}

/// Sets the bits-per-pixel for the framebuffer.
#[derive(Debug, Clone, Copy, PartialEq, Eq)]
pub struct SetDepthMessage {
    pub bits_per_pixel: u32,
}

impl SetDepthMessage {
    /// The request tag for the pixel depth.
    pub fn new(depth: u32) -> (tag: MessageTag<SetDepthMessage>)
        ensures
            tag == (MessageTag {
                identifier: TagIdentifier::SetDepth.spec_code(),
                value_size: 4,
                codes: 0,
                data: SetDepthMessage { bits_per_pixel: depth },
            }),
    {
        MessageTag::new(TagIdentifier::SetDepth, SetDepthMessage { bits_per_pixel: depth })
    }
}

/// Represents the different pixel orders supported by the framebuffer.
#[derive(Debug, Clone, Copy, PartialEq, Eq, PartialOrd, Ord)]
pub enum PixelOrder {
    /// Blue, Green, Red.
    BGR,
    /// Red, Green, Blue.
    RGB,
    /// Usually returned when the mailbox's data has been mangled in some way.
    Unknown(u32),
}

impl PixelOrder {
    /// The two words of a pixel order: the number of the variant, then
    /// what the variant carries, or zero.
    pub open spec fn words(self) -> Seq<u32> {
        match self {
            PixelOrder::BGR => seq![0u32, 0u32],
            PixelOrder::RGB => seq![1u32, 0u32],
            PixelOrder::Unknown(value) => seq![2u32, value],
        }
    }

    /// The pixel order that the first two of `words` stand for. Zero is BGR
    /// and one is RGB; every other number gives `Unknown` with the second
    /// word.
    pub open spec fn from_words(words: Seq<u32>) -> PixelOrder {
        if words[0] == 0 {
            PixelOrder::BGR
        } else if words[0] == 1 {
            PixelOrder::RGB
        } else {
            PixelOrder::Unknown(words[1])
        }
    }
}

/// Sets the [`PixelOrder`] for this framebuffer.
#[derive(Debug, Clone, Copy, PartialEq, Eq)]
pub struct SetPixelOrderMessage {
    pub pixel_order: PixelOrder,
}

impl SetPixelOrderMessage {
    /// The request tag for the pixel order.
    pub fn new(pixel_order: PixelOrder) -> (tag: MessageTag<SetPixelOrderMessage>)
        ensures
            tag == (MessageTag {
                identifier: TagIdentifier::SetPixelOrder.spec_code(),
                value_size: 8,
                codes: 0,
                data: SetPixelOrderMessage { pixel_order },
            }),
    {
        MessageTag::new(TagIdentifier::SetPixelOrder, SetPixelOrderMessage { pixel_order })
    }
}

/// Asks for the bytes-per-line for the framebuffer.
#[derive(Debug, Clone, Copy, PartialEq, Eq)]
pub struct GetPitchMessage {
    pub bytes_per_line: u32,
}

impl GetPitchMessage {
    /// The request tag: the pitch is zero until the VideoCore fills it in.
    pub fn new() -> (tag: MessageTag<GetPitchMessage>)
        ensures
            tag == (MessageTag {
                identifier: TagIdentifier::GetPitch.spec_code(),
                value_size: 4,
                codes: 0,
                data: GetPitchMessage { bytes_per_line: 0 },
            }),
    {
        MessageTag::new(TagIdentifier::GetPitch, GetPitchMessage { bytes_per_line: 0 })
    }
}

impl Payload for AllocateBufferRequest {
    open spec fn byte_size() -> nat {
        8
    }

    open spec fn words(&self) -> Seq<u32> {
        seq![self.alignment, self.padding]
    }

    open spec fn from_words(words: Seq<u32>) -> Self {
        AllocateBufferRequest { alignment: words[0], padding: words[1] }
    }

    proof fn lemma_length(&self) {
    }

    proof fn lemma_round_trip(&self, rest: Seq<u32>) {
    }

    fn size() -> (n: u32) {
        8
    }

    fn word_len() -> (n: usize) {
        2
    }

    fn encode(&self, out: &mut Vec<u32>) {
        out.push(self.alignment);
        out.push(self.padding);
        assert(out@ =~= old(out)@ + self.words());
    }

    fn decode(words: &[u32]) -> (value: Self) {
        AllocateBufferRequest { alignment: words[0], padding: words[1] }
    }
}

impl Payload for AllocateBufferResponse {
    open spec fn byte_size() -> nat {
        8
    }

    open spec fn words(&self) -> Seq<u32> {
        seq![self.base_address, self.size]
    }

    open spec fn from_words(words: Seq<u32>) -> Self {
        AllocateBufferResponse { base_address: words[0], size: words[1] }
    }

    proof fn lemma_length(&self) {
    }

    proof fn lemma_round_trip(&self, rest: Seq<u32>) {
    }

    fn size() -> (n: u32) {
        8
    }

    fn word_len() -> (n: usize) {
        2
    }

    fn encode(&self, out: &mut Vec<u32>) {
        out.push(self.base_address);
        out.push(self.size);
        assert(out@ =~= old(out)@ + self.words());
    }

    fn decode(words: &[u32]) -> (value: Self) {
        AllocateBufferResponse { base_address: words[0], size: words[1] }
    }
}

impl Payload for SetDisplaySizeMessage {
    open spec fn byte_size() -> nat {
        8
    }

    open spec fn words(&self) -> Seq<u32> {
        seq![self.width, self.height]
    }

    open spec fn from_words(words: Seq<u32>) -> Self {
        SetDisplaySizeMessage { width: words[0], height: words[1] }
    }

    proof fn lemma_length(&self) {
    }

    proof fn lemma_round_trip(&self, rest: Seq<u32>) {
    }

    fn size() -> (n: u32) {
        8
    }

    fn word_len() -> (n: usize) {
        2
    }

    fn encode(&self, out: &mut Vec<u32>) {
        out.push(self.width);
        out.push(self.height);
        assert(out@ =~= old(out)@ + self.words());
    }

    fn decode(words: &[u32]) -> (value: Self) {
        SetDisplaySizeMessage { width: words[0], height: words[1] }
    }
}

impl Payload for SetVirtualOffsetMessage {
    open spec fn byte_size() -> nat {
        8
    }

    open spec fn words(&self) -> Seq<u32> {
        seq![self.x, self.y]
    }

    open spec fn from_words(words: Seq<u32>) -> Self {
        SetVirtualOffsetMessage { x: words[0], y: words[1] }
    }

    proof fn lemma_length(&self) {
    }

    proof fn lemma_round_trip(&self, rest: Seq<u32>) {
    }

    fn size() -> (n: u32) {
        8
    }

    fn word_len() -> (n: usize) {
        2
    }

    fn encode(&self, out: &mut Vec<u32>) {
        out.push(self.x);
        out.push(self.y);
        assert(out@ =~= old(out)@ + self.words());
    }

    fn decode(words: &[u32]) -> (value: Self) {
        SetVirtualOffsetMessage { x: words[0], y: words[1] }
    }
}

impl Payload for SetDepthMessage {
    open spec fn byte_size() -> nat {
        4
    }

    open spec fn words(&self) -> Seq<u32> {
        seq![self.bits_per_pixel]
    }

    open spec fn from_words(words: Seq<u32>) -> Self {
        SetDepthMessage { bits_per_pixel: words[0] }
    }

    proof fn lemma_length(&self) {
    }

    proof fn lemma_round_trip(&self, rest: Seq<u32>) {
    }

    fn size() -> (n: u32) {
        4
    }

    fn word_len() -> (n: usize) {
        1
    }

    fn encode(&self, out: &mut Vec<u32>) {
        out.push(self.bits_per_pixel);
    }

    fn decode(words: &[u32]) -> (value: Self) {
        SetDepthMessage { bits_per_pixel: words[0] }
    }
}

impl Payload for GetPitchMessage {
    open spec fn byte_size() -> nat {
        4
    }

    open spec fn words(&self) -> Seq<u32> {
        seq![self.bytes_per_line]
    }

    open spec fn from_words(words: Seq<u32>) -> Self {
        GetPitchMessage { bytes_per_line: words[0] }
    }

    proof fn lemma_length(&self) {
    }

    proof fn lemma_round_trip(&self, rest: Seq<u32>) {
    }

    fn size() -> (n: u32) {
        4
    }

    fn word_len() -> (n: usize) {
        1
    }

    fn encode(&self, out: &mut Vec<u32>) {
        out.push(self.bytes_per_line);
    }

    fn decode(words: &[u32]) -> (value: Self) {
        GetPitchMessage { bytes_per_line: words[0] }
    }
}

impl Payload for SetPixelOrderMessage {
    open spec fn byte_size() -> nat {
        8
    }

    open spec fn words(&self) -> Seq<u32> {
        self.pixel_order.words()
    }

    open spec fn from_words(words: Seq<u32>) -> Self {
        SetPixelOrderMessage { pixel_order: PixelOrder::from_words(words) }
    }

    proof fn lemma_length(&self) {
    }

    proof fn lemma_round_trip(&self, rest: Seq<u32>) {
    }

    fn size() -> (n: u32) {
        8
    }

    fn word_len() -> (n: usize) {
        2
    }

    fn encode(&self, out: &mut Vec<u32>) {
        match self.pixel_order {
            PixelOrder::BGR => {
                out.push(0);
                out.push(0);
            },
            PixelOrder::RGB => {
                out.push(1);
                out.push(0);
            },
            PixelOrder::Unknown(value) => {
                out.push(2);
                out.push(value);
            },
        }
        assert(out@ =~= old(out)@ + self.words());
    }

    fn decode(words: &[u32]) -> (value: Self) {
        let number: u32 = words[0];
        let pixel_order = if number == 0 {
            PixelOrder::BGR
        } else if number == 1 {
            PixelOrder::RGB
        } else {
            PixelOrder::Unknown(words[1])
        };
        SetPixelOrderMessage { pixel_order }
    }
}

} // verus!
