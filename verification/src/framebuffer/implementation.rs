//! The driver: it asks the VideoCore for a framebuffer, checks what comes
//! back, and draws into the memory that it was given.

use super::message::{
    AllocateBufferRequest, FramebufferInitializeRequest, FramebufferInitializeResponse,
    GetPitchMessage, PixelOrder, SetDepthMessage, SetDisplaySizeMessage, SetPixelOrderMessage,
    SetVirtualOffsetMessage,
};
use crate::mailbox::implementation::MailboxError;
use crate::mailbox::message::TagIdentifier;
use crate::mailbox::types::{Message, MessageStatus, MessageTag};
use vstd::arithmetic::div_mod::{lemma_fundamental_div_mod, lemma_fundamental_div_mod_converse};
use vstd::prelude::*;

verus! {

/// The width of the display that is asked for, in pixels.
pub const DISPLAY_WIDTH: u32 = 1280;

/// The height of the display that is asked for, in pixels.
pub const DISPLAY_HEIGHT: u32 = 720;

/// The pixel depth that is asked for, in bits.
pub const DISPLAY_DEPTH: u32 = 32;

/// The alignment of the framebuffer that is asked for, in bytes.
pub const BUFFER_ALIGNMENT: u32 = 16;

/// The bits of a bus address that address memory as the CPU sees it.
pub const BUS_ADDRESS_MASK: u32 = 0x3FFF_FFFF;

/// Represents an error that can occur during the framebuffer's operations.
#[derive(Debug, Clone, Copy, PartialEq, Eq)]
pub enum FramebufferError {
    /// The framebuffer has already been initialized.
    AlreadyInitialized,
    /// The framebuffer has not been initialized yet.
    NotInitialized,
    /// The VideoCore did not set the display sizes asked for: one of the
    /// four lengths is zero.
    InvalidDisplaySize { physical: SetDisplaySizeMessage, virtual_size: SetDisplaySizeMessage },
    /// The VideoCore did not set the pixel depth to the value asked for.
    UnsupportedDepth(u32),
    /// The VideoCore did not set the pixel order to the one asked for.
    UnsupportedPixelOrder(PixelOrder),
    /// The VideoCore did not send a valid size or address for the
    /// framebuffer. This usually occurs when no display is connected.
    FailedToAllocateBuffer,
    /// The VideoCore did not return a valid pitch.
    InvalidPitch(u32),
    /// The mailbox returned an error.
    Mailbox(MailboxError),
}

/// What the driver keeps of a successful initialization.
#[derive(Debug, Clone, Copy, PartialEq, Eq)]
pub struct FramebufferInfo {
    /// The address of the framebuffer as the CPU sees it.
    pub address: u32,
    /// The bytes-per-line of the framebuffer.
    pub pitch: u32,
}

/// Represents the framebuffer of the board.
#[derive(Debug, Clone, Copy, PartialEq, Eq)]
pub struct Framebuffer {
    /// Set once the framebuffer has been allocated.
    info: Option<FramebufferInfo>,
}

/// The place of the pixel at (`px`, `py`) in a framebuffer whose lines are
/// `stride` pixels apart.
pub open spec fn pixel_index(stride: int, px: int, py: int) -> int {
    py * stride + px
}

/// The offset in bytes of the pixel at (`x`, `y`) from the start of a
/// framebuffer with the given pitch.
pub open spec fn pixel_offset(pitch: u32, x: u32, y: u32) -> int {
    x * 4 + y * pitch
}

/// Whether place `i` holds one of the pixels (`px`, `py`) with
/// `x <= px < right` and `y <= py < bottom`.
pub open spec fn in_area(i: int, stride: int, x: int, y: int, right: int, bottom: int) -> bool {
    exists|px: int, py: int|
        x <= px < right && y <= py < bottom && i == #[trigger] pixel_index(stride, px, py)
}

/// The composite request that initializes the framebuffer. The VideoCore
/// wants every tag that configures the display in one buffer with the tag
/// that allocates it.
pub open spec fn spec_request() -> FramebufferInitializeRequest {
    FramebufferInitializeRequest {
        set_physical_size_request: MessageTag {
            identifier: TagIdentifier::SetPhysicalDisplaySize.spec_code(),
            value_size: 8,
            codes: 0,
            data: SetDisplaySizeMessage { width: 1280, height: 720 },
        },
        set_virtual_size_request: MessageTag {
            identifier: TagIdentifier::SetVirtualDisplaySize.spec_code(),
            value_size: 8,
            codes: 0,
            data: SetDisplaySizeMessage { width: 1280, height: 720 },
        },
        set_virtual_offset_request: MessageTag {
            identifier: TagIdentifier::SetVirtualOffset.spec_code(),
            value_size: 8,
            codes: 0,
            data: SetVirtualOffsetMessage { x: 0, y: 0 },
        },
        set_depth_request: MessageTag {
            identifier: TagIdentifier::SetDepth.spec_code(),
            value_size: 4,
            codes: 0,
            data: SetDepthMessage { bits_per_pixel: 32 },
        },
        set_pixel_order_request: MessageTag {
            identifier: TagIdentifier::SetPixelOrder.spec_code(),
            value_size: 8,
            codes: 0,
            data: SetPixelOrderMessage { pixel_order: PixelOrder::BGR },
        },
        allocate_buffer_request: MessageTag {
            identifier: TagIdentifier::AllocateBuffer.spec_code(),
            value_size: 8,
            codes: 0,
            data: AllocateBufferRequest { alignment: 16, padding: 0 },
        },
        get_pitch_request: MessageTag {
            identifier: TagIdentifier::GetPitch.spec_code(),
            value_size: 4,
            codes: 0,
            data: GetPitchMessage { bytes_per_line: 0 },
        },
    }
}

/// What the checks say of a response. They are made in this order, and the
/// first that fails gives the error: the four lengths of the two display
/// sizes are not zero; the pixel order is BGR; the depth is 32; size and
/// address of the buffer are not zero; the pitch is not zero.
pub open spec fn spec_validate(response: FramebufferInitializeResponse) -> Result<
    (),
    FramebufferError,
> {
    let physical = response.set_physical_size_response.data;
    let virtual_size = response.set_virtual_size_response.data;
    let pixel_order = response.set_pixel_order_response.data.pixel_order;
    let depth = response.set_depth_response.data.bits_per_pixel;
    let buffer = response.allocate_buffer_response.data;
    let pitch = response.get_pitch_response.data.bytes_per_line;
    if physical.width == 0 || physical.height == 0 || virtual_size.width == 0
        || virtual_size.height == 0 {
        Err(FramebufferError::InvalidDisplaySize { physical, virtual_size })
    } else if pixel_order != PixelOrder::BGR {
        Err(FramebufferError::UnsupportedPixelOrder(pixel_order))
    } else if depth != 32 {
        Err(FramebufferError::UnsupportedDepth(depth))
    } else if buffer.size == 0 || buffer.base_address == 0 {
        Err(FramebufferError::FailedToAllocateBuffer)
    } else if pitch == 0 {
        Err(FramebufferError::InvalidPitch(pitch))
    } else {
        Ok(())
    }
}

/// What a valid response makes of the driver: the address without the bits
/// that only the bus knows, and the pitch.
pub open spec fn spec_info(response: FramebufferInitializeResponse) -> FramebufferInfo {
    FramebufferInfo {
        address: response.allocate_buffer_response.data.base_address & BUS_ADDRESS_MASK,
        pitch: response.get_pitch_response.data.bytes_per_line,
    }
}

/// What `initialize` returns for a driver with the given state and a given
/// outcome of the exchange.
pub open spec fn spec_initialize(
    info: Option<FramebufferInfo>,
    reply: Result<FramebufferInitializeResponse, MailboxError>,
) -> Result<(), FramebufferError> {
    if info.is_some() {
        Err(FramebufferError::AlreadyInitialized)
    } else {
        match reply {
            Err(error) => Err(FramebufferError::Mailbox(error)),
            Ok(response) => spec_validate(response),
        }
    }
}

impl Default for Framebuffer {
    /// A driver that has not been initialized.
    fn default() -> (framebuffer: Framebuffer)
        ensures
            framebuffer.info().is_none(),
    {
        Framebuffer { info: None }
    }
}

impl Framebuffer {
    /// What the driver knows of its framebuffer: nothing before it has been
    /// initialized.
    pub closed spec fn spec_info(&self) -> Option<FramebufferInfo> {
        self.info
    }

    /// What the driver knows of its framebuffer: nothing before it has been
    /// initialized.
    #[verifier::when_used_as_spec(spec_info)]
    pub fn info(&self) -> (info: Option<FramebufferInfo>)
        ensures
            info == self.spec_info(),
    {
        self.info
    }

    /// A driver that has not been initialized.
    pub fn new() -> (framebuffer: Framebuffer)
        ensures
            framebuffer.info().is_none(),
    {
        Framebuffer { info: None }
    }

    /// Whether a surface of `length` pixels holds the pixel at (`x`, `y`):
    /// its offset is a multiple of four and lies inside the surface. A
    /// driver that is not initialized draws nothing, so every surface will
    /// do.
    pub open spec fn spec_holds_pixel(&self, length: nat, x: u32, y: u32) -> bool {
        self.info().is_some() ==> {
            &&& pixel_offset(self.info().unwrap().pitch, x, y) % 4 == 0
            &&& pixel_offset(self.info().unwrap().pitch, x, y) / 4 < length
        }
    }

    /// Whether a surface of `length` pixels holds the area from (`x`, `y`)
    /// up to (`width`, `height`): the area does not end before it begins,
    /// the pitch is a multiple of four, and the last pixel of the area, if
    /// it has one, lies inside the surface. A driver that is not
    /// initialized draws nothing, so every surface will do.
    pub open spec fn spec_holds_area(
        &self,
        length: nat,
        x: u32,
        y: u32,
        width: u32,
        height: u32,
    ) -> bool {
        self.info().is_some() ==> {
            &&& x <= width
            &&& y <= height
            &&& self.info().unwrap().pitch % 4 == 0
            &&& x < width && y < height ==> pixel_index(
                self.info().unwrap().pitch as int / 4,
                width - 1,
                height - 1,
            ) < length
        }
    }

    /// Whether `draw_pixel` may be called for the pixel at (`x`, `y`) with a
    /// surface of `length` pixels.
    pub fn holds_pixel(&self, length: usize, x: u32, y: u32) -> (holds: bool)
        ensures
            holds == self.spec_holds_pixel(length as nat, x, y),
    {
        match self.info {
            None => true,
            Some(info) => {
                assert(y * info.pitch <= 0xFFFF_FFFF * 0xFFFF_FFFF) by (nonlinear_arith)
                    requires
                        0 <= y <= 0xFFFF_FFFF,
                        0 <= info.pitch <= 0xFFFF_FFFF,
                ;
                let offset: u128 = (x as u128) * 4 + (y as u128) * (info.pitch as u128);
                offset % 4 == 0 && offset / 4 < length as u128
            },
        }
    }

    /// Whether `fill_area` may be called for the area from (`x`, `y`) up to
    /// (`width`, `height`) with a surface of `length` pixels.
    pub fn holds_area(&self, length: usize, x: u32, y: u32, width: u32, height: u32) -> (holds:
        bool)
        ensures
            holds == self.spec_holds_area(length as nat, x, y, width, height),
    {
        match self.info {
            None => true,
            Some(info) => {
                if x > width || y > height || info.pitch % 4 != 0 {
                    false
                } else if x < width && y < height {
                    let stride: u128 = (info.pitch / 4) as u128;
                    assert((height - 1) * stride <= 0xFFFF_FFFF * 0xFFFF_FFFF) by (nonlinear_arith)
                        requires
                            0 <= height - 1 <= 0xFFFF_FFFF,
                            0 <= stride <= 0xFFFF_FFFF,
                    ;
                    let last: u128 = ((height - 1) as u128) * stride + ((width - 1) as u128);
                    last < length as u128
                } else {
                    true
                }
            },
        }
    }

    /// The request to send in order to initialize the framebuffer, or
    /// `AlreadyInitialized` where there is nothing to send: a second
    /// allocation would free the first framebuffer.
    pub fn request(&self) -> (result: Result<
        Message<FramebufferInitializeRequest>,
        FramebufferError,
    >)
        ensures
            self.info().is_some() ==> result == Err::<
                Message<FramebufferInitializeRequest>,
                FramebufferError,
            >(FramebufferError::AlreadyInitialized),
            self.info().is_none() ==> result == Ok::<
                Message<FramebufferInitializeRequest>,
                FramebufferError,
            >(Message { size: 144, status: MessageStatus::Request, data: spec_request(), end: 0 }),
            result.is_ok() ==> result.unwrap().well_formed(),
    {
        if self.info.is_some() {
            return Err(FramebufferError::AlreadyInitialized);
        }
        let request = FramebufferInitializeRequest {
            set_physical_size_request: SetDisplaySizeMessage::new_physical(
                DISPLAY_WIDTH,
                DISPLAY_HEIGHT,
            ),
            set_virtual_size_request: SetDisplaySizeMessage::new_virtual(
                DISPLAY_WIDTH,
                DISPLAY_HEIGHT,
            ),
            set_virtual_offset_request: SetVirtualOffsetMessage::new(0, 0),
            set_depth_request: SetDepthMessage::new(DISPLAY_DEPTH),
            set_pixel_order_request: SetPixelOrderMessage::new(PixelOrder::BGR),
            allocate_buffer_request: AllocateBufferRequest::new(BUFFER_ALIGNMENT),
            get_pitch_request: GetPitchMessage::new(),
        };
        Ok(Message::new(request))
    }

    /// Finishes the initialization with the outcome of the exchange.
    ///
    /// A driver that is initialized already stays as it is and returns
    /// `AlreadyInitialized`. An error of the mailbox is handed on. A
    /// response is checked field by field; only if every check passes, the
    /// driver keeps address and pitch.
    pub fn initialize(
        &mut self,
        reply: Result<FramebufferInitializeResponse, MailboxError>,
    ) -> (result: Result<(), FramebufferError>)
        ensures
            result == spec_initialize(old(self).info(), reply),
            result.is_err() ==> *final(self) == *old(self),
            result.is_ok() ==> final(self).info() == Some(spec_info(reply.unwrap())),
    {
        if self.info.is_some() {
            return Err(FramebufferError::AlreadyInitialized);
        }
        let response = match reply {
            Ok(response) => response,
            Err(error) => {
                return Err(FramebufferError::Mailbox(error));
            },
        };
        match self.validate_response(&response) {
            Ok(()) => {},
            Err(error) => {
                return Err(error);
            },
        }
        self.info = Some(
            FramebufferInfo {
                address: response.allocate_buffer_response().base_address & BUS_ADDRESS_MASK,
                pitch: response.get_pitch_response().bytes_per_line,
            },
        );
        Ok(())
    }

    /// Draws a pixel at (x, y) into the memory of the framebuffer.
    ///
    /// `surface` is the framebuffer as 32-bit pixels, from its address on.
    /// The pixel lies `x * 4 + y * pitch` bytes from the start; that offset
    /// has to be a multiple of four and inside the surface, which
    /// `holds_pixel` tests. The color is in ABGR format.
    pub fn draw_pixel(&self, surface: &mut [u32], x: u32, y: u32, color: u32) -> (result: Result<
        (),
        FramebufferError,
    >)
        requires
            self.spec_holds_pixel(old(surface)@.len(), x, y),
        ensures
            self.info().is_none() ==> result == Err::<(), FramebufferError>(
                FramebufferError::NotInitialized,
            ) && final(surface)@ == old(surface)@,
            self.info().is_some() ==> result == Ok::<(), FramebufferError>(())
                && final(surface)@ == old(surface)@.update(
                pixel_offset(self.info().unwrap().pitch, x, y) / 4,
                color,
            ),
    {
        let info = match self.info {
            Some(value) => value,
            None => {
                return Err(FramebufferError::NotInitialized);
            },
        };
        assert(y * info.pitch <= 0xFFFF_FFFF * 0xFFFF_FFFF) by (nonlinear_arith)
            requires
                0 <= y <= 0xFFFF_FFFF,
                0 <= info.pitch <= 0xFFFF_FFFF,
        ;
        let offset: u128 = (x as u128) * 4 + (y as u128) * (info.pitch as u128);
        let index: usize = (offset / 4) as usize;
        surface[index] = color;
        Ok(())
    }

    /// Fills the pixels from (x, y) up to, and without, (width, height).
    ///
    /// The filled area is `width - x` pixels wide and `height - y` pixels
    /// high, so `width` and `height` are the right and the bottom edge, not
    /// the extent. `surface` is the framebuffer as 32-bit pixels, from its
    /// address on; the pitch has to be a multiple of four, and the last
    /// pixel of the area has to lie inside the surface, which `holds_area`
    /// tests. The color is in ABGR format.
    pub fn fill_area(
        &self,
        surface: &mut [u32],
        x: u32,
        y: u32,
        width: u32,
        height: u32,
        color: u32,
    ) -> (result: Result<(), FramebufferError>)
        requires
            self.spec_holds_area(old(surface)@.len(), x, y, width, height),
        ensures
            self.info().is_none() ==> result == Err::<(), FramebufferError>(
                FramebufferError::NotInitialized,
            ) && final(surface)@ == old(surface)@,
            self.info().is_some() ==> result == Ok::<(), FramebufferError>(()),
            final(surface)@.len() == old(surface)@.len(),
            self.info().is_some() ==> forall|i: int|
                0 <= i < old(surface)@.len() ==> #[trigger] final(surface)@[i] == (if in_area(
                    i,
                    self.info().unwrap().pitch as int / 4,
                    x as int,
                    y as int,
                    width as int,
                    height as int,
                ) {
                    color
                } else {
                    old(surface)@[i]
                }),
    {
        let info = match self.info {
            Some(value) => value,
            None => {
                return Err(FramebufferError::NotInitialized);
            },
        };
        let ghost stride: int = info.pitch as int / 4;
        if x >= width {
            return Ok(());
        }
        let step: usize = (info.pitch / 4) as usize;
        let length: usize = surface.len();
        let mut rect_y: u32 = y;
        while rect_y < height
            invariant
                y <= rect_y <= height,
                x < width,
                step == stride,
                surface@.len() == old(surface)@.len(),
                surface@.len() == length,
                y < height ==> pixel_index(stride, width - 1, height - 1) < surface@.len(),
                forall|i: int|
                    0 <= i < surface@.len() ==> #[trigger] surface@[i] == (if in_area(
                        i,
                        stride,
                        x as int,
                        y as int,
                        width as int,
                        rect_y as int,
                    ) {
                        color
                    } else {
                        old(surface)@[i]
                    }),
            decreases height - rect_y,
        {
            assert(rect_y * step <= (height - 1) * stride) by (nonlinear_arith)
                requires
                    0 <= rect_y <= height - 1,
                    0 <= stride,
                    step == stride,
            ;
            assert(rect_y * step == rect_y * stride) by (nonlinear_arith)
                requires
                    step == stride,
            ;
            let line: usize = (rect_y as usize) * step;
            let mut rect_x: u32 = x;
            while rect_x < width
                invariant
                    x <= rect_x <= width,
                    rect_y < height,
                    line == rect_y * stride,
                    line + width - 1 < surface@.len(),
                    surface@.len() == old(surface)@.len(),
                    forall|i: int|
                        0 <= i < surface@.len() ==> #[trigger] surface@[i] == (if in_area(
                            i,
                            stride,
                            x as int,
                            y as int,
                            width as int,
                            rect_y as int,
                        ) || line + x <= i < line + rect_x {
                            color
                        } else {
                            old(surface)@[i]
                        }),
                decreases width - rect_x,
            {
                surface[line + rect_x as usize] = color;
                rect_x += 1;
            }
            proof {
                assert forall|i: int| 0 <= i < surface@.len() implies (in_area(
                    i,
                    stride,
                    x as int,
                    y as int,
                    width as int,
                    rect_y as int,
                ) || line + x <= i < line + width) == in_area(
                    i,
                    stride,
                    x as int,
                    y as int,
                    width as int,
                    rect_y + 1,
                ) by {
                    lemma_area_grows(i, stride, x as int, y as int, width as int, rect_y as int);
                }
            }
            rect_y += 1;
        }
        Ok(())
    }

    /// Validates a response by making sure values are either not zero, or
    /// set to the values asked for.
    pub fn validate_response(&self, response: &FramebufferInitializeResponse) -> (result: Result<
        (),
        FramebufferError,
    >)
        ensures
            result == spec_validate(*response),
    {
        let physical_size = response.set_physical_size_response();
        let virtual_size = response.set_virtual_size_response();
        if physical_size.width == 0 || physical_size.height == 0 || virtual_size.width == 0
            || virtual_size.height == 0 {
            return Err(
                FramebufferError::InvalidDisplaySize { physical: physical_size, virtual_size },
            );
        }
        let pixel_order = response.set_pixel_order_response().pixel_order;
        match pixel_order {
            PixelOrder::BGR => {},
            _ => {
                return Err(FramebufferError::UnsupportedPixelOrder(pixel_order));
            },
        }
        let depth: u32 = response.set_depth_response().bits_per_pixel;
        if depth != DISPLAY_DEPTH {
            return Err(FramebufferError::UnsupportedDepth(depth));
        }
        let buffer = response.allocate_buffer_response();
        if buffer.size == 0 || buffer.base_address == 0 {
            return Err(FramebufferError::FailedToAllocateBuffer);
        }
        let pitch: u32 = response.get_pitch_response().bytes_per_line;
        if pitch == 0 {
            return Err(FramebufferError::InvalidPitch(pitch));
        }
        Ok(())
    }
}

/// An area that is one line higher holds what it held before and the
/// pixels of the new line.
pub proof fn lemma_area_grows(i: int, stride: int, x: int, y: int, right: int, bottom: int)
    requires
        y <= bottom,
    ensures
        in_area(i, stride, x, y, right, bottom + 1) == (in_area(i, stride, x, y, right, bottom)
            || bottom * stride + x <= i < bottom * stride + right),
{
    if in_area(i, stride, x, y, right, bottom + 1) {
        let (px, py) = choose|px: int, py: int|
            x <= px < right && y <= py < bottom + 1 && i == #[trigger] pixel_index(
                stride,
                px,
                py,
            );
        if py < bottom {
            assert(in_area(i, stride, x, y, right, bottom));
        }
    }
    if in_area(i, stride, x, y, right, bottom) {
        let (px, py) = choose|px: int, py: int|
            x <= px < right && y <= py < bottom && i == #[trigger] pixel_index(stride, px, py);
        assert(in_area(i, stride, x, y, right, bottom + 1));
    }
    if bottom * stride + x <= i < bottom * stride + right {
        assert(i == pixel_index(stride, i - bottom * stride, bottom));
        assert(in_area(i, stride, x, y, right, bottom + 1));
    }
}

/// Where no line reaches into the next one, the area is a rectangle: with
/// lines of `stride` pixels and a right edge within the line, place `i` lies
/// in the area exactly when its column `i % stride` is at least `x` and
/// below `right`, and its line `i / stride` is at least `y` and below
/// `bottom`.
pub proof fn lemma_area_is_rectangle(
    i: int,
    stride: int,
    x: int,
    y: int,
    right: int,
    bottom: int,
)
    requires
        0 <= x,
        0 <= y,
        right <= stride,
    ensures
        in_area(i, stride, x, y, right, bottom) == (stride > 0 && x <= i % stride < right && y
            <= i / stride < bottom),
{
    if in_area(i, stride, x, y, right, bottom) {
        let (px, py) = choose|px: int, py: int|
            x <= px < right && y <= py < bottom && i == #[trigger] pixel_index(stride, px, py);
        lemma_fundamental_div_mod_converse(i, stride, py, px);
    }
    if stride > 0 && x <= i % stride < right && y <= i / stride < bottom {
        lemma_fundamental_div_mod(i, stride);
        assert(stride * (i / stride) == (i / stride) * stride) by (nonlinear_arith);
        assert(i == pixel_index(stride, i % stride, i / stride));
    }
}

/// Nothing lies in an area without lines or without columns.
pub proof fn lemma_empty_area(i: int, stride: int, x: int, y: int, right: int, bottom: int)
    requires
        right <= x || bottom <= y,
    ensures
        !in_area(i, stride, x, y, right, bottom),
{
}

/// A response passes the checks exactly when none of the four lengths of
/// the display sizes is zero, the pixel order is BGR, the depth is 32, and
/// neither the buffer's size, nor its address, nor the pitch is zero.
pub proof fn lemma_valid_response(response: FramebufferInitializeResponse)
    ensures
        spec_validate(response).is_ok() <==> {
            &&& response.set_physical_size_response.data.width != 0
            &&& response.set_physical_size_response.data.height != 0
            &&& response.set_virtual_size_response.data.width != 0
            &&& response.set_virtual_size_response.data.height != 0
            &&& response.set_pixel_order_response.data.pixel_order == PixelOrder::BGR
            &&& response.set_depth_response.data.bits_per_pixel == 32
            &&& response.allocate_buffer_response.data.size != 0
            &&& response.allocate_buffer_response.data.base_address != 0
            &&& response.get_pitch_response.data.bytes_per_line != 0
        },
{
}

/// A second initialization changes nothing and asks for nothing: once the
/// driver holds its framebuffer, every outcome of an exchange gives
/// `AlreadyInitialized`.
pub proof fn lemma_initialized_stays(
    info: FramebufferInfo,
    reply: Result<FramebufferInitializeResponse, MailboxError>,
)
    ensures
        spec_initialize(Some(info), reply) == Err::<(), FramebufferError>(
            FramebufferError::AlreadyInitialized,
        ),
{
}

} // verus!
