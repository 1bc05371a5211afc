//! The property tags for board information.

use super::types::MessageTag;
use crate::codec::Payload;
use crate::mac::MacAddress;
use vstd::prelude::*;

verus! {

/// The tags of the property protocol that this crate sends.
#[derive(Debug, Clone, Copy, PartialEq, Eq)]
pub enum TagIdentifier {
    GetFirmwareVersion,
    GetBoardRevision,
    GetBoardMacAddress,
    GetArmMemory,
    AllocateBuffer,
    SetPhysicalDisplaySize,
    SetVirtualDisplaySize,
    SetDepth,
    SetPixelOrder,
    GetPitch,
    SetVirtualOffset,
}

impl TagIdentifier {
    /// The protocol's 32-bit code for the tag.
    pub open spec fn spec_code(self) -> u32 {
        match self {
            TagIdentifier::GetFirmwareVersion => 0x0_0001,
            TagIdentifier::GetBoardRevision => 0x1_0002,
            TagIdentifier::GetBoardMacAddress => 0x1_0003,
            TagIdentifier::GetArmMemory => 0x1_0005,
            TagIdentifier::AllocateBuffer => 0x4_0001,
            TagIdentifier::SetPhysicalDisplaySize => 0x4_8003,
            TagIdentifier::SetVirtualDisplaySize => 0x4_8004,
            TagIdentifier::SetDepth => 0x4_8005,
            TagIdentifier::SetPixelOrder => 0x4_8006,
            TagIdentifier::GetPitch => 0x4_0008,
            TagIdentifier::SetVirtualOffset => 0x4_8009,
        }
    }

    /// The tag that a code names, if any.
    pub open spec fn spec_from_code(code: u32) -> Option<TagIdentifier> {
        if code == 0x0_0001 {
            Some(TagIdentifier::GetFirmwareVersion)
        } else if code == 0x1_0002 {
            Some(TagIdentifier::GetBoardRevision)
        } else if code == 0x1_0003 {
            Some(TagIdentifier::GetBoardMacAddress)
        } else if code == 0x1_0005 {
            Some(TagIdentifier::GetArmMemory)
        } else if code == 0x4_0001 {
            Some(TagIdentifier::AllocateBuffer)
        } else if code == 0x4_8003 {
            Some(TagIdentifier::SetPhysicalDisplaySize)
        } else if code == 0x4_8004 {
            Some(TagIdentifier::SetVirtualDisplaySize)
        } else if code == 0x4_8005 {
            Some(TagIdentifier::SetDepth)
        } else if code == 0x4_8006 {
            Some(TagIdentifier::SetPixelOrder)
        } else if code == 0x4_0008 {
            Some(TagIdentifier::GetPitch)
        } else if code == 0x4_8009 {
            Some(TagIdentifier::SetVirtualOffset)
        } else {
            None
        }
    }

    /// The protocol's 32-bit code for the tag.
    #[verifier::when_used_as_spec(spec_code)]
    pub fn code(self) -> (code: u32)
        ensures
            code == self.spec_code(),
    {
        match self {
            TagIdentifier::GetFirmwareVersion => 0x0_0001,
            TagIdentifier::GetBoardRevision => 0x1_0002,
            TagIdentifier::GetBoardMacAddress => 0x1_0003,
            TagIdentifier::GetArmMemory => 0x1_0005,
            TagIdentifier::AllocateBuffer => 0x4_0001,
            TagIdentifier::SetPhysicalDisplaySize => 0x4_8003,
            TagIdentifier::SetVirtualDisplaySize => 0x4_8004,
            TagIdentifier::SetDepth => 0x4_8005,
            TagIdentifier::SetPixelOrder => 0x4_8006,
            TagIdentifier::GetPitch => 0x4_0008,
            TagIdentifier::SetVirtualOffset => 0x4_8009,
        }
    }

    /// The tag that a code names, if any.
    pub fn from_code(code: u32) -> (identifier: Option<TagIdentifier>)
        ensures
            identifier == Self::spec_from_code(code),
    {
        if code == 0x0_0001 {
            Some(TagIdentifier::GetFirmwareVersion)
        } else if code == 0x1_0002 {
            Some(TagIdentifier::GetBoardRevision)
        } else if code == 0x1_0003 {
            Some(TagIdentifier::GetBoardMacAddress)
        } else if code == 0x1_0005 {
            Some(TagIdentifier::GetArmMemory)
        } else if code == 0x4_0001 {
            Some(TagIdentifier::AllocateBuffer)
        } else if code == 0x4_8003 {
            Some(TagIdentifier::SetPhysicalDisplaySize)
        } else if code == 0x4_8004 {
            Some(TagIdentifier::SetVirtualDisplaySize)
        } else if code == 0x4_8005 {
            Some(TagIdentifier::SetDepth)
        } else if code == 0x4_8006 {
            Some(TagIdentifier::SetPixelOrder)
        } else if code == 0x4_0008 {
            Some(TagIdentifier::GetPitch)
        } else if code == 0x4_8009 {
            Some(TagIdentifier::SetVirtualOffset)
        } else {
            None
        }
    }
}

/// Every tag is found again from its code.
pub proof fn lemma_tag_code_round_trip(identifier: TagIdentifier)
    ensures
        TagIdentifier::spec_from_code(identifier.spec_code()) == Some(identifier),
{
}

/// The firmware's version number.
#[derive(Debug, Clone, Copy, Default, PartialEq, Eq)]
pub struct GetFirmwareVersionMessage {
    pub firmware_version: u32,
}

/// The board's MAC address.
#[derive(Debug, Clone, Copy, Default, PartialEq, Eq)]
pub struct GetBoardMacAddress {
    pub address: MacAddress,
}

/// The memory that belongs to the ARM cores.
#[derive(Debug, Clone, Copy, Default, PartialEq, Eq)]
pub struct GetArmMemory {
    pub base_address: u32,
    pub size: u32,
}

/// The board's revision code.
#[derive(Debug, Clone, Copy, Default, PartialEq, Eq)]
pub struct GetBoardRevision {
    pub board_revision: u32,
}

impl GetFirmwareVersionMessage {
    /// The request tag: the version is zero until the VideoCore fills it in.
    pub fn new() -> (tag: MessageTag<GetFirmwareVersionMessage>)
        ensures
            tag == (MessageTag {
                identifier: TagIdentifier::GetFirmwareVersion.spec_code(),
                value_size: 4,
                codes: 0,
                data: GetFirmwareVersionMessage { firmware_version: 0 },
            }),
    {
        MessageTag::new(
            TagIdentifier::GetFirmwareVersion,
            GetFirmwareVersionMessage { firmware_version: 0 },
        )
    }
}

impl GetBoardMacAddress {
    /// The request tag: the address is all zero until the VideoCore fills
    /// it in. Its six bytes take a value of eight.
    pub fn new() -> (tag: MessageTag<GetBoardMacAddress>)
        ensures
            tag == (MessageTag {
                identifier: TagIdentifier::GetBoardMacAddress.spec_code(),
                value_size: 8,
                codes: 0,
                data: GetBoardMacAddress { address: MacAddress::spec_zero() },
            }),
    {
        MessageTag::new(
            TagIdentifier::GetBoardMacAddress,
            GetBoardMacAddress { address: MacAddress::zero() },
        )
    }
}

impl GetArmMemory {
    /// The request tag: base and size are zero until the VideoCore fills
    /// them in.
    pub fn new() -> (tag: MessageTag<GetArmMemory>)
        ensures
            tag == (MessageTag {
                identifier: TagIdentifier::GetArmMemory.spec_code(),
                value_size: 8,
                codes: 0,
                data: GetArmMemory { base_address: 0, size: 0 },
            }),
    {
        MessageTag::new(TagIdentifier::GetArmMemory, GetArmMemory { base_address: 0, size: 0 })
    }
}

impl GetBoardRevision {
    /// The request tag: the revision is zero until the VideoCore fills it in.
    pub fn new() -> (tag: MessageTag<GetBoardRevision>)
        ensures
            tag == (MessageTag {
                identifier: TagIdentifier::GetBoardRevision.spec_code(),
                value_size: 4,
                codes: 0,
                data: GetBoardRevision { board_revision: 0 },
            }),
    {
        MessageTag::new(TagIdentifier::GetBoardRevision, GetBoardRevision { board_revision: 0 })
    }
}

impl Payload for GetFirmwareVersionMessage {
    open spec fn byte_size() -> nat {
        4
    }

    open spec fn words(&self) -> Seq<u32> {
        seq![self.firmware_version]
    }

    open spec fn from_words(words: Seq<u32>) -> Self {
        GetFirmwareVersionMessage { firmware_version: words[0] }
    }

    proof fn lemma_length(&self) {
    }

    proof fn lemma_round_trip(&self, rest: Seq<u32>) {
    }

    fn size() -> (n: u32) {
        4
    }

    fn word_len() -> (n: usize) {
        1
    }

    fn encode(&self, out: &mut Vec<u32>) {
        out.push(self.firmware_version);
    }

    fn decode(words: &[u32]) -> (value: Self) {
        GetFirmwareVersionMessage { firmware_version: words[0] }
    }
}

impl Payload for GetBoardRevision {
    open spec fn byte_size() -> nat {
        4
    }

    open spec fn words(&self) -> Seq<u32> {
        seq![self.board_revision]
    }

    open spec fn from_words(words: Seq<u32>) -> Self {
        GetBoardRevision { board_revision: words[0] }
    }

    proof fn lemma_length(&self) {
    }

    proof fn lemma_round_trip(&self, rest: Seq<u32>) {
    }

    fn size() -> (n: u32) {
        4
    }

    fn word_len() -> (n: usize) {
        1
    }

    fn encode(&self, out: &mut Vec<u32>) {
        out.push(self.board_revision);
    }

    fn decode(words: &[u32]) -> (value: Self) {
        GetBoardRevision { board_revision: words[0] }
    }
}

impl Payload for GetArmMemory {
    open spec fn byte_size() -> nat {
        8
    }

    open spec fn words(&self) -> Seq<u32> {
        seq![self.base_address, self.size]
    }

    open spec fn from_words(words: Seq<u32>) -> Self {
        GetArmMemory { base_address: words[0], size: words[1] }
    }

    proof fn lemma_length(&self) {
    }

    proof fn lemma_round_trip(&self, rest: Seq<u32>) {
    }

    fn size() -> (n: u32) {
        8
    }

    fn word_len() -> (n: usize) {
        2
    }

    fn encode(&self, out: &mut Vec<u32>) {
        out.push(self.base_address);
        out.push(self.size);
        assert(out@ =~= old(out)@ + self.words());
    }

    fn decode(words: &[u32]) -> (value: Self) {
        GetArmMemory { base_address: words[0], size: words[1] }
    }
}

impl Payload for GetBoardMacAddress {
    open spec fn byte_size() -> nat {
        6
    }

    open spec fn words(&self) -> Seq<u32> {
        self.address.words()
    }

    open spec fn from_words(words: Seq<u32>) -> Self {
        GetBoardMacAddress { address: MacAddress::from_words(words) }
    }

    proof fn lemma_length(&self) {
    }

    proof fn lemma_round_trip(&self, rest: Seq<u32>) {
        self.address.lemma_round_trip(rest);
    }

    fn size() -> (n: u32) {
        6
    }

    fn word_len() -> (n: usize) {
        2
    }

    fn encode(&self, out: &mut Vec<u32>) {
        self.address.encode(out);
    }

    fn decode(words: &[u32]) -> (value: Self) {
        GetBoardMacAddress { address: MacAddress::decode(words) }
    }
}

} // verus!
