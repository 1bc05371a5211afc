//! What is known about the board.

use crate::arch::aarch64::MainIdRegister;
use vstd::prelude::*;

verus! {

/// Represents the different Raspberry Pi board types.
#[derive(Debug, Clone, Copy, PartialEq, Eq, PartialOrd, Ord)]
pub enum BoardType {
    Pi1,
    Pi2,
    Pi3,
    Pi4,
    Unknown(u32),
}

impl BoardType {
    /// The board that a processor part number belongs to.
    pub open spec fn spec_from(part_number: u32) -> BoardType {
        if part_number == 0xB76 {
            BoardType::Pi1
        } else if part_number == 0xC07 {
            BoardType::Pi2
        } else if part_number == 0xD03 {
            BoardType::Pi3
        } else if part_number == 0xD08 {
            BoardType::Pi4
        } else {
            BoardType::Unknown(part_number)
        }
    }

    /// The board that a processor part number belongs to.
    #[verifier::when_used_as_spec(spec_from)]
    pub fn from(part_number: u32) -> (board: BoardType)
        ensures
            board == Self::spec_from(part_number),
    {
        if part_number == 0xB76 {
            BoardType::Pi1
        } else if part_number == 0xC07 {
            BoardType::Pi2
        } else if part_number == 0xD03 {
            BoardType::Pi3
        } else if part_number == 0xD08 {
            BoardType::Pi4
        } else {
            BoardType::Unknown(part_number)
        }
    }
}

/// Represents information about this Raspberry Pi.
///
/// Some of this information is inferred, and may not be accurate in
/// non-standard configurations.
#[derive(Debug, Clone, Copy, PartialEq, Eq)]
pub struct RaspberryPi {
    board_type: BoardType,
}

impl RaspberryPi {
    /// The board type.
    pub closed spec fn spec_board_type(&self) -> BoardType {
        self.board_type
    }

    /// The base address of the peripherals of a board: that of the Pi 4 for
    /// a Pi 4, that of the Pi 3 for every other board.
    pub open spec fn spec_peripheral_base_address(&self) -> usize {
        match self.board_type() {
            BoardType::Pi4 => 0xFE00_0000,
            _ => 0x3F00_0000,
        }
    }

    /// Only the Pi 3 and the Pi 4 are supported.
    pub open spec fn spec_is_supported(&self) -> bool {
        self.board_type() == BoardType::Pi3 || self.board_type() == BoardType::Pi4
    }

    /// Infers the board from the main ID register.
    pub fn new(midr: MainIdRegister) -> (board: RaspberryPi)
        ensures
            board.board_type() == BoardType::spec_from(midr.part_number),
    {
        RaspberryPi { board_type: BoardType::from(midr.part_number) }
    }

    /// Whether or not the board type is supported by the kernel.
    #[verifier::when_used_as_spec(spec_is_supported)]
    pub fn is_supported(&self) -> (supported: bool)
        ensures
            supported == self.spec_is_supported(),
    {
        match self.board_type() {
            BoardType::Pi3 | BoardType::Pi4 => true,
            _ => false,
        }
    }

    /// Returns the board type inferred from the main ID register.
    #[verifier::when_used_as_spec(spec_board_type)]
    pub fn board_type(&self) -> (board_type: BoardType)
        ensures
            board_type == self.spec_board_type(),
    {
        self.board_type
    }

    /// Returns the inferred peripheral base address for this board.
    ///
    /// Anything that is no Pi 4 gets the Pi 3's base address, in order to
    /// try and get a working UART.
    #[verifier::when_used_as_spec(spec_peripheral_base_address)]
    pub fn peripheral_base_address(&self) -> (address: usize)
        ensures
            address == self.spec_peripheral_base_address(),
    {
        match self.board_type() {
            BoardType::Pi4 => 0xFE00_0000,
            _ => 0x3F00_0000,
        }
    }
}

} // verus!
