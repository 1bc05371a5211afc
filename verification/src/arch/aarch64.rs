//! The fields of the AArch64 system registers that the boot code reads.

use vstd::prelude::*;

verus! {

/// Holds the current exception level.
#[derive(Debug, Clone, Copy, PartialEq, Eq)]
pub struct CurrentELRegister {
    /// Either 0, 1, 2 or 3.
    pub exception_level: u32,
}

impl CurrentELRegister {
    /// Takes the exception level out of the value of `CurrentEL`: the
    /// register holds it above its two lowest bits.
    pub fn from_raw(data: u32) -> (register: CurrentELRegister)
        ensures
            register.exception_level == data >> 2,
    {
        CurrentELRegister { exception_level: data >> 2 }
    }
}

/// Stores identification information for the processor.
#[derive(Debug, Clone, Copy, PartialEq, Eq)]
pub struct MainIdRegister {
    pub part_number: u32,
}

impl MainIdRegister {
    /// Takes the part number out of the value of `MIDR_EL1`: twelve bits
    /// above the four lowest.
    pub fn from_raw(data: u32) -> (register: MainIdRegister)
        ensures
            register.part_number == (data >> 4) & 0xFFF,
            register.part_number <= 0xFFF,
    {
        let part_number: u32 = (data >> 4) & 0xFFF;
        assert(part_number <= 0xFFF) by (bit_vector)
            requires
                part_number == (data >> 4) & 0xFFF,
        ;
        MainIdRegister { part_number }
    }
}

} // verus!
