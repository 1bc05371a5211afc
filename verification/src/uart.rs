//! The PL011 UART that carries the console.
//!
//! Nothing here touches the device: the functions give the stores that the
//! caller performs.

use crate::cpu::RaspberryPi;
use vstd::prelude::*;

verus! {

/// The bit of the flag register that says that the transmit FIFO is full.
pub const TRANSMIT_FIFO_FULL: u32 = 0x20;

/// The bit of the line control register that enables the FIFOs.
pub const ENABLE_FIFO: u32 = 0x10;

/// The bits of the line control register for words of eight bits.
pub const WORD_LENGTH_EIGHT: u32 = 0x60;

/// The bit of the control register that enables the UART.
pub const UART_ENABLE: u32 = 0x1;

/// The bit of the control register that enables transmission.
pub const TRANSMIT_ENABLE: u32 = 0x100;

/// The bit of the control register that enables reception.
pub const RECEIVE_ENABLE: u32 = 0x200;

/// The addresses of the registers of the UART that are used.
#[derive(Debug, Clone, Copy, PartialEq, Eq)]
pub struct Registers {
    pub data: usize,
    pub flag: usize,
    pub line_control: usize,
    pub control: usize,
}

/// One store to a register of the device.
#[derive(Debug, Clone, Copy, PartialEq, Eq)]
pub struct RegisterWrite {
    pub register: usize,
    pub value: u32,
}

impl Registers {
    /// The registers of a UART at `uart_base`.
    pub open spec fn spec_new(uart_base: usize) -> Registers {
        Registers {
            data: uart_base,
            flag: (uart_base + 0x18) as usize,
            line_control: (uart_base + 0x2C) as usize,
            control: (uart_base + 0x30) as usize,
        }
    }

    /// The registers of a UART at `uart_base`.
    pub fn new(uart_base: usize) -> (registers: Registers)
        requires
            uart_base + 0x30 <= usize::MAX,
        ensures
            registers == Self::spec_new(uart_base),
            registers.data == uart_base,
            registers.flag == uart_base + 0x18,
            registers.line_control == uart_base + 0x2C,
            registers.control == uart_base + 0x30,
    {
        Registers {
            data: uart_base,
            flag: uart_base + 0x18,
            line_control: uart_base + 0x2C,
            control: uart_base + 0x30,
        }
    }
}

/// The UART of the board.
#[derive(Debug, Clone, Copy, PartialEq, Eq)]
pub struct Uart {
    registers: Registers,
}

impl Uart {
    /// The registers of this UART.
    pub closed spec fn spec_registers(&self) -> Registers {
        self.registers
    }

    /// The stores that set the UART up, in their order: the UART is
    /// disabled, the transmit FIFO is flushed by disabling the FIFOs, the
    /// line control is set to words of eight bits with the FIFOs enabled,
    /// and the UART is enabled with transmission and reception.
    pub open spec fn spec_initialize(&self) -> Seq<RegisterWrite> {
        seq![
            RegisterWrite { register: self.registers().control, value: 0 },
            RegisterWrite { register: self.registers().line_control, value: 0 },
            RegisterWrite { register: self.registers().line_control, value: 0x70 },
            RegisterWrite { register: self.registers().control, value: 0x301 },
        ]
    }

    /// What to do with a byte when the flag register holds `flag`: nothing
    /// while the transmit FIFO is full, else the store of the byte to the
    /// data register.
    pub open spec fn spec_write(&self, byte: u8, flag: u32) -> Option<RegisterWrite> {
        if flag & TRANSMIT_FIFO_FULL == TRANSMIT_FIFO_FULL {
            None
        } else {
            Some(RegisterWrite { register: self.registers().data, value: byte as u32 })
        }
    }

    /// Creates the UART of a board: its registers lie 0x201000 bytes above
    /// the base of the peripherals.
    pub fn new(board: &RaspberryPi) -> (uart: Uart)
        ensures
            uart.registers() == Registers::spec_new(
                (board.spec_peripheral_base_address() + 0x201000) as usize,
            ),
    {
        let base_address: usize = board.peripheral_base_address() + 0x201000;
        Uart { registers: Registers::new(base_address) }
    }

    /// The registers of this UART.
    #[verifier::when_used_as_spec(spec_registers)]
    pub fn registers(&self) -> (registers: Registers)
        ensures
            registers == self.spec_registers(),
    {
        self.registers
    }

    /// The stores that initialize the UART: it is disabled, its options are
    /// set, and it is enabled again.
    pub fn initialize(&self) -> (writes: Vec<RegisterWrite>)
        ensures
            writes@ == self.spec_initialize(),
    {
        let line_control: u32 = ENABLE_FIFO | WORD_LENGTH_EIGHT;
        let control: u32 = UART_ENABLE | RECEIVE_ENABLE | TRANSMIT_ENABLE;
        assert(0x10u32 | 0x60u32 == 0x70u32) by (bit_vector);
        assert(0x1u32 | 0x200u32 | 0x100u32 == 0x301u32) by (bit_vector);
        let mut writes: Vec<RegisterWrite> = Vec::new();
        writes.push(RegisterWrite { register: self.registers.control, value: 0 });
        writes.push(RegisterWrite { register: self.registers.line_control, value: 0 });
        writes.push(RegisterWrite { register: self.registers.line_control, value: line_control });
        writes.push(RegisterWrite { register: self.registers.control, value: control });
        assert(writes@ =~= self.spec_initialize());
        writes
    }

    /// Decides on one byte with the value of the flag register: `None`
    /// while the transmit FIFO is full, so that the caller polls again,
    /// else the store that sends the byte.
    pub fn write(&self, byte: u8, flag: u32) -> (store: Option<RegisterWrite>)
        ensures
            store == self.spec_write(byte, flag),
    {
        if flag & TRANSMIT_FIFO_FULL == TRANSMIT_FIFO_FULL {
            None
        } else {
            Some(RegisterWrite { register: self.registers.data, value: byte as u32 })
        }
    }
}

} // verus!
