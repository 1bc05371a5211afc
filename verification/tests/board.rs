use angeldust::arch::aarch64::{CurrentELRegister, MainIdRegister};
use angeldust::console::console_bytes;
use angeldust::cpu::{BoardType, RaspberryPi};
use angeldust::mac::{hex_digit, MacAddress};
use angeldust::uart::{RegisterWrite, Registers, Uart};

#[test]
fn exception_level_lies_above_two_bits() {
    assert_eq!(CurrentELRegister::from_raw(0b0100).exception_level, 1);
    assert_eq!(CurrentELRegister::from_raw(0b1000).exception_level, 2);
    assert_eq!(CurrentELRegister::from_raw(0b1111).exception_level, 3);
    assert_eq!(CurrentELRegister::from_raw(0).exception_level, 0);
}

#[test]
fn part_number_is_twelve_bits() {
    assert_eq!(MainIdRegister::from_raw(0x410F_D034).part_number, 0xD03);
    assert_eq!(MainIdRegister::from_raw(0x410F_D083).part_number, 0xD08);
    assert_eq!(MainIdRegister::from_raw(0xFFFF_FFFF).part_number, 0xFFF);
}

#[test]
fn boards_by_part_number() {
    assert_eq!(BoardType::from(0xB76), BoardType::Pi1);
    assert_eq!(BoardType::from(0xC07), BoardType::Pi2);
    assert_eq!(BoardType::from(0xD03), BoardType::Pi3);
    assert_eq!(BoardType::from(0xD08), BoardType::Pi4);
    assert_eq!(BoardType::from(0xD0B), BoardType::Unknown(0xD0B));
    assert_eq!(BoardType::from(0), BoardType::Unknown(0));
}

#[test]
fn only_pi3_and_pi4_are_supported() {
    let supported: Vec<bool> = [0xB76, 0xC07, 0xD03, 0xD08, 0x1]
        .iter()
        .map(|part| RaspberryPi::new(MainIdRegister { part_number: *part }).is_supported())
        .collect();
    assert_eq!(supported, vec![false, false, true, true, false]);
}

#[test]
fn peripheral_base_addresses() {
    let pi4 = RaspberryPi::new(MainIdRegister::from_raw(0x410F_D083));
    assert_eq!(pi4.board_type(), BoardType::Pi4);
    assert_eq!(pi4.peripheral_base_address(), 0xFE00_0000);
    let pi3 = RaspberryPi::new(MainIdRegister::from_raw(0x410F_D034));
    assert_eq!(pi3.board_type(), BoardType::Pi3);
    assert_eq!(pi3.peripheral_base_address(), 0x3F00_0000);
    let other = RaspberryPi::new(MainIdRegister { part_number: 0xB76 });
    assert_eq!(other.peripheral_base_address(), 0x3F00_0000);
}

#[test]
fn uart_registers() {
    let registers = Registers::new(0x3F20_1000);
    assert_eq!(registers.data, 0x3F20_1000);
    assert_eq!(registers.flag, 0x3F20_1018);
    assert_eq!(registers.line_control, 0x3F20_102C);
    assert_eq!(registers.control, 0x3F20_1030);
    let uart = Uart::new(&RaspberryPi::new(MainIdRegister { part_number: 0xD08 }));
    assert_eq!(uart.registers(), Registers::new(0xFE20_1000));
}

#[test]
fn uart_is_set_up_in_four_stores() {
    let uart = Uart::new(&RaspberryPi::new(MainIdRegister { part_number: 0xD03 }));
    assert_eq!(
        uart.initialize(),
        vec![
            RegisterWrite { register: 0x3F20_1030, value: 0 },
            RegisterWrite { register: 0x3F20_102C, value: 0 },
            RegisterWrite { register: 0x3F20_102C, value: 0x70 },
            RegisterWrite { register: 0x3F20_1030, value: 0x301 },
        ]
    );
}

#[test]
fn uart_waits_while_the_fifo_is_full() {
    let uart = Uart::new(&RaspberryPi::new(MainIdRegister { part_number: 0xD03 }));
    assert_eq!(uart.write(b'A', 0x20), None);
    assert_eq!(uart.write(b'A', 0xFF), None);
    assert_eq!(uart.write(b'A', 0x40), Some(RegisterWrite { register: 0x3F20_1000, value: 65 }));
    assert_eq!(uart.write(0xFF, 0), Some(RegisterWrite { register: 0x3F20_1000, value: 255 }));
}

#[test]
fn console_sends_a_carriage_return_before_a_line_feed() {
    assert_eq!(console_bytes(""), Vec::<u8>::new());
    assert_eq!(console_bytes("ab"), vec![b'a', b'b']);
    assert_eq!(console_bytes("a\nb\n"), vec![b'a', b'\r', b'\n', b'b', b'\r', b'\n']);
    assert_eq!(console_bytes("\r\n"), vec![b'\r', b'\r', b'\n']);
}

#[test]
fn console_sends_the_low_byte_of_a_character() {
    assert_eq!(console_bytes("\u{e9}"), vec![0xE9]);
    assert_eq!(console_bytes("\u{20ac}"), vec![0xAC]);
    assert_eq!(console_bytes("\u{10a}"), vec![0x0A]);
}

#[test]
fn hex_digits() {
    let digits: String = (0u8..16).map(hex_digit).collect();
    assert_eq!(digits, "0123456789ABCDEF");
}

#[test]
fn mac_address_text() {
    assert_eq!(MacAddress([0xB8, 0x27, 0xEB, 0x12, 0x34, 0x56]).to_text(), "B8:27:EB:12:34:56");
    assert_eq!(MacAddress([0x00, 0x0A, 0xA0, 0xFF, 0x10, 0x01]).to_text(), "00:0A:A0:FF:10:01");
}

#[test]
fn mac_address_text_without_colon_after_bytes_equal_to_the_last() {
    assert_eq!(MacAddress([0; 6]).to_text(), "000000000000");
    assert_eq!(MacAddress([0x56, 0x27, 0x56, 0x12, 0x34, 0x56]).to_text(), "5627:5612:34:56");
    assert_eq!(MacAddress::default().to_text(), "000000000000");
}
