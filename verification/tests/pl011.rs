use raspi_bringup::driver::pl011::{
    PL011Uart, CONTROL, DATA, ENABLE_PATTERN, FIFO_PATTERN, FRACTIONAL_BAUD, INTEGER_BAUD,
    LINE_8N1, LINE_CONTROL, MAX_BAUD_RATE, UART_CLOCK_HZ,
};
use raspi_bringup::mmio::{Access, RegisterFile};
use raspi_bringup::simulator::SimulatedRegisters;

const BASE: u32 = 0x3f20_1000;

/// The accesses of one initialization, written out one by one.
fn bring_up(base: u32, integer: u32, fraction: u32, line: u32) -> Vec<Access> {
    vec![
        Access::Store { address: base + 0x30, word: 0 },
        Access::Store { address: base + 0x24, word: integer },
        Access::Store { address: base + 0x28, word: fraction },
        Access::Load { address: base + 0x2C, word: line },
        Access::Store { address: base + 0x2C, word: line | 0x60 },
        Access::Store { address: base + 0x30, word: 0xC5 },
        Access::Store { address: base + 0x30, word: 0x301 },
    ]
}

#[test]
fn register_layout_is_bit_exact() {
    assert_eq!(DATA, 0x00);
    assert_eq!(INTEGER_BAUD, 0x24);
    assert_eq!(FRACTIONAL_BAUD, 0x28);
    assert_eq!(LINE_CONTROL, 0x2C);
    assert_eq!(CONTROL, 0x30);
    assert_eq!(FIFO_PATTERN, 0xC5);
    assert_eq!(ENABLE_PATTERN, 0x301);
    assert_eq!(LINE_8N1, 0x60);
    assert_eq!(UART_CLOCK_HZ, 48_000_000);
    assert_eq!(MAX_BAUD_RATE, u32::MAX / 16);
}

#[test]
fn constructing_a_uart_touches_no_register() {
    let regs = SimulatedRegisters::new();
    let uart = PL011Uart::new(BASE);
    assert_eq!(uart.base_address(), 0x3f20_1000);
    assert_eq!(regs.history(), vec![]);
}

#[test]
fn divisor_for_115200_baud_is_26() {
    let mut regs = SimulatedRegisters::new();
    PL011Uart::new(BASE).init(&mut regs, 115200);
    assert_eq!(regs.peek(BASE + 0x24), 26);
    assert_eq!(regs.history()[1], Access::Store { address: 0x3f20_1024, word: 26 });
}

#[test]
fn fraction_written_for_115200_baud_is_not_the_data_sheet_value() {
    let mut regs = SimulatedRegisters::new();
    PL011Uart::new(BASE).init(&mut regs, 115200);
    assert_eq!(regs.history()[2], Access::Store { address: 0x3f20_1028, word: 0 });

    let sixteenfold: u64 = 16 * 115200;
    let remainder: u64 = 48_000_000 % sixteenfold;
    let data_sheet: u64 = (remainder * 64 + sixteenfold / 2) / sixteenfold;
    assert_eq!(data_sheet, 3);
}

#[test]
fn init_runs_its_steps_in_order() {
    let mut regs = SimulatedRegisters::new();
    PL011Uart::new(BASE).init(&mut regs, 115200);
    assert_eq!(regs.history(), bring_up(BASE, 26, 0, 0));
    assert_eq!(regs.peek(BASE + 0x30), 0x301);
    assert_eq!(regs.peek(BASE + 0x2C), 0x60);
}

#[test]
fn init_keeps_line_control_bits_that_are_set() {
    for line in [0x0000_0000u32, 0x0000_0010, 0x0000_0060, 0x0000_009F, 0xFFFF_FFFF] {
        let mut regs = SimulatedRegisters::new();
        regs.write(BASE + 0x2C, line);
        PL011Uart::new(BASE).init(&mut regs, 115200);
        let after: u32 = regs.peek(BASE + 0x2C);
        assert_eq!(after & 0x60, 0x60);
        assert_eq!(after & !0x60, line & !0x60);
        assert_eq!(regs.history()[1..], bring_up(BASE, 26, 0, line)[..]);
    }
}

#[test]
fn init_divides_the_clock_by_sixteen_times_the_baud_rate() {
    for (baud_rate, integer, fraction) in [
        (1u32, 0xC6C0u32, 0x2Du32),
        (45, 1130, 1),
        (46, 65217, 0),
        (300, 10000, 0),
        (9600, 312, 0),
        (115200, 26, 0),
        (3_000_000, 1, 0),
        (3_000_001, 0, 0),
        (0x0FFF_FFFF, 0, 0),
    ] {
        let mut regs = SimulatedRegisters::new();
        PL011Uart::new(BASE).init(&mut regs, baud_rate);
        assert_eq!(regs.history(), bring_up(BASE, integer, fraction, 0));
        let divisor: u32 = 48_000_000 / (16 * baud_rate);
        assert_eq!(divisor, fraction * 0x1_0000 + integer);
    }
}

#[test]
fn init_respects_the_register_block() {
    let mut regs = SimulatedRegisters::new();
    PL011Uart::new(0xfe20_1000).init(&mut regs, 9600);
    assert_eq!(regs.history(), bring_up(0xfe20_1000, 312, 0, 0));
}

#[test]
fn init_works_at_the_top_of_the_address_space() {
    let mut regs = SimulatedRegisters::new();
    PL011Uart::new(0xFFFF_FFCF).init(&mut regs, 115200);
    assert_eq!(regs.peek(0xFFFF_FFFF), 0x301);
    assert_eq!(regs.history()[0], Access::Store { address: 0xFFFF_FFFF, word: 0 });
}

#[test]
fn init_twice_ends_enabled() {
    let mut regs = SimulatedRegisters::new();
    let uart = PL011Uart::new(BASE);
    uart.init(&mut regs, 115200);
    uart.init(&mut regs, 9600);
    let mut expected: Vec<Access> = bring_up(BASE, 26, 0, 0);
    expected.extend(bring_up(BASE, 312, 0, 0x60));
    assert_eq!(regs.history(), expected);
    assert_eq!(regs.peek(BASE + 0x30), 0x301);
}

#[test]
fn write_byte_stores_to_the_data_register() {
    let mut regs = SimulatedRegisters::new();
    let mut uart = PL011Uart::new(BASE);
    uart.init(&mut regs, 115200);
    uart.write_byte(&mut regs, 0x41);
    uart.write_byte(&mut regs, 0xFF);
    let history: Vec<Access> = regs.history();
    assert_eq!(history.len(), 9);
    assert_eq!(history[7], Access::Store { address: 0x3f20_1000, word: 0x41 });
    assert_eq!(history[8], Access::Store { address: 0x3f20_1000, word: 0xFF });
    assert_eq!(regs.peek(BASE + 0x30), 0x301);
}

#[test]
fn init_then_two_bytes_of_text() {
    let mut regs = SimulatedRegisters::new();
    let mut uart = PL011Uart::new(BASE);
    uart.init(&mut regs, 115200);
    uart.write_str(&mut regs, "Hi");
    assert_eq!(
        regs.history(),
        vec![
            Access::Store { address: 0x3f20_1030, word: 0 },
            Access::Store { address: 0x3f20_1024, word: 26 },
            Access::Store { address: 0x3f20_1028, word: 0 },
            Access::Load { address: 0x3f20_102C, word: 0 },
            Access::Store { address: 0x3f20_102C, word: 0x60 },
            Access::Store { address: 0x3f20_1030, word: 0xC5 },
            Access::Store { address: 0x3f20_1030, word: 0x301 },
            Access::Store { address: 0x3f20_1000, word: 0x48 },
            Access::Store { address: 0x3f20_1000, word: 0x69 },
        ]
    );
}

#[test]
fn write_str_sends_every_byte_in_order() {
    let mut regs = SimulatedRegisters::new();
    let mut uart = PL011Uart::new(BASE);
    uart.init(&mut regs, 115200);
    let text = "Hello, UART!\r\n";
    uart.write_str(&mut regs, text);
    let sent: Vec<Access> = regs.history()[7..].to_vec();
    let expected: Vec<Access> =
        text.bytes().map(|byte| Access::Store { address: BASE, word: byte as u32 }).collect();
    assert_eq!(sent, expected);
}

#[test]
fn write_str_sends_the_bytes_of_wide_characters() {
    let mut regs = SimulatedRegisters::new();
    let mut uart = PL011Uart::new(BASE);
    uart.init(&mut regs, 115200);
    uart.write_str(&mut regs, "\u{e9}\u{20ac}");
    assert_eq!(
        regs.history()[7..],
        [
            Access::Store { address: BASE, word: 0xC3 },
            Access::Store { address: BASE, word: 0xA9 },
            Access::Store { address: BASE, word: 0xE2 },
            Access::Store { address: BASE, word: 0x82 },
            Access::Store { address: BASE, word: 0xAC },
        ]
    );
}

#[test]
fn write_str_of_nothing_touches_no_register() {
    let mut regs = SimulatedRegisters::new();
    let mut uart = PL011Uart::new(BASE);
    uart.init(&mut regs, 115200);
    uart.write_str(&mut regs, "");
    assert_eq!(regs.history().len(), 7);
}
