use raspi_bringup::boot::{init_uart, Platform, BAUD_RATE, GREETING, RECEIVE_PIN, TRANSMIT_PIN};
use raspi_bringup::mmio::Access;
use raspi_bringup::simulator::SimulatedRegisters;

/// Everything that bringing up the console does to registers that start at
/// zero, written out one by one.
fn console_bring_up(gpio: u32, uart: u32) -> Vec<Access> {
    let mut expected: Vec<Access> = Vec::new();
    let mut selected: u32 = 0;
    for (mask, field) in [(0x0000_4000u32, 0x0000_4000u32), (0x0000_8000, 0x0002_0000)] {
        expected.push(Access::Store { address: gpio, word: 1 });
        for _ in 0..150 {
            expected.push(Access::Nop);
        }
        expected.push(Access::Store { address: gpio + 0x94, word: mask });
        for _ in 0..150 {
            expected.push(Access::Nop);
        }
        expected.push(Access::Store { address: gpio, word: 0 });
        expected.push(Access::Store { address: gpio + 0x94, word: 0 });
        expected.push(Access::Load { address: gpio + 4, word: selected });
        selected |= field;
        expected.push(Access::Store { address: gpio + 4, word: selected });
    }
    expected.push(Access::Store { address: uart + 0x30, word: 0 });
    expected.push(Access::Store { address: uart + 0x24, word: 26 });
    expected.push(Access::Store { address: uart + 0x28, word: 0 });
    expected.push(Access::Load { address: uart + 0x2C, word: 0 });
    expected.push(Access::Store { address: uart + 0x2C, word: 0x60 });
    expected.push(Access::Store { address: uart + 0x30, word: 0xC5 });
    expected.push(Access::Store { address: uart + 0x30, word: 0x301 });
    for byte in [
        0x48u32, 0x65, 0x6c, 0x6c, 0x6f, 0x2c, 0x20, 0x77, 0x6f, 0x72, 0x6c, 0x64, 0x21, 0x0a,
    ] {
        expected.push(Access::Store { address: uart, word: byte });
    }
    expected
}

#[test]
fn platform_base_addresses() {
    assert_eq!(Platform::Raspi3.gpio_base(), 0x3f20_0000);
    assert_eq!(Platform::Raspi3.uart_base(), 0x3f20_1000);
    assert_eq!(Platform::Raspi4.gpio_base(), 0xfe20_0000);
    assert_eq!(Platform::Raspi4.uart_base(), 0xfe20_1000);
}

#[test]
fn console_settings() {
    assert_eq!(TRANSMIT_PIN, 14);
    assert_eq!(RECEIVE_PIN, 15);
    assert_eq!(BAUD_RATE, 115200);
    assert_eq!(GREETING, "Hello, world!\n");
}

#[test]
fn init_uart_on_raspi3() {
    let mut regs = SimulatedRegisters::new();
    init_uart(&mut regs, Platform::Raspi3);
    assert_eq!(regs.history(), console_bring_up(0x3f20_0000, 0x3f20_1000));
    assert_eq!(regs.history().len(), 633);
}

#[test]
fn init_uart_on_raspi4() {
    let mut regs = SimulatedRegisters::new();
    init_uart(&mut regs, Platform::Raspi4);
    assert_eq!(regs.history(), console_bring_up(0xfe20_0000, 0xfe20_1000));
}

#[test]
fn init_uart_leaves_the_console_ready() {
    let mut regs = SimulatedRegisters::new();
    init_uart(&mut regs, Platform::Raspi3);
    assert_eq!(regs.peek(0x3f20_0004), 0x0002_4000);
    assert_eq!(regs.peek(0x3f20_0000), 0);
    assert_eq!(regs.peek(0x3f20_0094), 0);
    assert_eq!(regs.peek(0x3f20_1030), 0x301);
    assert_eq!(regs.peek(0x3f20_1024), 26);
    assert_eq!(regs.peek(0x3f20_102C), 0x60);
    assert_eq!(regs.peek(0x3f20_1000), 0x0a);
}
