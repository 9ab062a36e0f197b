//! Bring-up of the diagnostic console: the two UART pins are handed to the
//! UART, the UART is initialized, and a greeting goes out.
use crate::driver::gpio::{
    function_select_accesses, pull_accesses, GPIOFunc, GPIOPin, PullUpDown,
};
use crate::driver::pl011::{init_accesses, initialized, text_accesses, PL011Uart};
use crate::mmio::{word_of, Access, RegisterFile};
use vstd::prelude::*;
use vstd::string::StringSliceAdditionalSpecFns;

verus! {

/// The boards whose register layout is known.
#[derive(Clone, Copy, Debug, PartialEq, Eq)]
pub enum Platform {
    /// Raspberry Pi 3: peripherals from `0x3f00_0000`.
    Raspi3,
    /// Raspberry Pi 4: peripherals from `0xfe00_0000`.
    Raspi4,
}

impl Platform {
    /// Where the GPIO register block starts.
    pub open spec fn spec_gpio_base(self) -> u32 {
        match self {
            Platform::Raspi3 => 0x3f20_0000,
            Platform::Raspi4 => 0xfe20_0000,
        }
    }

    /// Where the GPIO register block starts.
    #[verifier::when_used_as_spec(spec_gpio_base)]
    pub fn gpio_base(self) -> (base: u32)
        ensures
            base == self.spec_gpio_base(),
    {
        match self {
            Platform::Raspi3 => 0x3f20_0000,
            Platform::Raspi4 => 0xfe20_0000,
        }
    }

    /// Where the UART register block starts.
    pub open spec fn spec_uart_base(self) -> u32 {
        match self {
            Platform::Raspi3 => 0x3f20_1000,
            Platform::Raspi4 => 0xfe20_1000,
        }
    }

    /// Where the UART register block starts.
    #[verifier::when_used_as_spec(spec_uart_base)]
    pub fn uart_base(self) -> (base: u32)
        ensures
            base == self.spec_uart_base(),
    {
        match self {
            Platform::Raspi3 => 0x3f20_1000,
            Platform::Raspi4 => 0xfe20_1000,
        }
    }
}

/// The pin that carries the UART's transmit line.
pub const TRANSMIT_PIN: u32 = 14;

/// The pin that carries the UART's receive line.
pub const RECEIVE_PIN: u32 = 15;

/// The baud rate of the console.
pub const BAUD_RATE: u32 = 115200;

/// What the console says first.
pub const GREETING: &'static str = "Hello, world!\n";

/// What `init_uart` does on the bus, when the loads of the two pins'
/// function-select registers return `seen_transmit` and `seen_receive` and the
/// load of the line-control register returns `line`.
pub open spec fn init_uart_accesses(
    platform: Platform,
    seen_transmit: u32,
    seen_receive: u32,
    line: u32,
) -> Seq<Access> {
    let gpio = platform.gpio_base();
    let uart = platform.uart_base();
    pull_accesses(gpio, TRANSMIT_PIN, PullUpDown::PullDown)
        + function_select_accesses(gpio, TRANSMIT_PIN, GPIOFunc::ALT0, seen_transmit)
        + pull_accesses(gpio, RECEIVE_PIN, PullUpDown::PullDown)
        + function_select_accesses(gpio, RECEIVE_PIN, GPIOFunc::ALT0, seen_receive)
        + init_accesses(uart, BAUD_RATE, line)
        + text_accesses(uart, GREETING.spec_bytes())
}

/// Brings up the console of `platform`: each of the two UART pins is pulled
/// down and handed to its first alternate function, the transmit pin first;
/// then the UART is initialized at [`BAUD_RATE`] and sends [`GREETING`].
pub fn init_uart<R: RegisterFile>(regs: &mut R, platform: Platform)
    ensures
        exists|seen_transmit: u32, seen_receive: u32, line: u32|
            final(regs).accesses() == old(regs).accesses() + init_uart_accesses(
                platform,
                seen_transmit,
                seen_receive,
                line,
            ),
        initialized(platform.uart_base(), final(regs).accesses()),
{
    let pin14 = GPIOPin::at(platform.gpio_base(), TRANSMIT_PIN);
    pin14.set_pull_up_down(regs, PullUpDown::PullDown);
    let ghost pulled14 = regs.accesses();
    pin14.set_function(regs, GPIOFunc::ALT0);
    let ghost seen_transmit = word_of(regs.accesses(), pulled14.len());

    let pin15 = GPIOPin::at(platform.gpio_base(), RECEIVE_PIN);
    pin15.set_pull_up_down(regs, PullUpDown::PullDown);
    let ghost pulled15 = regs.accesses();
    pin15.set_function(regs, GPIOFunc::ALT0);
    let ghost seen_receive = word_of(regs.accesses(), pulled15.len());

    let mut pl011 = PL011Uart::new(platform.uart_base());
    let ghost selected = regs.accesses();
    pl011.init(regs, BAUD_RATE);
    let ghost line = word_of(regs.accesses(), selected.len() + 3);

    pl011.write_str(regs, GREETING);
    assert(regs.accesses() =~= old(regs).accesses() + init_uart_accesses(
        platform,
        seen_transmit,
        seen_receive,
        line,
    ));
}

/// The greeting, byte by byte.
pub proof fn lemma_greeting_bytes()
    ensures
        GREETING.spec_bytes() == seq![
            0x48u8,
            0x65,
            0x6c,
            0x6c,
            0x6f,
            0x2c,
            0x20,
            0x77,
            0x6f,
            0x72,
            0x6c,
            0x64,
            0x21,
            0x0a,
        ],
{
    broadcast use vstd::string::is_ascii_spec_bytes;

    reveal_strlit("Hello, world!\n");
    assert(vstd::string::is_ascii(GREETING));
    assert(GREETING.spec_bytes() =~= seq![
        0x48u8,
        0x65,
        0x6c,
        0x6c,
        0x6f,
        0x2c,
        0x20,
        0x77,
        0x6f,
        0x72,
        0x6c,
        0x64,
        0x21,
        0x0a,
    ]);
}

} // verus!
