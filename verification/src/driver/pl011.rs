//! The PL011 UART, as a transmitter of diagnostic text.
//!
//! A [`PL011Uart`] is a plain value naming one register block. Whether the
//! transmitter is ready is a fact about the registers, not about the value:
//! it is ready once the last word stored to its control register is
//! [`ENABLE_PATTERN`], which is how [`PL011Uart::init`] leaves it.
//!
//! Nothing here waits for room in the transmit FIFO, and nothing tells when a
//! byte has left the line.
use crate::mmio::{
    image_after, lemma_image_after_push, loads_agree, word_at, word_of, Access, RegisterFile,
};
use vstd::prelude::*;
use vstd::string::StringSliceAdditionalSpecFns;

verus! {

/// Offset of the data register.
pub const DATA: u32 = 0x00;

/// Offset of the integer baud-rate divisor register.
pub const INTEGER_BAUD: u32 = 0x24;

/// Offset of the fractional baud-rate divisor register.
pub const FRACTIONAL_BAUD: u32 = 0x28;

/// Offset of the line-control register.
pub const LINE_CONTROL: u32 = 0x2C;

/// Offset of the control register.
pub const CONTROL: u32 = 0x30;

/// The frequency of the clock that feeds the UART, in hertz.
pub const UART_CLOCK_HZ: u32 = 48_000_000;

/// The highest baud rate whose sixteenfold still fits a word.
pub const MAX_BAUD_RATE: u32 = 0x0FFF_FFFF;

/// The line-control bits for 8 data bits, no parity, 1 stop bit.
pub const LINE_8N1: u32 = 0x60;

/// The control word of the FIFO-enable phase.
pub const FIFO_PATTERN: u32 = 0xC5;

/// The control word that enables the UART together with its transmitter and
/// its receiver.
pub const ENABLE_PATTERN: u32 = 0x301;

/// The baud-rate divisor for `baud_rate`: the UART clock divided by sixteen
/// times the baud rate, rounded down.
pub open spec fn baud_divisor(baud_rate: u32) -> u32 {
    (UART_CLOCK_HZ as int / (16 * baud_rate)) as u32
}

/// The part of `divisor` that goes to the integer baud-rate register: its low
/// sixteen bits.
pub open spec fn integer_part(divisor: u32) -> u32 {
    divisor % 0x1_0000
}

/// The part of `divisor` that goes to the fractional baud-rate register: what
/// is left above its low sixteen bits.
pub open spec fn remainder_part(divisor: u32) -> u32 {
    divisor / 0x1_0000
}

/// `line` with the 8N1 bits set and every other bit as it was.
pub open spec fn with_8n1(line: u32) -> u32 {
    line | LINE_8N1
}

/// The address of the register at `offset` in the block that starts at `base`.
pub open spec fn register(base: u32, offset: u32) -> u32 {
    (base + offset) as u32
}

/// Whether `accesses` leave the transmitter of the block at `base` ready: the
/// last word stored to its control register is the enable pattern.
pub open spec fn initialized(base: u32, accesses: Seq<Access>) -> bool {
    word_at(image_after(Map::empty(), accesses), register(base, CONTROL)) == ENABLE_PATTERN
}

/// What bringing up the block at `base` at `baud_rate` does on the bus when
/// the load of the line-control register returns `line`.
pub open spec fn init_accesses(base: u32, baud_rate: u32, line: u32) -> Seq<Access> {
    seq![
        Access::Store { address: register(base, CONTROL), word: 0 },
        Access::Store {
            address: register(base, INTEGER_BAUD),
            word: integer_part(baud_divisor(baud_rate)),
        },
        Access::Store {
            address: register(base, FRACTIONAL_BAUD),
            word: remainder_part(baud_divisor(baud_rate)),
        },
        Access::Load { address: register(base, LINE_CONTROL), word: line },
        Access::Store { address: register(base, LINE_CONTROL), word: with_8n1(line) },
        Access::Store { address: register(base, CONTROL), word: FIFO_PATTERN },
        Access::Store { address: register(base, CONTROL), word: ENABLE_PATTERN },
    ]
}

/// What transmitting `bytes` through the block at `base` does on the bus: one
/// store to the data register for each byte, in order.
pub open spec fn text_accesses(base: u32, bytes: Seq<u8>) -> Seq<Access> {
    Seq::new(
        bytes.len(),
        |i: int| Access::Store { address: register(base, DATA), word: bytes[i] as u32 },
    )
}

/// Merging the 8N1 bits sets bits 5 and 6 and keeps every other bit as it was.
pub proof fn lemma_with_8n1(line: u32)
    by (bit_vector)
    ensures
        with_8n1(line) & 0x60 == 0x60,
        with_8n1(line) & !0x60u32 == line & !0x60u32,
        with_8n1(with_8n1(line)) == with_8n1(line),
{
}

/// The two parts of a divisor make up the divisor.
pub proof fn lemma_divisor_parts(divisor: u32)
    ensures
        divisor == remainder_part(divisor) * 0x1_0000 + integer_part(divisor),
        integer_part(divisor) < 0x1_0000,
{
}

/// On a register file whose loads return what was stored, bringing up the
/// UART leaves the enable pattern in the control register, the two parts of
/// the divisor in the baud-rate registers, and the line-control register with
/// the 8N1 bits set and every other bit as it was. No other register changes.
pub proof fn lemma_init_on_memory(base: u32, baud_rate: u32, image: Map<u32, u32>, line: u32)
    requires
        base <= u32::MAX - CONTROL,
        loads_agree(image, init_accesses(base, baud_rate, line)),
    ensures
        line == word_at(image, register(base, LINE_CONTROL)),
        image_after(image, init_accesses(base, baud_rate, line)) == image.insert(
            register(base, INTEGER_BAUD),
            integer_part(baud_divisor(baud_rate)),
        ).insert(register(base, FRACTIONAL_BAUD), remainder_part(baud_divisor(baud_rate))).insert(
            register(base, LINE_CONTROL),
            with_8n1(word_at(image, register(base, LINE_CONTROL))),
        ).insert(register(base, CONTROL), ENABLE_PATTERN),
{
    let steps = init_accesses(base, baud_rate, line);
    assert(steps =~= Seq::<Access>::empty().push(steps[0]).push(steps[1]).push(steps[2]).push(
        steps[3],
    ).push(steps[4]).push(steps[5]).push(steps[6]));
    let done0 = Seq::<Access>::empty();
    let done1 = done0.push(steps[0]);
    let done2 = done1.push(steps[1]);
    let done3 = done2.push(steps[2]);
    let done4 = done3.push(steps[3]);
    let done5 = done4.push(steps[4]);
    let done6 = done5.push(steps[5]);
    lemma_image_after_push(image, done0, steps[0]);
    lemma_image_after_push(image, done1, steps[1]);
    lemma_image_after_push(image, done2, steps[2]);
    lemma_image_after_push(image, done3, steps[3]);
    lemma_image_after_push(image, done4, steps[4]);
    lemma_image_after_push(image, done5, steps[5]);
    lemma_image_after_push(image, done6, steps[6]);
    assert(image_after(image, steps) =~= image.insert(
        register(base, INTEGER_BAUD),
        integer_part(baud_divisor(baud_rate)),
    ).insert(register(base, FRACTIONAL_BAUD), remainder_part(baud_divisor(baud_rate))).insert(
        register(base, LINE_CONTROL),
        with_8n1(word_at(image, register(base, LINE_CONTROL))),
    ).insert(register(base, CONTROL), ENABLE_PATTERN));
}

/// One PL011 register block.
pub struct PL011Uart {
    base_address: u32,
}

impl PL011Uart {
    /// Where the register block starts.
    pub closed spec fn base(&self) -> u32 {
        self.base_address
    }

    /// Every register address of the block fits the address space.
    #[verifier::type_invariant]
    pub open spec fn wf(&self) -> bool {
        self.base() <= u32::MAX - CONTROL
    }

    /// The UART whose register block starts at `base_address`. Touches no
    /// hardware.
    pub fn new(base_address: u32) -> (uart: PL011Uart)
        requires
            base_address <= u32::MAX - CONTROL,
        ensures
            uart.wf(),
            uart.base() == base_address,
    {
        PL011Uart { base_address }
    }

    /// Where the register block starts.
    pub fn base_address(&self) -> (base: u32)
        ensures
            base == self.base(),
    {
        self.base_address
    }

    /// Brings the transmitter up at `baud_rate`, in this order: the UART is
    /// switched off; the divisor goes to the two baud-rate registers; the 8N1
    /// bits are merged into the line-control register; the FIFO phase and then
    /// the enable pattern go to the control register. Nothing is read back to
    /// check.
    pub fn init<R: RegisterFile>(&self, regs: &mut R, baud_rate: u32)
        requires
            0 < baud_rate <= MAX_BAUD_RATE,
        ensures
            final(regs).accesses() == old(regs).accesses() + init_accesses(
                self.base(),
                baud_rate,
                word_of(final(regs).accesses(), old(regs).accesses().len() + 3),
            ),
            initialized(self.base(), final(regs).accesses()),
    {
        self.disable_uart(regs);

        let uartclk: u32 = UART_CLOCK_HZ;
        let divisor: u32 = uartclk / (16 * baud_rate);
        self.set_baud_rate(regs, divisor);

        self.set_line_control(regs);

        self.enable_fifo(regs);

        let ghost before_enable = regs.accesses();
        self.enable_uart(regs);
        proof {
            let line = word_of(regs.accesses(), old(regs).accesses().len() + 3);
            assert(regs.accesses() =~= old(regs).accesses() + init_accesses(
                self.base(),
                baud_rate,
                line,
            ));
            lemma_image_after_push(
                Map::empty(),
                before_enable,
                Access::Store { address: register(self.base(), CONTROL), word: ENABLE_PATTERN },
            );
        }
    }

    /// Loads the register at `offset`.
    fn read_register<R: RegisterFile>(&self, regs: &mut R, offset: u32) -> (word: u32)
        requires
            self.base() + offset <= u32::MAX,
        ensures
            final(regs).accesses() == old(regs).accesses().push(
                Access::Load { address: register(self.base(), offset), word },
            ),
    {
        regs.read(self.base_address + offset)
    }

    /// Stores `value` to the register at `offset`.
    fn write_register<R: RegisterFile>(&self, regs: &mut R, offset: u32, value: u32)
        requires
            self.base() + offset <= u32::MAX,
        ensures
            final(regs).accesses() == old(regs).accesses().push(
                Access::Store { address: register(self.base(), offset), word: value },
            ),
    {
        regs.write(self.base_address + offset, value)
    }

    /// Switches the UART off, so that nothing glitches while it is
    /// reprogrammed.
    fn disable_uart<R: RegisterFile>(&self, regs: &mut R)
        ensures
            final(regs).accesses() == old(regs).accesses().push(
                Access::Store { address: register(self.base(), CONTROL), word: 0 },
            ),
    {
        proof {
            use_type_invariant(self);
        }
        self.write_register(regs, CONTROL, 0);
    }

    /// Programs `divisor`: its low sixteen bits go to the integer register,
    /// the bits above them to the fractional register.
    ///
    /// The PL011 data sheet puts something else into the fractional register:
    /// the remainder of the division, in sixty-fourths and rounded. At 115200
    /// baud that would be 3, where this writes 0, so the line runs about 0.16%
    /// fast.
    fn set_baud_rate<R: RegisterFile>(&self, regs: &mut R, divisor: u32)
        ensures
            final(regs).accesses() == old(regs).accesses().push(
                Access::Store {
                    address: register(self.base(), INTEGER_BAUD),
                    word: integer_part(divisor),
                },
            ).push(
                Access::Store {
                    address: register(self.base(), FRACTIONAL_BAUD),
                    word: remainder_part(divisor),
                },
            ),
    {
        proof {
            use_type_invariant(self);
        }
        assert(divisor & 0xFFFF == divisor % 0x1_0000) by (bit_vector);
        assert(divisor >> 16 == divisor / 0x1_0000) by (bit_vector);
        self.write_register(regs, INTEGER_BAUD, divisor & 0xFFFF);
        self.write_register(regs, FRACTIONAL_BAUD, divisor >> 16);
    }

    /// Selects 8 data bits, no parity, 1 stop bit, and keeps every
    /// line-control bit that is already set.
    fn set_line_control<R: RegisterFile>(&self, regs: &mut R)
        ensures
            final(regs).accesses() == old(regs).accesses().push(
                Access::Load {
                    address: register(self.base(), LINE_CONTROL),
                    word: word_of(final(regs).accesses(), old(regs).accesses().len()),
                },
            ).push(
                Access::Store {
                    address: register(self.base(), LINE_CONTROL),
                    word: with_8n1(word_of(final(regs).accesses(), old(regs).accesses().len())),
                },
            ),
    {
        proof {
            use_type_invariant(self);
        }
        let lcr_h: u32 = self.read_register(regs, LINE_CONTROL);
        self.write_register(regs, LINE_CONTROL, lcr_h | LINE_8N1);
    }

    /// The FIFO-enable phase.
    fn enable_fifo<R: RegisterFile>(&self, regs: &mut R)
        ensures
            final(regs).accesses() == old(regs).accesses().push(
                Access::Store { address: register(self.base(), CONTROL), word: FIFO_PATTERN },
            ),
    {
        proof {
            use_type_invariant(self);
        }
        self.write_register(regs, CONTROL, FIFO_PATTERN);
    }

    /// Switches on the UART, its transmitter and its receiver together.
    fn enable_uart<R: RegisterFile>(&self, regs: &mut R)
        ensures
            final(regs).accesses() == old(regs).accesses().push(
                Access::Store { address: register(self.base(), CONTROL), word: ENABLE_PATTERN },
            ),
    {
        proof {
            use_type_invariant(self);
        }
        self.write_register(regs, CONTROL, ENABLE_PATTERN);
    }

    /// Submits the bytes of `s` to the data register, one by one and in order.
    /// When this returns, nothing need have left the line yet.
    pub fn write_str<R: RegisterFile>(&mut self, regs: &mut R, s: &str)
        requires
            initialized(old(self).base(), old(regs).accesses()),
        ensures
            *final(self) == *old(self),
            final(regs).accesses() == old(regs).accesses() + text_accesses(
                old(self).base(),
                s.spec_bytes(),
            ),
            initialized(old(self).base(), final(regs).accesses()),
    {
        let bytes = s.as_bytes();
        let mut sent: usize = 0;
        while sent < bytes.len()
            invariant
                sent <= bytes.len(),
                bytes@ == s.spec_bytes(),
                *self == *old(self),
                initialized(self.base(), regs.accesses()),
                regs.accesses() == old(regs).accesses() + text_accesses(
                    self.base(),
                    bytes@.take(sent as int),
                ),
            decreases bytes.len() - sent,
        {
            self.write_byte(regs, bytes[sent]);
            sent += 1;
            assert(regs.accesses() =~= old(regs).accesses() + text_accesses(
                self.base(),
                bytes@.take(sent as int),
            ));
        }
        assert(bytes@.take(sent as int) =~= bytes@);
    }

    /// Stores `byte` to the data register. Nothing checks that the transmit
    /// FIFO has room: a byte sent into a full FIFO may be lost.
    pub fn write_byte<R: RegisterFile>(&mut self, regs: &mut R, byte: u8)
        requires
            initialized(old(self).base(), old(regs).accesses()),
        ensures
            *final(self) == *old(self),
            final(regs).accesses() == old(regs).accesses().push(
                Access::Store { address: register(old(self).base(), DATA), word: byte as u32 },
            ),
            initialized(old(self).base(), final(regs).accesses()),
    {
        proof {
            use_type_invariant(&*self);
            lemma_image_after_push(
                Map::empty(),
                regs.accesses(),
                Access::Store { address: register(self.base(), DATA), word: byte as u32 },
            );
        }
        self.write_register(regs, DATA, byte as u32);
    }
}

} // verus!
