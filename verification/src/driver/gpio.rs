//! The GPIO controller: which peripheral drives a pin, and which way an
//! undriven pin is pulled.
//!
//! A [`GPIOPin`] is a plain value naming one pin. The state it configures
//! lives in the controller's registers; two pins that share a register must
//! not be configured from two contexts at once.
use crate::mmio::{
    effect, idle, image_after, lemma_idle_is_inert, lemma_image_after_concat,
    lemma_image_after_one, loads_agree, word_at, word_of, Access, RegisterFile,
};
use vstd::prelude::*;

verus! {

/// Where the GPIO register block starts on the Raspberry Pi 3.
pub const GPIO_BASE_ADDRESS: u32 = 0x3f20_0000;

/// How many pins the controller has; they are numbered from zero.
pub const PIN_COUNT: u32 = 54;

/// The distance from a register block's base to the last register that the
/// driver touches.
pub const GPIO_SPAN: u32 = 0x98;

/// The distance from a pull-control register to its clock register.
pub const PULL_CLOCK_OFFSET: u32 = 0x94;

/// How many cycles the pull handshake waits for a signal to settle.
pub const PULL_SETTLE_CYCLES: u32 = 150;

/// What drives a pin.
#[derive(Clone, Copy, Debug, PartialEq, Eq)]
pub enum GPIOFunc {
    /// Nothing drives the pin; it can be read.
    INPUT,
    /// Software drives the pin.
    OUTPUT,
    /// The pin's first alternate function.
    ALT0,
    /// The pin's second alternate function.
    ALT1,
    /// The pin's third alternate function.
    ALT2,
    /// The pin's fourth alternate function.
    ALT3,
    /// The pin's fifth alternate function.
    ALT4,
    /// The pin's sixth alternate function.
    ALT5,
}

impl GPIOFunc {
    /// The 3-bit code that the function-select registers use for this function.
    pub open spec fn spec_code(self) -> u32 {
        match self {
            GPIOFunc::INPUT => 0b000,
            GPIOFunc::OUTPUT => 0b001,
            GPIOFunc::ALT0 => 0b100,
            GPIOFunc::ALT1 => 0b101,
            GPIOFunc::ALT2 => 0b110,
            GPIOFunc::ALT3 => 0b111,
            GPIOFunc::ALT4 => 0b011,
            GPIOFunc::ALT5 => 0b010,
        }
    }

    /// The 3-bit code that the function-select registers use for this function.
    #[verifier::when_used_as_spec(spec_code)]
    pub fn code(self) -> (code: u32)
        ensures
            code == self.spec_code(),
            code < 8,
    {
        match self {
            GPIOFunc::INPUT => 0b000,
            GPIOFunc::OUTPUT => 0b001,
            GPIOFunc::ALT0 => 0b100,
            GPIOFunc::ALT1 => 0b101,
            GPIOFunc::ALT2 => 0b110,
            GPIOFunc::ALT3 => 0b111,
            GPIOFunc::ALT4 => 0b011,
            GPIOFunc::ALT5 => 0b010,
        }
    }

    /// The function that `code` stands for, if it is a 3-bit code.
    pub fn from_code(code: u32) -> (func: Option<GPIOFunc>)
        ensures
            match func {
                Some(found) => found.code() == code,
                None => forall|any: GPIOFunc| any.code() != code,
            },
            func is Some <==> code < 8,
    {
        match code {
            0b000 => Some(GPIOFunc::INPUT),
            0b001 => Some(GPIOFunc::OUTPUT),
            0b100 => Some(GPIOFunc::ALT0),
            0b101 => Some(GPIOFunc::ALT1),
            0b110 => Some(GPIOFunc::ALT2),
            0b111 => Some(GPIOFunc::ALT3),
            0b011 => Some(GPIOFunc::ALT4),
            0b010 => Some(GPIOFunc::ALT5),
            _ => None,
        }
    }
}

/// Which way an undriven pin is pulled.
#[derive(Clone, Copy, Debug, PartialEq, Eq)]
pub enum PullUpDown {
    /// Neither way: the pin floats.
    Off,
    /// Towards ground.
    PullDown,
    /// Towards the supply.
    PullUp,
}

impl PullUpDown {
    /// The 2-bit code that the pull-control register uses for this state.
    pub open spec fn spec_code(self) -> u32 {
        match self {
            PullUpDown::Off => 0b00,
            PullUpDown::PullDown => 0b01,
            PullUpDown::PullUp => 0b10,
        }
    }

    /// The 2-bit code that the pull-control register uses for this state.
    #[verifier::when_used_as_spec(spec_code)]
    pub fn code(self) -> (code: u32)
        ensures
            code == self.spec_code(),
            code < 3,
    {
        match self {
            PullUpDown::Off => 0b00,
            PullUpDown::PullDown => 0b01,
            PullUpDown::PullUp => 0b10,
        }
    }

    /// The pull state that `code` stands for, if it stands for one.
    pub fn from_code(code: u32) -> (pud: Option<PullUpDown>)
        ensures
            match pud {
                Some(found) => found.code() == code,
                None => forall|any: PullUpDown| any.code() != code,
            },
            pud is Some <==> code < 3,
    {
        match code {
            0b00 => Some(PullUpDown::Off),
            0b01 => Some(PullUpDown::PullDown),
            0b10 => Some(PullUpDown::PullUp),
            _ => None,
        }
    }
}

/// `word` with the 3-bit field that starts at bit `shift` replaced by `code`.
pub open spec fn with_field(word: u32, shift: u32, code: u32) -> u32 {
    (word & !(0b111u32 << shift)) | (code << shift)
}

/// The 3-bit field of `word` that starts at bit `shift`.
pub open spec fn field_at(word: u32, shift: u32) -> u32 {
    (word >> shift) & 0b111
}

/// Bit `bit` of `word`.
pub open spec fn bit_at(word: u32, bit: u32) -> bool {
    (word >> bit) & 1 == 1
}

/// Which function-select register holds the field of pin `pin`.
pub open spec fn function_select_index(pin: u32) -> u32 {
    pin / 10
}

/// At which bit of that register the 3-bit field of pin `pin` starts.
pub open spec fn function_select_shift(pin: u32) -> u32 {
    ((pin % 10) * 3) as u32
}

/// Which pull-control register, and which clock register, serve pin `pin`.
pub open spec fn pull_index(pin: u32) -> u32 {
    pin / 32
}

/// Which bit of the clock register stands for pin `pin`.
pub open spec fn pull_bit(pin: u32) -> u32 {
    pin % 32
}

/// The address of the function-select register of pin `pin`, in the register
/// block that starts at `base`. The registers lie four bytes apart.
pub open spec fn function_select_address(base: u32, pin: u32) -> u32 {
    (base + 4 * function_select_index(pin)) as u32
}

/// The address of the pull-control register of pin `pin`, in the register
/// block that starts at `base`. The registers lie four bytes apart.
pub open spec fn pull_control_address(base: u32, pin: u32) -> u32 {
    (base + 4 * pull_index(pin)) as u32
}

/// The address of the pull clock register of pin `pin`: that of its
/// pull-control register, plus [`PULL_CLOCK_OFFSET`].
pub open spec fn pull_clock_address(base: u32, pin: u32) -> u32 {
    (pull_control_address(base, pin) + PULL_CLOCK_OFFSET) as u32
}

/// The clock word that latches a pull state onto pin `pin` alone.
pub open spec fn pull_clock_mask(pin: u32) -> u32 {
    1u32 << pull_bit(pin)
}

/// `word` with the field of pin `pin` set to the code of `func`.
pub open spec fn with_function(word: u32, pin: u32, func: GPIOFunc) -> u32 {
    with_field(word, function_select_shift(pin), func.spec_code())
}

/// What selecting `func` for pin `pin` does on the bus when the load returns
/// `seen`: the function-select register is loaded, and stored back with the
/// pin's field replaced.
pub open spec fn function_select_accesses(
    base: u32,
    pin: u32,
    func: GPIOFunc,
    seen: u32,
) -> Seq<Access> {
    let address = function_select_address(base, pin);
    seq![
        Access::Load { address, word: seen },
        Access::Store { address, word: with_function(seen, pin, func) },
    ]
}

/// What pulling pin `pin` the way `pud` says does on the bus: the state goes
/// to the pull-control register; after a wait the pin's bit is clocked; after
/// a second wait the control register and then the clock register are cleared.
pub open spec fn pull_accesses(base: u32, pin: u32, pud: PullUpDown) -> Seq<Access> {
    let control = pull_control_address(base, pin);
    let clock = pull_clock_address(base, pin);
    seq![Access::Store { address: control, word: pud.spec_code() }]
        + idle(PULL_SETTLE_CYCLES as nat)
        + seq![Access::Store { address: clock, word: pull_clock_mask(pin) }]
        + idle(PULL_SETTLE_CYCLES as nat)
        + seq![Access::Store { address: control, word: 0 }]
        + seq![Access::Store { address: clock, word: 0 }]
}

/// One pin of the GPIO controller.
#[derive(Clone, Copy, Debug, PartialEq, Eq)]
pub struct GPIOPin {
    base_address: u32,
    pin_number: u32,
}

impl GPIOPin {
    /// The pin's number.
    pub closed spec fn number(&self) -> u32 {
        self.pin_number
    }

    /// Where the controller's register block starts.
    pub closed spec fn base(&self) -> u32 {
        self.base_address
    }

    /// The pin exists, and every register address that the driver computes
    /// for it fits the address space.
    #[verifier::type_invariant]
    pub open spec fn wf(&self) -> bool {
        &&& self.number() < PIN_COUNT
        &&& self.base() <= u32::MAX - GPIO_SPAN
    }

    /// Pin `pin_number` of the controller at [`GPIO_BASE_ADDRESS`]. Touches no
    /// hardware.
    pub fn new(pin_number: u32) -> (pin: Self)
        requires
            pin_number < PIN_COUNT,
        ensures
            pin.wf(),
            pin.number() == pin_number,
            pin.base() == GPIO_BASE_ADDRESS,
    {
        GPIOPin { base_address: GPIO_BASE_ADDRESS, pin_number }
    }

    /// Pin `pin_number` of the controller whose register block starts at
    /// `base_address`. Touches no hardware.
    pub fn at(base_address: u32, pin_number: u32) -> (pin: Self)
        requires
            pin_number < PIN_COUNT,
            base_address <= u32::MAX - GPIO_SPAN,
        ensures
            pin.wf(),
            pin.number() == pin_number,
            pin.base() == base_address,
    {
        GPIOPin { base_address, pin_number }
    }

    /// The pin's number.
    pub fn pin_number(&self) -> (number: u32)
        ensures
            number == self.number(),
            number < PIN_COUNT,
    {
        proof {
            use_type_invariant(self);
        }
        self.pin_number
    }

    /// Where the controller's register block starts.
    pub fn base_address(&self) -> (base: u32)
        ensures
            base == self.base(),
            base <= u32::MAX - GPIO_SPAN,
    {
        proof {
            use_type_invariant(self);
        }
        self.base_address
    }

    /// Which function-select register holds the pin's field: a tenth of the
    /// pin's number, rounded down.
    pub fn function_select_index(&self) -> (index: u32)
        ensures
            index == function_select_index(self.number()),
            index <= 5,
    {
        proof {
            use_type_invariant(self);
        }
        self.pin_number / 10
    }

    /// At which bit of that register the pin's 3-bit field starts: three times
    /// the last decimal digit of the pin's number.
    pub fn function_select_shift(&self) -> (shift: u32)
        ensures
            shift == function_select_shift(self.number()),
            shift <= 27,
    {
        (self.pin_number % 10) * 3
    }

    /// Which pull-control register, and which clock register, serve the pin.
    pub fn pull_index(&self) -> (index: u32)
        ensures
            index == pull_index(self.number()),
            index <= 1,
    {
        proof {
            use_type_invariant(self);
        }
        self.pin_number / 32
    }

    /// Which bit of the clock register stands for the pin.
    pub fn pull_bit(&self) -> (bit: u32)
        ensures
            bit == pull_bit(self.number()),
            bit < 32,
    {
        self.pin_number % 32
    }

    /// The clock word that latches a pull state onto this pin alone: the
    /// pin's bit and no other.
    pub fn clock_mask(&self) -> (mask: u32)
        ensures
            mask == pull_clock_mask(self.number()),
            forall|bit: u32| bit < 32 ==> (bit_at(mask, bit) <==> bit == pull_bit(self.number())),
    {
        let bit: u32 = self.pull_bit();
        proof {
            lemma_single_bit(bit);
        }
        1u32 << bit
    }

    /// `word` with this pin's field set to the code of `func`, and every other
    /// bit as it was.
    pub fn function_word(&self, word: u32, func: GPIOFunc) -> (merged: u32)
        ensures
            merged == with_function(word, self.number(), func),
            field_at(merged, function_select_shift(self.number())) == func.spec_code(),
            forall|bit: u32|
                bit < 32 && !(function_select_shift(self.number()) <= bit
                    < function_select_shift(self.number()) + 3) ==> bit_at(merged, bit) == bit_at(
                    word,
                    bit,
                ),
    {
        let shift: u32 = self.function_select_shift();
        let code: u32 = func.code();
        proof {
            lemma_with_field(word, shift, code);
        }
        (word & !(0b111u32 << shift)) | (code << shift)
    }

    /// Hands the pin to `func`: loads the pin's function-select register,
    /// replaces the pin's 3-bit field, and stores the word back. The word
    /// stored differs from the word loaded in that field alone, so no other
    /// field of the register is disturbed.
    pub fn set_function<R: RegisterFile>(&self, regs: &mut R, func: GPIOFunc)
        ensures
            final(regs).accesses() == old(regs).accesses() + function_select_accesses(
                self.base(),
                self.number(),
                func,
                word_of(final(regs).accesses(), old(regs).accesses().len()),
            ),
            ({
                let shift = function_select_shift(self.number());
                let loaded = word_of(final(regs).accesses(), old(regs).accesses().len());
                let stored = word_of(final(regs).accesses(), old(regs).accesses().len() + 1);
                &&& field_at(stored, shift) == func.spec_code()
                &&& forall|bit: u32|
                    bit < 32 && !(shift <= bit < shift + 3) ==> bit_at(stored, bit) == bit_at(
                        loaded,
                        bit,
                    )
            }),
    {
        proof {
            use_type_invariant(self);
        }
        let register_offset: u32 = self.function_select_index();
        let register_address: u32 = self.base_address + register_offset * 4;
        let value: u32 = regs.read(register_address);
        let merged: u32 = self.function_word(value, func);
        regs.write(register_address, merged);
        assert(regs.accesses() =~= old(regs).accesses() + function_select_accesses(
            self.base(),
            self.number(),
            func,
            value,
        ));
    }

    /// Pulls the pin the way `pud` says, by the controller's handshake: the
    /// state goes to the pull-control register; after a settling wait the
    /// pin's bit, and no other, is clocked; after a second wait the control
    /// register and then the clock register are cleared.
    pub fn set_pull_up_down<R: RegisterFile>(&self, regs: &mut R, pud: PullUpDown)
        ensures
            final(regs).accesses() == old(regs).accesses() + pull_accesses(
                self.base(),
                self.number(),
                pud,
            ),
    {
        proof {
            use_type_invariant(self);
        }
        let register_offset: u32 = self.pull_index();
        let gppud_register_address: u32 = self.base_address + register_offset * 4;
        let gppudclk_register_address: u32 = self.base_address + register_offset * 4
            + PULL_CLOCK_OFFSET;

        regs.write(gppud_register_address, pud.code());
        wait_cycles(regs, PULL_SETTLE_CYCLES);

        let mask: u32 = self.clock_mask();
        regs.write(gppudclk_register_address, mask);
        wait_cycles(regs, PULL_SETTLE_CYCLES);

        regs.write(gppud_register_address, 0);
        regs.write(gppudclk_register_address, 0);
        assert(regs.accesses() =~= old(regs).accesses() + pull_accesses(
            self.base(),
            self.number(),
            pud,
        ));
    }
}

/// Spends `cycles` no-op cycles. This counts cycles, not time.
pub fn wait_cycles<R: RegisterFile>(regs: &mut R, cycles: u32)
    ensures
        final(regs).accesses() == old(regs).accesses() + idle(cycles as nat),
{
    let mut spent: u32 = 0;
    while spent < cycles
        invariant
            spent <= cycles,
            regs.accesses() == old(regs).accesses() + idle(spent as nat),
        decreases cycles - spent,
    {
        regs.nop();
        spent += 1;
        assert(regs.accesses() =~= old(regs).accesses() + idle(spent as nat));
    }
}

/// Replacing a 3-bit field puts the code there and leaves every bit outside
/// the field as it was. Replacing it again by the same code changes nothing.
pub proof fn lemma_with_field(word: u32, shift: u32, code: u32)
    by (bit_vector)
    requires
        shift <= 27,
        code < 8,
    ensures
        field_at(with_field(word, shift, code), shift) == code,
        forall|bit: u32|
            bit < 32 && !(shift <= bit < shift + 3) ==> bit_at(with_field(word, shift, code), bit)
                == bit_at(word, bit),
        with_field(with_field(word, shift, code), shift, code) == with_field(word, shift, code),
{
}

/// Replacing one 3-bit field leaves every 3-bit field that does not overlap it
/// as it was.
pub proof fn lemma_with_field_keeps_other_fields(word: u32, shift: u32, code: u32, other: u32)
    by (bit_vector)
    requires
        shift <= 27,
        other <= 27,
        other + 3 <= shift || shift + 3 <= other,
        code < 8,
    ensures
        field_at(with_field(word, shift, code), other) == field_at(word, other),
{
}

/// The word `1 << index` has bit `index` set and no other.
pub proof fn lemma_single_bit(index: u32)
    by (bit_vector)
    requires
        index < 32,
    ensures
        forall|bit: u32| bit < 32 ==> (bit_at(1u32 << index, bit) <==> bit == index),
{
}

/// Each function has a 3-bit code of its own.
pub proof fn lemma_function_codes_are_distinct(one: GPIOFunc, other: GPIOFunc)
    ensures
        one.code() < 8,
        one.code() == other.code() <==> one == other,
{
}

/// Each pull state has a 2-bit code of its own.
pub proof fn lemma_pull_codes_are_distinct(one: PullUpDown, other: PullUpDown)
    ensures
        one.code() < 3,
        one.code() == other.code() <==> one == other,
{
}

/// On a register file whose loads return what was stored, selecting a
/// function for a pin replaces the pin's 3-bit field, which starts at bit
/// `(pin % 10) * 3` of function-select register `pin / 10`. Every other bit
/// of that register keeps its value, so the pins that share the register keep
/// their functions; and every other register keeps its word.
pub proof fn lemma_set_function_changes_one_field(
    base: u32,
    pin: u32,
    func: GPIOFunc,
    image: Map<u32, u32>,
    seen: u32,
)
    requires
        pin < PIN_COUNT,
        base <= u32::MAX - GPIO_SPAN,
        loads_agree(image, function_select_accesses(base, pin, func, seen)),
    ensures
        ({
            let address = function_select_address(base, pin);
            let shift = function_select_shift(pin);
            let after = image_after(image, function_select_accesses(base, pin, func, seen));
            &&& address == base + 4 * (pin / 10)
            &&& shift == (pin % 10) * 3
            &&& seen == word_at(image, address)
            &&& after == image.insert(address, with_function(seen, pin, func))
            &&& field_at(word_at(after, address), shift) == func.spec_code()
            &&& forall|bit: u32|
                bit < 32 && !(shift <= bit < shift + 3) ==> bit_at(word_at(after, address), bit)
                    == bit_at(word_at(image, address), bit)
            &&& forall|neighbour: u32|
                neighbour < PIN_COUNT && neighbour != pin && function_select_index(neighbour)
                    == function_select_index(pin) ==> field_at(
                    word_at(after, address),
                    function_select_shift(neighbour),
                ) == field_at(word_at(image, address), function_select_shift(neighbour))
            &&& forall|other: u32|
                other != address ==> word_at(after, other) == word_at(image, other)
        }),
{
    let address = function_select_address(base, pin);
    let shift = function_select_shift(pin);
    let load = Access::Load { address, word: seen };
    let store = Access::Store { address, word: with_function(seen, pin, func) };
    assert(function_select_accesses(base, pin, func, seen) =~= seq![load] + seq![store]);
    lemma_image_after_concat(image, seq![load], seq![store]);
    lemma_image_after_one(image, load);
    lemma_image_after_one(image, store);
    lemma_with_field(seen, shift, func.spec_code());
    assert forall|neighbour: u32|
        neighbour < PIN_COUNT && neighbour != pin && function_select_index(neighbour)
            == function_select_index(pin) implies field_at(
        with_field(seen, shift, func.spec_code()),
        function_select_shift(neighbour),
    ) == field_at(seen, function_select_shift(neighbour)) by {
        lemma_with_field_keeps_other_fields(
            seen,
            shift,
            func.spec_code(),
            function_select_shift(neighbour),
        );
    }
}

/// On a register file whose loads return what was stored, selecting the same
/// function for the same pin a second time leaves every register as the first
/// time left it.
pub proof fn lemma_set_function_is_idempotent(
    base: u32,
    pin: u32,
    func: GPIOFunc,
    image: Map<u32, u32>,
    first: u32,
    second: u32,
)
    requires
        pin < PIN_COUNT,
        base <= u32::MAX - GPIO_SPAN,
        loads_agree(
            image,
            function_select_accesses(base, pin, func, first) + function_select_accesses(
                base,
                pin,
                func,
                second,
            ),
        ),
    ensures
        image_after(
            image,
            function_select_accesses(base, pin, func, first) + function_select_accesses(
                base,
                pin,
                func,
                second,
            ),
        ) == image_after(image, function_select_accesses(base, pin, func, first)),
{
    let once = function_select_accesses(base, pin, func, first);
    let again = function_select_accesses(base, pin, func, second);
    let between = image_after(image, once);
    lemma_image_after_concat(image, once, again);
    lemma_set_function_changes_one_field(base, pin, func, image, first);
    lemma_set_function_changes_one_field(base, pin, func, between, second);
    lemma_with_field(first, function_select_shift(pin), func.spec_code());
    assert(image_after(between, again) =~= between);
}

/// The pull handshake loads nothing, leaves both of the pin's pull registers
/// cleared, and stores to no other register.
pub proof fn lemma_pull_handshake_ends_cleared(
    base: u32,
    pin: u32,
    pud: PullUpDown,
    image: Map<u32, u32>,
)
    ensures
        loads_agree(image, pull_accesses(base, pin, pud)),
        image_after(image, pull_accesses(base, pin, pud)) == image.insert(
            pull_control_address(base, pin),
            0,
        ).insert(pull_clock_address(base, pin), 0),
{
    let control = pull_control_address(base, pin);
    let clock = pull_clock_address(base, pin);
    let wait = idle(PULL_SETTLE_CYCLES as nat);
    let set = Access::Store { address: control, word: pud.spec_code() };
    let latch = Access::Store { address: clock, word: pull_clock_mask(pin) };
    let unset = Access::Store { address: control, word: 0 };
    let unlatch = Access::Store { address: clock, word: 0 };
    assert(pull_accesses(base, pin, pud) =~= seq![set] + wait + seq![latch] + wait + seq![unset]
        + seq![unlatch]);
    let set_image = effect(image, set);
    let latched_image = effect(set_image, latch);
    let unset_image = effect(latched_image, unset);
    lemma_image_after_one(image, set);
    lemma_idle_is_inert(set_image, PULL_SETTLE_CYCLES as nat);
    lemma_image_after_concat(image, seq![set], wait);
    lemma_image_after_one(set_image, latch);
    lemma_image_after_concat(image, seq![set] + wait, seq![latch]);
    lemma_idle_is_inert(latched_image, PULL_SETTLE_CYCLES as nat);
    lemma_image_after_concat(image, seq![set] + wait + seq![latch], wait);
    lemma_image_after_one(latched_image, unset);
    lemma_image_after_concat(image, seq![set] + wait + seq![latch] + wait, seq![unset]);
    lemma_image_after_one(unset_image, unlatch);
    lemma_image_after_concat(
        image,
        seq![set] + wait + seq![latch] + wait + seq![unset],
        seq![unlatch],
    );
    assert(effect(unset_image, unlatch) =~= image.insert(control, 0).insert(clock, 0));
}

} // verus!
