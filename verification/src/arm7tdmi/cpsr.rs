use vstd::prelude::*;
use vstd::string::*;

use crate::bits::{bit_is_set, bit_of, lemma_set_reset_bit, lemma_word_bits, reset_bit, set_bit};

verus! {

/// Whether the processor executes 32-bit ARM or 16-bit THUMB instructions.
#[derive(Debug, Clone, Copy, PartialEq, Eq, Structural)]
pub enum InstructionMode {
    ARM,
    THUMB,
}

/// The processor's operating mode, as encoded in the low five bits of a PSR.
#[derive(Debug, Clone, Copy, PartialEq, Eq, Structural)]
pub enum CPUMode {
    USER,
    /// Fast interrupt.
    FIQ,
    IRQ,
    /// Supervisor.
    SVC,
    /// Abort.
    ABT,
    /// Undefined.
    UND,
    /// System.
    SYS,
    INVALID(u32),
}

/// The four condition flags held in the top bits of a PSR.
#[derive(Debug, Clone, Copy, PartialEq, Eq, Structural)]
pub enum FlagsRegister {
    N,
    Z,
    C,
    V,
}

pub const USER_BITS: u32 = 0b10000;
pub const FIQ_BITS: u32 = 0b10001;
pub const IRQ_BITS: u32 = 0b10010;
pub const SVC_BITS: u32 = 0b10011;
pub const ABT_BITS: u32 = 0b10111;
pub const UND_BITS: u32 = 0b11011;
pub const SYS_BITS: u32 = 0b11111;

/// The bit of a PSR that holds a flag.
pub open spec fn flag_bit(flag: FlagsRegister) -> u32 {
    match flag {
        FlagsRegister::N => 31,
        FlagsRegister::Z => 30,
        FlagsRegister::C => 29,
        FlagsRegister::V => 28,
    }
}

/// The bit of a PSR that holds a flag.
pub fn flag_bit_number(flag: FlagsRegister) -> (r: u32)
    ensures
        r == flag_bit(flag),
        28 <= r < 32,
{
    match flag {
        FlagsRegister::N => 31,
        FlagsRegister::Z => 30,
        FlagsRegister::C => 29,
        FlagsRegister::V => 28,
    }
}

/// The mode that the five mode bits `bits` encode.
pub open spec fn mode_from_bits(bits: u32) -> CPUMode {
    if bits == USER_BITS {
        CPUMode::USER
    } else if bits == FIQ_BITS {
        CPUMode::FIQ
    } else if bits == IRQ_BITS {
        CPUMode::IRQ
    } else if bits == SVC_BITS {
        CPUMode::SVC
    } else if bits == ABT_BITS {
        CPUMode::ABT
    } else if bits == UND_BITS {
        CPUMode::UND
    } else if bits == SYS_BITS {
        CPUMode::SYS
    } else {
        CPUMode::INVALID(bits)
    }
}

/// The five mode bits that encode a valid mode.
pub open spec fn mode_bits(mode: CPUMode) -> u32 {
    match mode {
        CPUMode::USER => USER_BITS,
        CPUMode::FIQ => FIQ_BITS,
        CPUMode::IRQ => IRQ_BITS,
        CPUMode::SVC => SVC_BITS,
        CPUMode::ABT => ABT_BITS,
        CPUMode::UND => UND_BITS,
        CPUMode::SYS => SYS_BITS,
        CPUMode::INVALID(b) => b,
    }
}

/// A program status register: condition flags, interrupt masks, the THUMB
/// bit and the mode bits.
#[derive(Debug, Clone, Copy)]
pub struct PSR(pub u32);

impl PSR {
    /// The mode that the PSR's mode bits encode.
    pub open spec fn spec_mode(self) -> CPUMode {
        mode_from_bits(self.0 & 0x1Fu32)
    }

    /// Whether the mode bits encode one of the seven modes.
    pub open spec fn has_valid_mode(self) -> bool {
        !(self.spec_mode() is INVALID)
    }

    pub open spec fn spec_flag(self, flag: FlagsRegister) -> bool {
        bit_of(self.0, flag_bit(flag))
    }

    pub open spec fn spec_instruction_mode(self) -> InstructionMode {
        if bit_of(self.0, 5) {
            InstructionMode::THUMB
        } else {
            InstructionMode::ARM
        }
    }

    pub open spec fn spec_irq_enabled(self) -> bool {
        !bit_of(self.0, 7)
    }

    pub open spec fn spec_fiq_enabled(self) -> bool {
        !bit_of(self.0, 6)
    }

    /// The CPSR at reset: supervisor mode, ARM state, IRQ and FIQ masked.
    pub fn new_cpsr() -> (r: PSR)
        ensures
            r.0 == 0b1101_0011u32,
            r.spec_mode() == CPUMode::SVC,
    {
        proof {
            lemma_mode_constants();
        }
        PSR(0b1101_0011u32)
    }

    /// A cleared saved PSR.
    pub fn new_spsr() -> (r: PSR)
        ensures
            r.0 == 0,
    {
        PSR(0)
    }

    /// The raw value of the register.
    pub fn bits(&self) -> (r: u32)
        ensures
            r == self.0,
    {
        self.0
    }

    /// The mode that the mode bits encode.
    pub fn mode(&self) -> (r: CPUMode)
        requires
            self.has_valid_mode(),
        ensures
            r == self.spec_mode(),
            !(r is INVALID),
    {
        let bits = self.0 & 0x1Fu32;
        if bits == USER_BITS {
            CPUMode::USER
        } else if bits == FIQ_BITS {
            CPUMode::FIQ
        } else if bits == IRQ_BITS {
            CPUMode::IRQ
        } else if bits == SVC_BITS {
            CPUMode::SVC
        } else if bits == ABT_BITS {
            CPUMode::ABT
        } else if bits == UND_BITS {
            CPUMode::UND
        } else {
            CPUMode::SYS
        }
    }

    /// ARM or THUMB state, from bit 5.
    pub fn instruction_mode(&self) -> (r: InstructionMode)
        ensures
            r == self.spec_instruction_mode(),
    {
        if bit_is_set(self.0, 5) {
            InstructionMode::THUMB
        } else {
            InstructionMode::ARM
        }
    }

    /// Sets or clears bit 5 to select THUMB or ARM state.
    pub fn set_instruction_mode(&mut self, mode: InstructionMode)
        ensures
            final(self).0 == match mode {
                InstructionMode::ARM => old(self).0 & !(1u32 << 5u32),
                InstructionMode::THUMB => old(self).0 | (1u32 << 5u32),
            },
    {
        match mode {
            InstructionMode::ARM => self.0 = reset_bit(self.0, 5),
            InstructionMode::THUMB => self.0 = set_bit(self.0, 5),
        }
    }

    pub fn set_flag(&mut self, flag: FlagsRegister)
        ensures
            final(self).0 == old(self).0 | (1u32 << flag_bit(flag)),
    {
        let n = flag_bit_number(flag);
        self.0 = set_bit(self.0, n);
    }

    pub fn reset_flag(&mut self, flag: FlagsRegister)
        ensures
            final(self).0 == old(self).0 & !(1u32 << flag_bit(flag)),
    {
        let n = flag_bit_number(flag);
        self.0 = reset_bit(self.0, n);
    }

    pub fn get_flag(&self, flag: FlagsRegister) -> (r: bool)
        ensures
            r == self.spec_flag(flag),
    {
        let n = flag_bit_number(flag);
        bit_is_set(self.0, n)
    }

    /// Bit 7 is the IRQ mask: it is cleared to enable interrupts.
    pub fn set_irq(&mut self, enabled: bool)
        ensures
            final(self).0 == if enabled {
                old(self).0 & !(1u32 << 7u32)
            } else {
                old(self).0 | (1u32 << 7u32)
            },
    {
        if enabled {
            self.0 = reset_bit(self.0, 7);
            return;
        }
        self.0 = set_bit(self.0, 7);
    }

    pub fn irq_enabled(&self) -> (r: bool)
        ensures
            r == self.spec_irq_enabled(),
    {
        !bit_is_set(self.0, 7)
    }

    pub fn fiq_enabled(&self) -> (r: bool)
        ensures
            r == self.spec_fiq_enabled(),
    {
        !bit_is_set(self.0, 6)
    }

    /// Bit 6 is the FIQ mask: it is cleared to enable fast interrupts.
    pub fn set_fiq(&mut self, enabled: bool)
        ensures
            final(self).0 == if enabled {
                old(self).0 & !(1u32 << 6u32)
            } else {
                old(self).0 | (1u32 << 6u32)
            },
    {
        if enabled {
            self.0 = reset_bit(self.0, 6);
            return;
        }
        self.0 = set_bit(self.0, 6);
    }

    /// Replaces the mode bits with those of `mode`.
    pub fn set_mode(&mut self, mode: CPUMode)
        requires
            !(mode is INVALID),
        ensures
            final(self).0 == (old(self).0 & !SYS_BITS) | mode_bits(mode),
    {
        let bits = match mode {
            CPUMode::USER => USER_BITS,
            CPUMode::FIQ => FIQ_BITS,
            CPUMode::IRQ => IRQ_BITS,
            CPUMode::SVC => SVC_BITS,
            CPUMode::ABT => ABT_BITS,
            CPUMode::UND => UND_BITS,
            _ => SYS_BITS,
        };
        self.0 = (self.0 & !SYS_BITS) | bits;
    }

    /// The register as text: a letter for each of N, Z, C, V that is set
    /// (`-` when clear), `I` and `F` for the interrupts that are enabled,
    /// `A` or `T` for the state, then the mode's name.
    pub fn to_string(&self) -> (r: String)
        requires
            self.has_valid_mode(),
        ensures
            r@ == psr_text(*self),
    {
        let mut text = String::from_str(if self.get_flag(FlagsRegister::N) { "N" } else { "-" });
        text.append(if self.get_flag(FlagsRegister::Z) { "Z" } else { "-" });
        text.append(if self.get_flag(FlagsRegister::C) { "C" } else { "-" });
        text.append(if self.get_flag(FlagsRegister::V) { "V" } else { "-" });
        text.append(if self.irq_enabled() { "I" } else { "-" });
        text.append(if self.fiq_enabled() { "F" } else { "-" });
        text.append(
            match self.instruction_mode() {
                InstructionMode::ARM => "A",
                InstructionMode::THUMB => "T",
            },
        );
        text.append(
            match self.mode() {
                CPUMode::USER => "USER",
                CPUMode::FIQ => "FIQ",
                CPUMode::IRQ => "IRQ",
                CPUMode::SVC => "SVC",
                CPUMode::ABT => "ABT",
                CPUMode::UND => "UND",
                _ => "SYS",
            },
        );
        text
    }
}

/// `letter` when `set`, else `-`.
pub open spec fn flag_text(set: bool, letter: &str) -> Seq<char> {
    if set {
        letter@
    } else {
        "-"@
    }
}

/// The name of a mode.
pub open spec fn mode_name(mode: CPUMode) -> Seq<char> {
    match mode {
        CPUMode::USER => "USER"@,
        CPUMode::FIQ => "FIQ"@,
        CPUMode::IRQ => "IRQ"@,
        CPUMode::SVC => "SVC"@,
        CPUMode::ABT => "ABT"@,
        CPUMode::UND => "UND"@,
        CPUMode::SYS => "SYS"@,
        CPUMode::INVALID(_) => Seq::empty(),
    }
}

/// The text of a PSR: the flags, the interrupt enables, the state and the
/// mode.
pub open spec fn psr_text(p: PSR) -> Seq<char> {
    flag_text(p.spec_flag(FlagsRegister::N), "N") + flag_text(p.spec_flag(FlagsRegister::Z), "Z") + flag_text(
        p.spec_flag(FlagsRegister::C),
        "C",
    ) + flag_text(p.spec_flag(FlagsRegister::V), "V") + flag_text(p.spec_irq_enabled(), "I") + flag_text(
        p.spec_fiq_enabled(),
        "F",
    ) + (if p.spec_instruction_mode() == InstructionMode::ARM {
        "A"@
    } else {
        "T"@
    }) + mode_name(p.spec_mode())
}

/// Setting the mode of a PSR makes it report that mode, and leaves the
/// flags, the interrupt masks and the THUMB bit as they were.
pub proof fn lemma_set_mode_then_mode(p: u32, mode: CPUMode, flag: FlagsRegister)
    requires
        !(mode is INVALID),
    ensures
        PSR((p & !SYS_BITS) | mode_bits(mode)).spec_mode() == mode,
        PSR((p & !SYS_BITS) | mode_bits(mode)).spec_flag(flag) == PSR(p).spec_flag(flag),
        PSR((p & !SYS_BITS) | mode_bits(mode)).spec_instruction_mode() == PSR(p).spec_instruction_mode(),
        PSR((p & !SYS_BITS) | mode_bits(mode)).spec_irq_enabled() == PSR(p).spec_irq_enabled(),
        PSR((p & !SYS_BITS) | mode_bits(mode)).spec_fiq_enabled() == PSR(p).spec_fiq_enabled(),
{
    let b = mode_bits(mode);
    let q = (p & !SYS_BITS) | b;
    lemma_mode_constants();
    assert(b & !0x1Fu32 == 0 && b <= 0x1F);
    lemma_word_bits(p, 0, b);
    assert(q & 0x1Fu32 == b);
    lemma_word_bits(p, flag_bit(flag), b);
    lemma_word_bits(p, 5, b);
    lemma_word_bits(p, 6, b);
    lemma_word_bits(p, 7, b);
    assert((q >> flag_bit(flag)) & 1u32 == (p >> flag_bit(flag)) & 1u32);
    assert((q >> 5u32) & 1u32 == (p >> 5u32) & 1u32);
    assert((q >> 6u32) & 1u32 == (p >> 6u32) & 1u32);
    assert((q >> 7u32) & 1u32 == (p >> 7u32) & 1u32);
}

/// The mode field values fit in the five low bits, and the reset CPSR is in
/// supervisor mode.
pub proof fn lemma_mode_constants()
    by (bit_vector)
    ensures
        USER_BITS & !0x1Fu32 == 0 && USER_BITS <= 0x1F,
        FIQ_BITS & !0x1Fu32 == 0 && FIQ_BITS <= 0x1F,
        IRQ_BITS & !0x1Fu32 == 0 && IRQ_BITS <= 0x1F,
        SVC_BITS & !0x1Fu32 == 0 && SVC_BITS <= 0x1F,
        ABT_BITS & !0x1Fu32 == 0 && ABT_BITS <= 0x1F,
        UND_BITS & !0x1Fu32 == 0 && UND_BITS <= 0x1F,
        SYS_BITS & !0x1Fu32 == 0 && SYS_BITS <= 0x1F,
        0b1101_0011u32 & 0x1Fu32 == SVC_BITS,
{
}

/// Setting a flag makes it read back as set and clearing it makes it read
/// back as clear; no other flag, nor the mode, changes.
pub proof fn lemma_flag_set_reset(p: u32, flag: FlagsRegister, other: FlagsRegister)
    ensures
        PSR(p | (1u32 << flag_bit(flag))).spec_flag(flag),
        !PSR(p & !(1u32 << flag_bit(flag))).spec_flag(flag),
        other != flag ==> PSR(p | (1u32 << flag_bit(flag))).spec_flag(other) == PSR(p).spec_flag(other),
        other != flag ==> PSR(p & !(1u32 << flag_bit(flag))).spec_flag(other) == PSR(p).spec_flag(other),
        PSR(p | (1u32 << flag_bit(flag))).spec_mode() == PSR(p).spec_mode(),
        PSR(p & !(1u32 << flag_bit(flag))).spec_mode() == PSR(p).spec_mode(),
{
    let n = flag_bit(flag);
    lemma_set_reset_bit(p, n, flag_bit(other));
    lemma_word_bits(p, n, 0);
}

/// Selecting THUMB or ARM state makes the PSR report that state, and the
/// mode and flags stay as they were.
pub proof fn lemma_instruction_mode_round_trip(p: u32, flag: FlagsRegister)
    ensures
        PSR(p | (1u32 << 5u32)).spec_instruction_mode() == InstructionMode::THUMB,
        PSR(p & !(1u32 << 5u32)).spec_instruction_mode() == InstructionMode::ARM,
        PSR(p | (1u32 << 5u32)).spec_mode() == PSR(p).spec_mode(),
        PSR(p & !(1u32 << 5u32)).spec_mode() == PSR(p).spec_mode(),
        PSR(p | (1u32 << 5u32)).spec_flag(flag) == PSR(p).spec_flag(flag),
        PSR(p & !(1u32 << 5u32)).spec_flag(flag) == PSR(p).spec_flag(flag),
{
    lemma_set_reset_bit(p, 5, flag_bit(flag));
    lemma_set_reset_bit(p, 5, 5);
    lemma_word_bits(p, 5, 0);
}

} // verus!
