use vstd::prelude::*;

use crate::arm7tdmi::cpsr::{CPUMode, FlagsRegister, InstructionMode, PSR};
use crate::arm7tdmi::registers::{is_banked_mode, lemma_switch_keeps_general_registers};
use crate::memory::memory::GBAMemory;
use crate::arm7tdmi::cpu::{psr_with, lemma_psr_with, spec_condition_passed, spsr_index, CPU};
use crate::arm7tdmi::instruction_table::Operand;
use crate::bits::{bit_is_set, bit_of, get_bit, rotate_right, spec_rotate_right, twos_complement};
use crate::types::{ARMByteCode, CYCLES, REGISTER, WORD};

verus! {

/// The status register that `MRS` reads or `MSR` writes.
#[derive(Debug, Clone, Copy, PartialEq, Eq, Structural)]
pub enum PSRRegister {
    SPSR,
    CPSR,
}

#[derive(Debug, Clone, Copy, PartialEq, Eq, Structural)]
pub enum ArithmeticInstruction {
    Sub,
    Rsb,
    Add,
    Adc,
    Sbc,
    Rsc,
    Cmp,
    Cmn,
}

#[derive(Debug, Clone, Copy, PartialEq, Eq, Structural)]
pub enum LogicalInstruction {
    And,
    Eor,
    Tst,
    Teq,
    Orr,
    Mov,
    Bic,
    Mvn,
}

#[derive(Debug, Clone, Copy, PartialEq, Eq, Structural)]
pub enum ShiftType {
    LSL,
    LSR,
    ASR,
    ROR,
    RRX,
}

/// A shift applied to the second operand: its type and its amount.
#[derive(Debug, Clone, Copy, PartialEq, Eq, Structural)]
pub struct Shift(pub ShiftType, pub Operand);

/// A decoded data processing instruction.
#[derive(Debug, Clone, Copy, PartialEq, Eq, Structural)]
pub enum DataProcessingInstruction {
    /// Operation, destination, first operand register, second operand,
    /// its shift, whether to set the flags.
    Arithmetic(ArithmeticInstruction, Option<REGISTER>, REGISTER, Operand, Shift, bool),
    Logical(LogicalInstruction, Option<REGISTER>, Option<REGISTER>, Operand, Shift, bool),
    /// Target, write the flag byte, write the control byte, operand, and the
    /// rotation of an immediate operand.
    MSR(PSRRegister, bool, bool, Operand, u32),
    MRS(REGISTER, PSRRegister),
}

/// The shift type that a two-bit field encodes.
pub open spec fn shift_type_of(v: u32) -> ShiftType {
    if v == 0 {
        ShiftType::LSL
    } else if v == 1 {
        ShiftType::LSR
    } else if v == 2 {
        ShiftType::ASR
    } else {
        ShiftType::ROR
    }
}

/// The second operand of a data processing instruction and its shift.
/// With bit 25 set it is the 8-bit immediate rotated right by twice bits
/// 8-11; otherwise it is register `instruction[3:0]`, shifted by an
/// immediate (bits 7-11) or by a register (bits 8-11). An immediate shift of
/// 0 encodes LSL #0, LSR #32, ASR #32 and RRX.
pub open spec fn spec_operand2_and_shift(instruction: u32) -> (Operand, Shift) {
    if bit_of(instruction, 25) {
        (
            Operand::Immediate(instruction & 0x0000_00FFu32),
            Shift(ShiftType::ROR, Operand::Immediate((instruction & 0x0000_0F00u32) >> 7u32)),
        )
    } else {
        let operand2 = Operand::Register(instruction & 0x0000_000Fu32);
        let shift_type = (instruction & 0x0000_0060u32) >> 5u32;
        if bit_of(instruction, 4) {
            (operand2, Shift(shift_type_of(shift_type), Operand::Register((instruction & 0x0000_0F00u32) >> 8u32)))
        } else {
            let immediate = (instruction & 0x0000_0F80u32) >> 7u32;
            if immediate == 0 {
                (
                    operand2,
                    if shift_type == 0 {
                        Shift(ShiftType::LSL, Operand::Immediate(0))
                    } else if shift_type == 1 {
                        Shift(ShiftType::LSR, Operand::Immediate(32))
                    } else if shift_type == 2 {
                        Shift(ShiftType::ASR, Operand::Immediate(32))
                    } else {
                        Shift(ShiftType::RRX, Operand::Immediate(1))
                    },
                )
            } else {
                (operand2, Shift(shift_type_of(shift_type), Operand::Immediate(immediate)))
            }
        }
    }
}

/// Whether a decoded operand and shift only name registers 0-15, and an
/// immediate operand comes with an immediate rotation of at most 32.
pub open spec fn operand_well_formed(operand2: Operand, shift: Shift) -> bool {
    &&& (operand2 matches Operand::Register(r) ==> r < 16)
    &&& (shift.1 matches Operand::Register(r) ==> r < 16)
    &&& (operand2 is Immediate ==> (shift.0 == ShiftType::ROR && (shift.1 matches Operand::Immediate(n) && n <= 32)))
    &&& (shift.1 matches Operand::Immediate(n) ==> n <= 32)
}

fn shift_type_from_bits(v: u32) -> (r: ShiftType)
    ensures
        r == shift_type_of(v),
{
    if v == 0 {
        ShiftType::LSL
    } else if v == 1 {
        ShiftType::LSR
    } else if v == 2 {
        ShiftType::ASR
    } else {
        ShiftType::ROR
    }
}

/// Splits the second operand field of a data processing instruction.
pub fn get_operand2_and_shift(instruction: u32) -> (r: (Operand, Shift))
    ensures
        r == spec_operand2_and_shift(instruction),
        operand_well_formed(r.0, r.1),
{
    proof {
        crate::bits::lemma_register_fields(instruction);
        crate::bits::lemma_word_fields(instruction);
    }
    if bit_is_set(instruction, 25) {
        let shift_amount = (instruction & 0x0000_0F00u32) >> 7u32;
        return (
            Operand::Immediate(instruction & 0x0000_00FFu32),
            Shift(ShiftType::ROR, Operand::Immediate(shift_amount)),
        );
    } else {
        let operand2 = Operand::Register(instruction & 0x0000_000Fu32);
        let shift_type = (instruction & 0x0000_0060u32) >> 5u32;
        let shift_amount = if bit_is_set(instruction, 4) {
            Operand::Register((instruction & 0x0000_0F00u32) >> 8u32)
        } else {
            let immediate = (instruction & 0x0000_0F80u32) >> 7u32;
            if immediate == 0 {
                return (
                    operand2,
                    if shift_type == 0 {
                        Shift(ShiftType::LSL, Operand::Immediate(0))
                    } else if shift_type == 1 {
                        Shift(ShiftType::LSR, Operand::Immediate(32))
                    } else if shift_type == 2 {
                        Shift(ShiftType::ASR, Operand::Immediate(32))
                    } else {
                        Shift(ShiftType::RRX, Operand::Immediate(1))
                    },
                );
            }
            Operand::Immediate(immediate)
        };
        let shift_type = shift_type_from_bits(shift_type);
        return (operand2, Shift(shift_type, shift_amount));
    }
}

/// The meaning of a data processing instruction: the opcode in bits 21-24
/// picks the operation; TST, TEQ, CMP and CMN without the S bit are the PSR
/// transfers MRS and MSR.
pub open spec fn spec_decode_data_processing(instruction: u32) -> DataProcessingInstruction {
    let opcode = (instruction & 0x01E0_0000u32) >> 21u32;
    let rn = (0x000F_0000u32 & instruction) >> 16u32;
    let rd = (0x0000_F000u32 & instruction) >> 12u32;
    let operand2 = spec_operand2_and_shift(instruction).0;
    let shift = spec_operand2_and_shift(instruction).1;
    let set_flags = bit_of(instruction, 20);
    if opcode == 0 {
        DataProcessingInstruction::Logical(LogicalInstruction::And, Some(rd), Some(rn), operand2, shift, set_flags)
    } else if opcode == 1 {
        DataProcessingInstruction::Logical(LogicalInstruction::Eor, Some(rd), Some(rn), operand2, shift, set_flags)
    } else if opcode == 2 {
        DataProcessingInstruction::Arithmetic(ArithmeticInstruction::Sub, Some(rd), rn, operand2, shift, set_flags)
    } else if opcode == 3 {
        DataProcessingInstruction::Arithmetic(ArithmeticInstruction::Rsb, Some(rd), rn, operand2, shift, set_flags)
    } else if opcode == 4 {
        DataProcessingInstruction::Arithmetic(ArithmeticInstruction::Add, Some(rd), rn, operand2, shift, set_flags)
    } else if opcode == 5 {
        DataProcessingInstruction::Arithmetic(ArithmeticInstruction::Adc, Some(rd), rn, operand2, shift, set_flags)
    } else if opcode == 6 {
        DataProcessingInstruction::Arithmetic(ArithmeticInstruction::Sbc, Some(rd), rn, operand2, shift, set_flags)
    } else if opcode == 7 {
        DataProcessingInstruction::Arithmetic(ArithmeticInstruction::Rsc, Some(rd), rn, operand2, shift, set_flags)
    } else if opcode == 8 {
        if !bit_of(instruction, 20) {
            DataProcessingInstruction::MRS(rd, PSRRegister::CPSR)
        } else {
            DataProcessingInstruction::Logical(LogicalInstruction::Tst, None, Some(rn), operand2, shift, true)
        }
    } else if opcode == 9 {
        if !bit_of(instruction, 20) {
            DataProcessingInstruction::MSR(PSRRegister::CPSR, bit_of(instruction, 19), bit_of(instruction, 16), operand2, (instruction & 0x0000_0F00u32) >> 7u32)
        } else {
            DataProcessingInstruction::Logical(LogicalInstruction::Teq, None, Some(rn), operand2, shift, true)
        }
    } else if opcode == 10 {
        if !bit_of(instruction, 20) {
            DataProcessingInstruction::MRS(rd, PSRRegister::SPSR)
        } else {
            DataProcessingInstruction::Arithmetic(ArithmeticInstruction::Cmp, None, rn, operand2, shift, true)
        }
    } else if opcode == 11 {
        if !bit_of(instruction, 20) {
            DataProcessingInstruction::MSR(PSRRegister::SPSR, bit_of(instruction, 19), bit_of(instruction, 16), operand2, (instruction & 0x0000_0F00u32) >> 7u32)
        } else {
            DataProcessingInstruction::Arithmetic(ArithmeticInstruction::Cmn, None, rn, operand2, shift, true)
        }
    } else if opcode == 12 {
        DataProcessingInstruction::Logical(LogicalInstruction::Orr, Some(rd), Some(rn), operand2, shift, set_flags)
    } else if opcode == 13 {
        DataProcessingInstruction::Logical(LogicalInstruction::Mov, Some(rd), None, operand2, shift, set_flags)
    } else if opcode == 14 {
        DataProcessingInstruction::Logical(LogicalInstruction::Bic, Some(rd), Some(rn), operand2, shift, set_flags)
    } else {
        DataProcessingInstruction::Logical(LogicalInstruction::Mvn, Some(rd), None, operand2, shift, set_flags)
    }
}

impl CPU {
    /// Decodes a data processing instruction.
    pub fn decode_data_processing_instruction(instruction: ARMByteCode) -> (r: DataProcessingInstruction)
        ensures
            r == spec_decode_data_processing(instruction),
    {
        let opcode = (instruction & 0x01E0_0000u32) >> 21u32;
        let rn = (0x000F_0000u32 & instruction) >> 16u32;
        let rd = (0x0000_F000u32 & instruction) >> 12u32;
        let (operand2, shift) = get_operand2_and_shift(instruction);
        let set_flags = bit_is_set(instruction, 20);
        proof {
            crate::bits::lemma_word_fields(instruction);
        }
        if opcode == 0 {
            DataProcessingInstruction::Logical(LogicalInstruction::And, Some(rd), Some(rn), operand2, shift, set_flags)
        } else if opcode == 1 {
            DataProcessingInstruction::Logical(LogicalInstruction::Eor, Some(rd), Some(rn), operand2, shift, set_flags)
        } else if opcode == 2 {
            DataProcessingInstruction::Arithmetic(ArithmeticInstruction::Sub, Some(rd), rn, operand2, shift, set_flags)
        } else if opcode == 3 {
            DataProcessingInstruction::Arithmetic(ArithmeticInstruction::Rsb, Some(rd), rn, operand2, shift, set_flags)
        } else if opcode == 4 {
            DataProcessingInstruction::Arithmetic(ArithmeticInstruction::Add, Some(rd), rn, operand2, shift, set_flags)
        } else if opcode == 5 {
            DataProcessingInstruction::Arithmetic(ArithmeticInstruction::Adc, Some(rd), rn, operand2, shift, set_flags)
        } else if opcode == 6 {
            DataProcessingInstruction::Arithmetic(ArithmeticInstruction::Sbc, Some(rd), rn, operand2, shift, set_flags)
        } else if opcode == 7 {
            DataProcessingInstruction::Arithmetic(ArithmeticInstruction::Rsc, Some(rd), rn, operand2, shift, set_flags)
        } else if opcode == 8 {
            if !bit_is_set(instruction, 20) {
                DataProcessingInstruction::MRS(rd, PSRRegister::CPSR)
            } else {
                DataProcessingInstruction::Logical(LogicalInstruction::Tst, None, Some(rn), operand2, shift, true)
            }
        } else if opcode == 9 {
            if !bit_is_set(instruction, 20) {
                DataProcessingInstruction::MSR(PSRRegister::CPSR, bit_is_set(instruction, 19), bit_is_set(instruction, 16), operand2, (instruction & 0x0000_0F00u32) >> 7u32)
            } else {
                DataProcessingInstruction::Logical(LogicalInstruction::Teq, None, Some(rn), operand2, shift, true)
            }
        } else if opcode == 10 {
            if !bit_is_set(instruction, 20) {
                DataProcessingInstruction::MRS(rd, PSRRegister::SPSR)
            } else {
                DataProcessingInstruction::Arithmetic(ArithmeticInstruction::Cmp, None, rn, operand2, shift, true)
            }
        } else if opcode == 11 {
            if !bit_is_set(instruction, 20) {
                DataProcessingInstruction::MSR(PSRRegister::SPSR, bit_is_set(instruction, 19), bit_is_set(instruction, 16), operand2, (instruction & 0x0000_0F00u32) >> 7u32)
            } else {
                DataProcessingInstruction::Arithmetic(ArithmeticInstruction::Cmn, None, rn, operand2, shift, true)
            }
        } else if opcode == 12 {
            DataProcessingInstruction::Logical(LogicalInstruction::Orr, Some(rd), Some(rn), operand2, shift, set_flags)
        } else if opcode == 13 {
            DataProcessingInstruction::Logical(LogicalInstruction::Mov, Some(rd), None, operand2, shift, set_flags)
        } else if opcode == 14 {
            DataProcessingInstruction::Logical(LogicalInstruction::Bic, Some(rd), Some(rn), operand2, shift, set_flags)
        } else {
            DataProcessingInstruction::Logical(LogicalInstruction::Mvn, Some(rd), None, operand2, shift, set_flags)
        }
    }
}

/// The signed overflow of an addition `a + b (+ carry)` with result `r`: the
/// operands agree in sign and the result does not.
pub open spec fn spec_overflow(a: u32, b: u32, r: u32) -> bool {
    bit_of(a, 31) == bit_of(b, 31) && bit_of(r, 31) != bit_of(b, 31)
}

/// The carry out of `a + b + c` with 32-bit result `r`: the result differs
/// from the exact sum.
pub open spec fn spec_carry(r: u32, a: u32, b: u32, c: u32) -> bool {
    r as int != a as int + b as int + c as int
}

/// The PSR value `p` after the N and Z flags are set from `r`.
pub open spec fn logical_flags(p: u32, r: u32) -> u32 {
    psr_with(psr_with(p, FlagsRegister::N, bit_of(r, 31)), FlagsRegister::Z, r == 0)
}

/// The PSR value `p` after N, Z, V and C are set from the addition
/// `a + b + c` with 32-bit result `r`.
pub open spec fn arithmetic_flags(p: u32, r: u32, a: u32, b: u32, c: u32) -> u32 {
    psr_with(
        psr_with(
            psr_with(psr_with(p, FlagsRegister::N, bit_of(r, 31)), FlagsRegister::Z, r == 0),
            FlagsRegister::V,
            spec_overflow(a, b, r),
        ),
        FlagsRegister::C,
        spec_carry(r, a, b, c),
    )
}

/// What the logical flags read back as.
pub proof fn lemma_logical_flags(p: u32, r: u32)
    ensures
        PSR(logical_flags(p, r)).spec_flag(FlagsRegister::N) == bit_of(r, 31),
        PSR(logical_flags(p, r)).spec_flag(FlagsRegister::Z) == (r == 0),
        PSR(logical_flags(p, r)).spec_flag(FlagsRegister::C) == PSR(p).spec_flag(FlagsRegister::C),
        PSR(logical_flags(p, r)).spec_flag(FlagsRegister::V) == PSR(p).spec_flag(FlagsRegister::V),
        PSR(logical_flags(p, r)).spec_mode() == PSR(p).spec_mode(),
        PSR(logical_flags(p, r)).spec_instruction_mode() == PSR(p).spec_instruction_mode(),
{
    let p1 = psr_with(p, FlagsRegister::N, bit_of(r, 31));
    lemma_psr_with(p, FlagsRegister::N, bit_of(r, 31));
    lemma_psr_with(p1, FlagsRegister::Z, r == 0);
    assert(PSR(p1).spec_flag(FlagsRegister::C) == PSR(p).spec_flag(FlagsRegister::C));
    assert(PSR(p1).spec_flag(FlagsRegister::V) == PSR(p).spec_flag(FlagsRegister::V));
    assert(PSR(logical_flags(p, r)).spec_flag(FlagsRegister::N) == PSR(p1).spec_flag(FlagsRegister::N));
}

/// What the arithmetic flags read back as.
pub proof fn lemma_arithmetic_flags(p: u32, r: u32, a: u32, b: u32, c: u32)
    ensures
        PSR(arithmetic_flags(p, r, a, b, c)).spec_flag(FlagsRegister::N) == bit_of(r, 31),
        PSR(arithmetic_flags(p, r, a, b, c)).spec_flag(FlagsRegister::Z) == (r == 0),
        PSR(arithmetic_flags(p, r, a, b, c)).spec_flag(FlagsRegister::V) == spec_overflow(a, b, r),
        PSR(arithmetic_flags(p, r, a, b, c)).spec_flag(FlagsRegister::C) == spec_carry(r, a, b, c),
        PSR(arithmetic_flags(p, r, a, b, c)).spec_mode() == PSR(p).spec_mode(),
        PSR(arithmetic_flags(p, r, a, b, c)).spec_instruction_mode() == PSR(p).spec_instruction_mode(),
{
    let p1 = psr_with(p, FlagsRegister::N, bit_of(r, 31));
    let p2 = psr_with(p1, FlagsRegister::Z, r == 0);
    let p3 = psr_with(p2, FlagsRegister::V, spec_overflow(a, b, r));
    lemma_psr_with(p, FlagsRegister::N, bit_of(r, 31));
    lemma_psr_with(p1, FlagsRegister::Z, r == 0);
    lemma_psr_with(p2, FlagsRegister::V, spec_overflow(a, b, r));
    lemma_psr_with(p3, FlagsRegister::C, spec_carry(r, a, b, c));
    assert(PSR(p3).spec_flag(FlagsRegister::N) == PSR(p2).spec_flag(FlagsRegister::N));
    assert(PSR(p2).spec_flag(FlagsRegister::N) == PSR(p1).spec_flag(FlagsRegister::N));
    assert(PSR(p3).spec_flag(FlagsRegister::Z) == PSR(p2).spec_flag(FlagsRegister::Z));
    assert(PSR(arithmetic_flags(p, r, a, b, c)).spec_flag(FlagsRegister::N) == PSR(p3).spec_flag(FlagsRegister::N));
    assert(PSR(arithmetic_flags(p, r, a, b, c)).spec_flag(FlagsRegister::Z) == PSR(p3).spec_flag(FlagsRegister::Z));
    assert(PSR(arithmetic_flags(p, r, a, b, c)).spec_flag(FlagsRegister::V) == PSR(p3).spec_flag(FlagsRegister::V));
}

/// The value of a word read as a two's complement signed number.
pub open spec fn signed(x: u32) -> int {
    if x >= 0x8000_0000 {
        x as int - 0x1_0000_0000
    } else {
        x as int
    }
}

/// Bit 31 of a word is its sign.
pub proof fn lemma_bit31(x: u32)
    ensures
        bit_of(x, 31) == (x >= 0x8000_0000u32),
{
    crate::bits::lemma_word_bits(x, 0, 0);
}

/// The flags of an addition mean what the architecture says: for
/// `r = a + b + c` modulo 2^32 (with a carry-in of 0 or 1), C is set exactly
/// when the unsigned sum does not fit in 32 bits, V exactly when the signed
/// sum does not fit in 32 bits, N is the sign of the result and Z tells
/// whether it is zero.
pub proof fn lemma_addition_flags(a: u32, b: u32, c: u32, r: u32)
    requires
        c <= 1,
        r as int == (a as int + b as int + c as int) % 0x1_0000_0000,
    ensures
        spec_carry(r, a, b, c) == (a as int + b as int + c as int >= 0x1_0000_0000),
        spec_overflow(a, b, r) == !(-0x8000_0000 <= signed(a) + signed(b) + c <= 0x7FFF_FFFF),
        bit_of(r, 31) == (signed(r) < 0),
{
    lemma_bit31(a);
    lemma_bit31(b);
    lemma_bit31(r);
}

/// The flags of a subtraction `a - b`, computed as `a + !b + 1`, mean what
/// the architecture says: C is set exactly when no borrow occurs (`a >= b`),
/// V exactly when the signed difference does not fit in 32 bits, and Z
/// exactly when the operands are equal.
pub proof fn lemma_subtraction_flags(a: u32, b: u32, r: u32)
    requires
        r as int == (a as int - b as int) % 0x1_0000_0000,
    ensures
        r as int == (a as int + (!b) as int + 1) % 0x1_0000_0000,
        spec_carry(r, a, !b, 1) == (a >= b),
        spec_overflow(a, !b, r) == !(-0x8000_0000 <= signed(a) - signed(b) <= 0x7FFF_FFFF),
        (r == 0) == (a == b),
{
    crate::bits::lemma_word_bits(b, 0, 0);
    lemma_bit31(a);
    lemma_bit31(b);
    lemma_bit31(!b);
    lemma_bit31(r);
}

impl CPU {
    /// With `set_flags`, sets N and Z from `result`.
    pub fn set_logical_flags(&mut self, result: WORD, set_flags: bool)
        requires
            old(self).wf(),
        ensures
            final(self).wf(),
            final(self).cpsr.0 == if set_flags { logical_flags(old(self).cpsr.0, result) } else { old(self).cpsr.0 },
            old(self).same_but_cpsr(*final(self)),
    {
        if set_flags == false {
            return;
        }
        let n = get_bit(result, 31) > 0;
        self.set_flag_to(FlagsRegister::N, n);
        self.set_flag_to(FlagsRegister::Z, result == 0);
    }

    /// With `set_flags`, sets N and Z from `result` and C from the barrel
    /// shifter's carry out.
    pub fn set_arm_logical_flags(&mut self, result: WORD, set_flags: bool)
        requires
            old(self).wf(),
        ensures
            final(self).wf(),
            final(self).cpsr.0 == if set_flags {
                psr_with(logical_flags(old(self).cpsr.0, result), FlagsRegister::C, old(self).shifter_output > 0)
            } else {
                old(self).cpsr.0
            },
            old(self).same_but_cpsr(*final(self)),
    {
        if set_flags {
            self.set_logical_flags(result, set_flags);
            let c = self.shifter_output > 0;
            self.set_flag_to(FlagsRegister::C, c);
        }
    }

    /// With `set_flags`, sets N, Z, V and C for the addition
    /// `operand1 + operand2 + carry` whose 32-bit result is `result`.
    pub fn set_arithmetic_flags(&mut self, result: WORD, operand1: u32, operand2: u32, carry: u32, set_flags: bool)
        requires
            old(self).wf(),
        ensures
            final(self).wf(),
            final(self).cpsr.0 == if set_flags {
                arithmetic_flags(old(self).cpsr.0, result, operand1, operand2, carry)
            } else {
                old(self).cpsr.0
            },
            old(self).same_but_cpsr(*final(self)),
    {
        if set_flags == false {
            return;
        }
        let result_sign = get_bit(result, 31);
        let operand2_sign = get_bit(operand2, 31);
        self.set_flag_to(FlagsRegister::N, result_sign > 0);
        self.set_flag_to(FlagsRegister::Z, result == 0);
        let v = get_bit(operand1, 31) == operand2_sign && result_sign != operand2_sign;
        self.set_flag_to(FlagsRegister::V, v);
        let complete_add: u64 = operand1 as u64 + operand2 as u64 + carry as u64;
        let c = !(result as u64 == complete_add);
        self.set_flag_to(FlagsRegister::C, c);
    }
}

/// Arithmetic shift right of a word: the vacated high bits copy the sign.
pub open spec fn spec_asr(x: u32, n: u32) -> u32 {
    if bit_of(x, 31) {
        (x >> n) | !(0xFFFF_FFFFu32 >> n)
    } else {
        x >> n
    }
}

/// The barrel shifter: the shifted value and the carry out (0 or 1) for a
/// shift of `operand2` by `shift_amount` (the low byte of the amount), with
/// carry-in `carry`. `amount_operand` tells the encodings LSL #0, LSR #32
/// and ASR #32 of an immediate shift apart.
pub open spec fn spec_register_shift(
    shift_type: ShiftType,
    amount_operand: Operand,
    operand2: u32,
    shift_amount: u32,
    carry: u32,
) -> (u32, u32) {
    if shift_type == ShiftType::LSL && amount_operand == Operand::Immediate(0) {
        (operand2, carry)
    } else if shift_type == ShiftType::LSR && amount_operand == Operand::Immediate(32) {
        (0, (operand2 >> 31u32) & 1u32)
    } else if shift_type == ShiftType::ASR && amount_operand == Operand::Immediate(32) {
        if bit_of(operand2, 31) {
            (0xFFFF_FFFFu32, 1)
        } else {
            (0, 0)
        }
    } else {
        match shift_type {
            ShiftType::LSL => if shift_amount == 0 {
                (operand2, carry)
            } else if shift_amount < 32 {
                (operand2 << shift_amount, (operand2 >> (32 - shift_amount) as u32) & 1u32)
            } else if shift_amount == 32 {
                (0, operand2 & 0x1u32)
            } else {
                (0, 0)
            },
            ShiftType::LSR => if shift_amount == 0 {
                (operand2, carry)
            } else if shift_amount < 32 {
                (operand2 >> shift_amount, (operand2 >> (shift_amount - 1) as u32) & 1u32)
            } else if shift_amount == 32 {
                (0, operand2 >> 31u32)
            } else {
                (0, 0)
            },
            ShiftType::ASR => if shift_amount == 0 {
                (operand2, carry)
            } else if shift_amount < 32 {
                (spec_asr(operand2, shift_amount), (operand2 >> (shift_amount - 1) as u32) & 1u32)
            } else if (operand2 >> 31u32) > 0 {
                (0xFFFF_FFFFu32, 1)
            } else {
                (0, 0)
            },
            ShiftType::ROR => {
                let rotate_amount = shift_amount & 0x1Fu32;
                if shift_amount == 0 {
                    (operand2, carry)
                } else if rotate_amount > 0 {
                    (spec_rotate_right(operand2, rotate_amount), (operand2 >> (rotate_amount - 1) as u32) & 1u32)
                } else {
                    (operand2, operand2 >> 31u32)
                }
            },
            ShiftType::RRX => ((operand2 >> 1u32) | (carry << 31u32), (operand2 >> 0u32) & 1u32),
        }
    }
}

/// The barrel shifter; see `spec_register_shift`.
pub fn barrel_shift(
    shift_type: ShiftType,
    amount_operand: Operand,
    operand2: u32,
    shift_amount: u32,
    carry: u32,
) -> (r: (u32, u32))
    ensures
        r == spec_register_shift(shift_type, amount_operand, operand2, shift_amount, carry),
{
    if shift_type == ShiftType::LSL && amount_operand == Operand::Immediate(0) {
        return (operand2, carry);
    } else if shift_type == ShiftType::LSR && amount_operand == Operand::Immediate(32) {
        return (0, get_bit(operand2, 31));
    } else if shift_type == ShiftType::ASR && amount_operand == Operand::Immediate(32) {
        if get_bit(operand2, 31) > 0 {
            return (u32::MAX, 1);
        } else {
            return (0, 0);
        }
    }
    match shift_type {
        ShiftType::LSL => {
            if shift_amount == 0 {
                (operand2, carry)
            } else if shift_amount < 32 {
                (operand2 << shift_amount, get_bit(operand2, 32 - shift_amount))
            } else if shift_amount == 32 {
                (0, operand2 & 0x1)
            } else {
                (0, 0)
            }
        },
        ShiftType::LSR => {
            if shift_amount == 0 {
                (operand2, carry)
            } else if shift_amount < 32 {
                (operand2 >> shift_amount, get_bit(operand2, shift_amount - 1))
            } else if shift_amount == 32 {
                (0, operand2 >> 31u32)
            } else {
                (0, 0)
            }
        },
        ShiftType::ASR => {
            if shift_amount == 0 {
                (operand2, carry)
            } else if shift_amount < 32 {
                let shifted = if bit_is_set(operand2, 31) {
                    (operand2 >> shift_amount) | !(0xFFFF_FFFFu32 >> shift_amount)
                } else {
                    operand2 >> shift_amount
                };
                (shifted, get_bit(operand2, shift_amount - 1))
            } else if (operand2 >> 31u32) > 0 {
                (u32::MAX, 1)
            } else {
                (0, 0)
            }
        },
        ShiftType::ROR => {
            let rotate_amount = shift_amount & 0x1F;
            if shift_amount == 0 {
                (operand2, carry)
            } else if rotate_amount > 0 {
                proof {
                    crate::bits::lemma_word_bits(shift_amount, 0, 0);
                }
                (rotate_right(operand2, rotate_amount), get_bit(operand2, rotate_amount - 1))
            } else {
                (operand2, operand2 >> 31u32)
            }
        },
        ShiftType::RRX => {
            ((operand2 >> 1u32) | (carry << 31u32), get_bit(operand2, 0))
        },
    }
}

/// Where the bits of a word go under the shifts by `n` places (0 < n < 32)
/// and under a rotate through a carry bit `c`.
proof fn lemma_shift_bits(x: u32, n: u32, c: u32)
    by (bit_vector)
    requires
        0 < n < 32,
        c <= 1,
    ensures
        forall|i: u32| #![trigger ((x << n) >> i) & 1u32]
            i < 32 ==> ((x << n) >> i) & 1u32 == if i >= n { (x >> ((i - n) as u32)) & 1u32 } else { 0u32 },
        forall|i: u32| #![trigger ((x >> n) >> i) & 1u32]
            i < 32 ==> ((x >> n) >> i) & 1u32 == if i + n < 32 { (x >> ((i + n) as u32)) & 1u32 } else { 0u32 },
        forall|i: u32| #![trigger (((x >> n) | !(0xFFFF_FFFFu32 >> n)) >> i) & 1u32]
            i < 32 ==> (((x >> n) | !(0xFFFF_FFFFu32 >> n)) >> i) & 1u32 == if i + n < 32 {
                (x >> ((i + n) as u32)) & 1u32
            } else {
                1u32
            },
        forall|i: u32| #![trigger (((x >> 1u32) | (c << 31u32)) >> i) & 1u32]
            i < 32 ==> (((x >> 1u32) | (c << 31u32)) >> i) & 1u32 == if i == 31 { c } else { (x >> ((i + 1) as u32)) & 1u32 },
{
}

/// The shifts of the barrel shifter by an amount `n` with 0 < n < 32 move
/// every bit of the operand `x` by `n` places: LSL moves bit `i - n` to bit
/// `i` and fills with zeros, LSR moves bit `i + n` to bit `i` and fills
/// with zeros, ASR does the same but fills with the sign bit. The carry out
/// is the last bit shifted out: bit `32 - n` for LSL, bit `n - 1` for LSR
/// and ASR. RRX shifts right by one, puts the carry in at bit 31 and
/// carries bit 0 out. (The immediate encodings LSL #0, LSR #32 and ASR #32
/// are told apart by `amount_operand` and are left out.)
pub proof fn lemma_shifts_move_bits(amount_operand: Operand, x: u32, n: u32, carry: u32)
    requires
        0 < n < 32,
        carry <= 1,
    ensures
        amount_operand != Operand::Immediate(0) ==> {
            let (r, c) = spec_register_shift(ShiftType::LSL, amount_operand, x, n, carry);
            &&& forall|i: u32| #![trigger bit_of(r, i)]
                i < 32 ==> bit_of(r, i) == (i >= n && bit_of(x, (i - n) as u32))
            &&& c == if bit_of(x, (32 - n) as u32) { 1u32 } else { 0u32 }
        },
        amount_operand != Operand::Immediate(32) ==> {
            let (r, c) = spec_register_shift(ShiftType::LSR, amount_operand, x, n, carry);
            &&& forall|i: u32| #![trigger bit_of(r, i)]
                i < 32 ==> bit_of(r, i) == (i + n < 32 && bit_of(x, (i + n) as u32))
            &&& c == if bit_of(x, (n - 1) as u32) { 1u32 } else { 0u32 }
        },
        amount_operand != Operand::Immediate(32) ==> {
            let (r, c) = spec_register_shift(ShiftType::ASR, amount_operand, x, n, carry);
            &&& forall|i: u32| #![trigger bit_of(r, i)]
                i < 32 ==> bit_of(r, i) == bit_of(x, if i + n < 32 { (i + n) as u32 } else { 31u32 })
            &&& c == if bit_of(x, (n - 1) as u32) { 1u32 } else { 0u32 }
        },
        ({
            let (r, c) = spec_register_shift(ShiftType::RRX, amount_operand, x, n, carry);
            &&& forall|i: u32| #![trigger bit_of(r, i)]
                i < 32 ==> bit_of(r, i) == if i == 31 { carry == 1 } else { bit_of(x, (i + 1) as u32) }
            &&& c == if bit_of(x, 0) { 1u32 } else { 0u32 }
        }),
{
    lemma_shift_bits(x, n, carry);
    crate::bits::lemma_word_bits(x, (32 - n) as u32, 0);
    crate::bits::lemma_word_bits(x, (n - 1) as u32, 0);
    crate::bits::lemma_word_bits(x, 0, 0);
    crate::bits::lemma_word_bits(x, 31, 0);
    assert(x >> 0u32 == x) by (bit_vector);
    let asr = spec_asr(x, n);
    assert forall|i: u32| i < 32 implies #[trigger] bit_of(asr, i) == bit_of(
        x,
        if i + n < 32 { (i + n) as u32 } else { 31u32 },
    ) by {
        assert((((x >> n) | !(0xFFFF_FFFFu32 >> n)) >> i) & 1u32 == if i + n < 32 {
            (x >> ((i + n) as u32)) & 1u32
        } else {
            1u32
        });
        assert(((x >> n) >> i) & 1u32 == if i + n < 32 { (x >> ((i + n) as u32)) & 1u32 } else { 0u32 });
    }
}

/// Rotating right by `k` places (0 < k < 32) moves bit `(i + k) % 32` of
/// the word to bit `i`, so no bit is lost, and the last bit rotated out,
/// bit `k - 1`, comes back as bit 31.
proof fn lemma_rotation_bits(x: u32, k: u32)
    by (bit_vector)
    requires
        0 < k < 32,
    ensures
        forall|i: u32| #![trigger ((((x >> k) | (x << ((32u32 - k) as u32))) >> i) & 1u32)]
            i < 32 ==> (((x >> k) | (x << ((32u32 - k) as u32))) >> i) & 1u32 == (x >> (((i + k) % 32) as u32)) & 1u32,
        (((x >> k) | (x << ((32u32 - k) as u32))) >> 31u32) & 1u32 == (x >> ((k - 1) as u32)) & 1u32,
        ((((x >> k) | (x << ((32u32 - k) as u32))) >> ((32u32 - k) as u32)) | (((x >> k) | (x << ((32u32 - k) as u32))) << k)) == x,
{
}

/// A rotate right by an amount `n` that is not a multiple of 32 keeps every
/// bit of the operand: bit `i` of the result is bit `(i + n) % 32` of the
/// operand (so ROR #8 of 0xFF is 0xFF00_0000). The carry out is the last
/// bit rotated out, bit `n % 32 - 1` of the operand, which is also bit 31
/// of the result; and rotating the result right by the remaining
/// `32 - n % 32` places gives the operand back.
pub proof fn lemma_ror_rotates(amount_operand: Operand, x: u32, n: u32, carry: u32)
    requires
        n % 32 != 0,
    ensures
        forall|i: u32| #![trigger bit_of(spec_register_shift(ShiftType::ROR, amount_operand, x, n, carry).0, i)]
            i < 32 ==> bit_of(spec_register_shift(ShiftType::ROR, amount_operand, x, n, carry).0, i)
                == bit_of(x, ((i + n % 32) % 32) as u32),
        spec_register_shift(ShiftType::ROR, amount_operand, x, n, carry).1 == if bit_of(x, (n % 32 - 1) as u32) { 1u32 } else { 0u32 },
        bit_of(spec_register_shift(ShiftType::ROR, amount_operand, x, n, carry).0, 31) == bit_of(x, (n % 32 - 1) as u32),
        spec_register_shift(
            ShiftType::ROR,
            amount_operand,
            spec_register_shift(ShiftType::ROR, amount_operand, x, n, carry).0,
            (32 - n % 32) as u32,
            carry,
        ).0 == x,
{
    let k = n & 0x1Fu32;
    assert(n & 0x1Fu32 == n % 32 && (n & 0x1Fu32) & 31u32 == n & 0x1Fu32) by (bit_vector);
    lemma_rotation_bits(x, k);
    crate::bits::lemma_word_bits(x, (k - 1) as u32, 0);
    let r = spec_register_shift(ShiftType::ROR, amount_operand, x, n, carry).0;
    assert(r == (x >> k) | (x << ((32u32 - k) as u32)));
    let m = (32 - k) as u32;
    assert(m & 0x1Fu32 == m && m & 31u32 == m) by (bit_vector)
        requires
            0 < m < 32,
    ;
    assert forall|i: u32| i < 32 implies #[trigger] bit_of(r, i) == bit_of(x, ((i + k) % 32) as u32) by {
        assert((((x >> k) | (x << ((32u32 - k) as u32))) >> i) & 1u32 == (x >> (((i + k) % 32) as u32)) & 1u32);
    }
}

/// The shifted second operand of an immediate operand: the 8-bit value
/// rotated right, with the carry out from bit 31 of the result (or the old
/// C flag when there is no rotation).
pub open spec fn spec_immediate_shift(imm: u32, rotate_amount: u32, carry: u32) -> (u32, u32) {
    if rotate_amount == 0 {
        (imm, carry)
    } else {
        (spec_rotate_right(imm, rotate_amount), (imm >> (rotate_amount - 1) as u32) & 1u32)
    }
}

impl CPU {
    /// The C flag as 0 or 1.
    pub open spec fn carry_bit(self) -> u32 {
        if self.flag(FlagsRegister::C) { 1 } else { 0 }
    }

    /// The value of the shifted register and the amount it is shifted by:
    /// the operand register reads 4 more when it is the PC and the amount
    /// comes from a register; the amount is the low byte.
    pub open spec fn shift_inputs(self, operand2_register: REGISTER, shift: Shift) -> (u32, u32) {
        match shift.1 {
            Operand::Register(r) => (
                if operand2_register == 15 {
                    self.reg(operand2_register as int).wrapping_add(4)
                } else {
                    self.reg(operand2_register as int)
                },
                self.reg(r as int) & 0xFFu32,
            ),
            Operand::Immediate(imm) => (self.reg(operand2_register as int), imm & 0xFFu32),
        }
    }

    /// `other` equals this CPU but for the barrel shifter's carry out.
    pub open spec fn same_but_shifter(self, other: CPU) -> bool {
        &&& other.registers == self.registers
        &&& other.cpsr == self.cpsr
        &&& other.is_halted == self.is_halted
        &&& other.prefetch == self.prefetch
        &&& other.executed_instruction_hex == self.executed_instruction_hex
        &&& other.spsr == self.spsr
        &&& other.cycles == self.cycles
        &&& other.interrupt_triggered == self.interrupt_triggered
        &&& other.instruction_count == self.instruction_count
        &&& other.show_executed_instructions == self.show_executed_instructions
    }

    /// Rotates an immediate operand; the shift must be an immediate rotation.
    pub fn execute_immediate_shift(&mut self, imm: u32, shift: Shift) -> (r: u32)
        requires
            old(self).wf(),
            shift.0 == ShiftType::ROR,
            shift.1 matches Operand::Immediate(n) && n <= 32,
        ensures
            final(self).wf(),
            (r, final(self).shifter_output) == spec_immediate_shift(
                imm,
                shift.1->Immediate_0,
                old(self).carry_bit(),
            ),
            old(self).same_but_shifter(*final(self)),
    {
        let Shift(_, amount) = shift;
        let rotate_amount = match amount {
            Operand::Immediate(n) => n,
            Operand::Register(_) => 0,
        };
        if rotate_amount == 0 {
            self.shifter_output = self.get_flag(FlagsRegister::C);
            imm
        } else {
            self.shifter_output = get_bit(imm, rotate_amount - 1);
            rotate_right(imm, rotate_amount)
        }
    }

    /// Shifts a register operand, recording the carry out of the shifter;
    /// a shift by a register takes one more cycle.
    pub fn execute_register_shift(
        &mut self,
        cycles: &mut CYCLES,
        operand2_register: REGISTER,
        shift: Shift,
        set_flags: bool,
    ) -> (r: u32)
        requires
            old(self).wf(),
            operand2_register < 16,
            shift.1 matches Operand::Register(s) ==> s < 16,
        ensures
            final(self).wf(),
            (r, final(self).shifter_output) == spec_register_shift(
                shift.0,
                shift.1,
                old(self).shift_inputs(operand2_register, shift).0,
                old(self).shift_inputs(operand2_register, shift).1,
                old(self).carry_bit(),
            ),
            *final(cycles) == if shift.1 is Register { old(cycles).wrapping_add(1) } else { *old(cycles) },
            old(self).same_but_shifter(*final(self)),
    {
        let Shift(shift_type, shift_amount_operand) = shift;
        let mut operand2 = self.get_register(operand2_register);
        let shift_amount = match shift_amount_operand {
            Operand::Register(register) => {
                if operand2_register == 15 {
                    operand2 = operand2.wrapping_add(4);
                }
                *cycles = cycles.wrapping_add(1);
                self.get_register(register)
            },
            Operand::Immediate(imm) => imm,
        } & 0xFF;
        let carry = self.get_flag(FlagsRegister::C);
        let (result, carry_out) = barrel_shift(shift_type, shift_amount_operand, operand2, shift_amount, carry);
        self.shifter_output = carry_out;
        result
    }
}

/// The sum of three words modulo 2^32.
pub open spec fn add3(x: u32, y: u32, z: u32) -> u32 {
    ((x as int + y as int + z as int) % 0x1_0000_0000) as u32
}

/// The addition `x + y + carry` that an arithmetic instruction performs on
/// its first operand `rn` and shifted second operand `op2`, with C flag `c`:
/// a subtraction adds the complement and a carry of 1 (or of the C flag for
/// the carry forms); the reverse forms swap the operands.
pub open spec fn arith_operands(op: ArithmeticInstruction, rn: u32, op2: u32, c: u32) -> (u32, u32, u32) {
    match op {
        ArithmeticInstruction::Sub => (rn, !op2, 1),
        ArithmeticInstruction::Cmp => (rn, !op2, 1),
        ArithmeticInstruction::Rsb => (!rn, op2, 1),
        ArithmeticInstruction::Add => (rn, op2, 0),
        ArithmeticInstruction::Cmn => (rn, op2, 0),
        ArithmeticInstruction::Adc => (rn, op2, c),
        ArithmeticInstruction::Sbc => (rn, !op2, c),
        ArithmeticInstruction::Rsc => (!rn, op2, c),
    }
}

/// The result of an arithmetic instruction.
pub open spec fn arith_result(op: ArithmeticInstruction, rn: u32, op2: u32, c: u32) -> u32 {
    add3(arith_operands(op, rn, op2, c).0, arith_operands(op, rn, op2, c).1, arith_operands(op, rn, op2, c).2)
}

/// Whether an arithmetic instruction sets the flags: the compares always do.
pub open spec fn arith_sets_flags(op: ArithmeticInstruction, set_flags: bool) -> bool {
    set_flags || op == ArithmeticInstruction::Cmp || op == ArithmeticInstruction::Cmn
}

/// After `CMP a, b` the condition codes compare `a` with `b` as their names
/// say, whatever the flags were before: EQ/NE test equality, CS/CC and
/// HI/LS compare the operands as unsigned numbers, GE/LT and GT/LE
/// compare them as two's complement signed numbers, MI/PL test the sign of
/// the 32-bit difference, VS/VC whether the signed difference overflows,
/// and AL always holds. In particular with Z set (equal operands) GT fails
/// and LE holds.
pub proof fn lemma_compare_conditions(p: u32, a: u32, b: u32, c: u32)
    ensures
        ({
            let ops = arith_operands(ArithmeticInstruction::Cmp, a, b, c);
            let r = arith_result(ArithmeticInstruction::Cmp, a, b, c);
            let flags = PSR(arithmetic_flags(p, r, ops.0, ops.1, ops.2));
            &&& spec_condition_passed(0, flags) == (a == b)
            &&& spec_condition_passed(1, flags) == (a != b)
            &&& spec_condition_passed(2, flags) == (a >= b)
            &&& spec_condition_passed(3, flags) == (a < b)
            &&& spec_condition_passed(4, flags) == ((a as int - b as int) % 0x1_0000_0000 >= 0x8000_0000)
            &&& spec_condition_passed(5, flags) == ((a as int - b as int) % 0x1_0000_0000 < 0x8000_0000)
            &&& spec_condition_passed(6, flags) == !(-0x8000_0000 <= signed(a) - signed(b) <= 0x7FFF_FFFF)
            &&& spec_condition_passed(7, flags) == (-0x8000_0000 <= signed(a) - signed(b) <= 0x7FFF_FFFF)
            &&& spec_condition_passed(8, flags) == (a > b)
            &&& spec_condition_passed(9, flags) == (a <= b)
            &&& spec_condition_passed(10, flags) == (signed(a) >= signed(b))
            &&& spec_condition_passed(11, flags) == (signed(a) < signed(b))
            &&& spec_condition_passed(12, flags) == (signed(a) > signed(b))
            &&& spec_condition_passed(13, flags) == (signed(a) <= signed(b))
            &&& spec_condition_passed(14, flags)
        }),
{
    let r = arith_result(ArithmeticInstruction::Cmp, a, b, c);
    crate::bits::lemma_word_bits(b, 0, 0);
    assert(r as int == (a as int - b as int) % 0x1_0000_0000);
    lemma_subtraction_flags(a, b, r);
    lemma_arithmetic_flags(p, r, a, !b, 1);
    lemma_bit31(r);
    let d = signed(a) - signed(b);
    if -0x8000_0000 <= d <= 0x7FFF_FFFF {
        assert(signed(r) == d);
    } else if d > 0x7FFF_FFFF {
        assert(signed(r) == d - 0x1_0000_0000);
    } else {
        assert(signed(r) == d + 0x1_0000_0000);
    }
}

/// Wrapping subtraction and addition are additions of three words.
pub proof fn lemma_wrapping_forms(a: u32, b: u32, c: u32)
    requires
        c <= 1,
    ensures
        a.wrapping_sub(b) == add3(a, !b, 1),
        a.wrapping_add(b) == add3(a, b, 0),
        a.wrapping_add(b).wrapping_add(c) == add3(a, b, c),
        a.wrapping_sub(b).wrapping_add(c).wrapping_sub(1) == add3(a, !b, c),
{
    crate::bits::lemma_word_bits(b, 0, 0);
}

/// The result of a logical instruction on its first operand `rn` and shifted
/// second operand `op2`.
pub open spec fn logical_result(op: LogicalInstruction, rn: u32, op2: u32) -> u32 {
    match op {
        LogicalInstruction::And => rn & op2,
        LogicalInstruction::Eor => rn ^ op2,
        LogicalInstruction::Tst => rn & op2,
        LogicalInstruction::Teq => rn ^ op2,
        LogicalInstruction::Orr => rn | op2,
        LogicalInstruction::Mov => op2,
        LogicalInstruction::Bic => rn & !op2,
        LogicalInstruction::Mvn => !op2,
    }
}

impl CPU {
    /// The shifted second operand and the shifter's carry out.
    pub open spec fn shifted_operand(self, operand2: Operand, shift: Shift) -> (u32, u32) {
        match operand2 {
            Operand::Immediate(imm) => spec_immediate_shift(imm, shift.1->Immediate_0, self.carry_bit()),
            Operand::Register(r) => spec_register_shift(
                shift.0,
                shift.1,
                self.shift_inputs(r, shift).0,
                self.shift_inputs(r, shift).1,
                self.carry_bit(),
            ),
        }
    }

    /// The cycles after the second operand is shifted: a shift by a register
    /// takes one more.
    pub open spec fn shift_cycles(operand2: Operand, shift: Shift, cycles: u8) -> u8 {
        if operand2 is Register && shift.1 is Register {
            cycles.wrapping_add(1)
        } else {
            cycles
        }
    }

    /// The first operand of an arithmetic instruction: register `rn`, read 4
    /// further on when the shift amount comes from a register.
    pub open spec fn arith_rn_value(self, rn: REGISTER, shift: Shift) -> u32 {
        if shift.1 is Register {
            self.reg(rn as int).wrapping_add(4)
        } else {
            self.reg(rn as int)
        }
    }

    /// The first operand of a logical instruction: 0 when there is none, and
    /// the PC read 4 further on when the shift amount comes from a register.
    pub open spec fn logical_rn_value(self, rn: Option<REGISTER>, shift: Shift) -> u32 {
        match rn {
            Some(r) => if r == 15 && shift.1 is Register {
                self.reg(r as int).wrapping_add(4)
            } else {
                self.reg(r as int)
            },
            None => 0,
        }
    }

    /// `other` equals this CPU but for the CPSR and the shifter's carry out.
    pub open spec fn same_but_alu(self, other: CPU) -> bool {
        &&& other.registers == self.registers
        &&& other.is_halted == self.is_halted
        &&& other.prefetch == self.prefetch
        &&& other.executed_instruction_hex == self.executed_instruction_hex
        &&& other.spsr == self.spsr
        &&& other.cycles == self.cycles
        &&& other.interrupt_triggered == self.interrupt_triggered
        &&& other.instruction_count == self.instruction_count
        &&& other.show_executed_instructions == self.show_executed_instructions
    }

    /// Shifts the second operand, whichever kind it is.
    fn shift_operand2(&mut self, cycles: &mut CYCLES, operand2: Operand, shift: Shift, set_flags: bool) -> (r: u32)
        requires
            old(self).wf(),
            operand_well_formed(operand2, shift),
        ensures
            final(self).wf(),
            (r, final(self).shifter_output) == old(self).shifted_operand(operand2, shift),
            *final(cycles) == CPU::shift_cycles(operand2, shift, *old(cycles)),
            old(self).same_but_shifter(*final(self)),
    {
        match operand2 {
            Operand::Immediate(imm) => self.execute_immediate_shift(imm, shift),
            Operand::Register(reg) => self.execute_register_shift(cycles, reg, shift, set_flags),
        }
    }

    /// Executes an arithmetic instruction and returns its result; the flags
    /// are set as `set_flags` says, and always by the compares.
    pub fn execute_arithmetic_instruction(
        &mut self,
        cycles: &mut CYCLES,
        instruction: ArithmeticInstruction,
        rn: REGISTER,
        operand2: Operand,
        shift: Shift,
        set_flags: bool,
    ) -> (r: u32)
        requires
            old(self).wf(),
            rn < 16,
            operand_well_formed(operand2, shift),
        ensures
            final(self).wf(),
            r == arith_result(
                instruction,
                old(self).arith_rn_value(rn, shift),
                old(self).shifted_operand(operand2, shift).0,
                old(self).carry_bit(),
            ),
            final(self).shifter_output == old(self).shifted_operand(operand2, shift).1,
            final(self).cpsr.0 == if arith_sets_flags(instruction, set_flags) {
                arithmetic_flags(
                    old(self).cpsr.0,
                    r,
                    arith_operands(instruction, old(self).arith_rn_value(rn, shift), old(self).shifted_operand(operand2, shift).0, old(self).carry_bit()).0,
                    arith_operands(instruction, old(self).arith_rn_value(rn, shift), old(self).shifted_operand(operand2, shift).0, old(self).carry_bit()).1,
                    arith_operands(instruction, old(self).arith_rn_value(rn, shift), old(self).shifted_operand(operand2, shift).0, old(self).carry_bit()).2,
                )
            } else {
                old(self).cpsr.0
            },
            *final(cycles) == CPU::shift_cycles(operand2, shift, *old(cycles)),
            old(self).same_but_alu(*final(self)),
    {
        let mut rn_val = self.get_register(rn);
        if let Shift(_, Operand::Register(_)) = shift {
            rn_val = rn_val.wrapping_add(4);
        }
        let shifted_operand2 = self.shift_operand2(cycles, operand2, shift, set_flags);
        let carry = self.get_flag(FlagsRegister::C);
        proof {
            lemma_wrapping_forms(rn_val, shifted_operand2, carry);
            lemma_wrapping_forms(shifted_operand2, rn_val, carry);
        }
        match instruction {
            ArithmeticInstruction::Sub => {
                let result = rn_val.wrapping_sub(shifted_operand2);
                self.set_arithmetic_flags(result, rn_val, !shifted_operand2, 1, set_flags);
                result
            },
            ArithmeticInstruction::Rsb => {
                let result = shifted_operand2.wrapping_sub(rn_val);
                proof {
                    assert(add3(shifted_operand2, !rn_val, 1) == add3(!rn_val, shifted_operand2, 1));
                }
                self.set_arithmetic_flags(result, !rn_val, shifted_operand2, 1, set_flags);
                result
            },
            ArithmeticInstruction::Add => {
                let result = rn_val.wrapping_add(shifted_operand2);
                self.set_arithmetic_flags(result, rn_val, shifted_operand2, 0, set_flags);
                result
            },
            ArithmeticInstruction::Adc => {
                let result = rn_val.wrapping_add(shifted_operand2).wrapping_add(carry);
                self.set_arithmetic_flags(result, rn_val, shifted_operand2, carry, set_flags);
                result
            },
            ArithmeticInstruction::Sbc => {
                let result = rn_val.wrapping_sub(shifted_operand2).wrapping_add(carry).wrapping_sub(1);
                self.set_arithmetic_flags(result, rn_val, !shifted_operand2, carry, set_flags);
                result
            },
            ArithmeticInstruction::Rsc => {
                let result = shifted_operand2.wrapping_sub(rn_val).wrapping_add(carry).wrapping_sub(1);
                proof {
                    assert(add3(shifted_operand2, !rn_val, carry) == add3(!rn_val, shifted_operand2, carry));
                }
                self.set_arithmetic_flags(result, !rn_val, shifted_operand2, carry, set_flags);
                result
            },
            ArithmeticInstruction::Cmp => {
                let result = rn_val.wrapping_sub(shifted_operand2);
                self.set_arithmetic_flags(result, rn_val, !shifted_operand2, 1, true);
                result
            },
            ArithmeticInstruction::Cmn => {
                let result = rn_val.wrapping_add(shifted_operand2);
                self.set_arithmetic_flags(result, rn_val, shifted_operand2, 0, true);
                result
            },
        }
    }

    /// Executes a logical instruction and returns its result; with
    /// `set_flags` N and Z follow the result and C the shifter's carry out.
    pub fn execute_logical_instruction(
        &mut self,
        cycles: &mut CYCLES,
        instruction: LogicalInstruction,
        rn: Option<REGISTER>,
        operand2: Operand,
        shift: Shift,
        set_flags: bool,
    ) -> (r: u32)
        requires
            old(self).wf(),
            rn matches Some(n) ==> n < 16,
            operand_well_formed(operand2, shift),
        ensures
            final(self).wf(),
            r == logical_result(
                instruction,
                old(self).logical_rn_value(rn, shift),
                old(self).shifted_operand(operand2, shift).0,
            ),
            final(self).shifter_output == old(self).shifted_operand(operand2, shift).1,
            final(self).cpsr.0 == if set_flags {
                psr_with(logical_flags(old(self).cpsr.0, r), FlagsRegister::C, final(self).shifter_output > 0)
            } else {
                old(self).cpsr.0
            },
            *final(cycles) == CPU::shift_cycles(operand2, shift, *old(cycles)),
            old(self).same_but_alu(*final(self)),
    {
        let rn_val = match rn {
            Some(rn) => {
                let mut rn_val = self.get_register(rn);
                if rn == 15 {
                    if let Shift(_, Operand::Register(_)) = shift {
                        rn_val = rn_val.wrapping_add(4);
                    }
                }
                rn_val
            },
            None => 0,
        };
        let shifted_operand2 = self.shift_operand2(cycles, operand2, shift, set_flags);
        let result = match instruction {
            LogicalInstruction::And => rn_val & shifted_operand2,
            LogicalInstruction::Eor => rn_val ^ shifted_operand2,
            LogicalInstruction::Tst => rn_val & shifted_operand2,
            LogicalInstruction::Teq => rn_val ^ shifted_operand2,
            LogicalInstruction::Orr => rn_val | shifted_operand2,
            LogicalInstruction::Mov => shifted_operand2,
            LogicalInstruction::Bic => rn_val & !shifted_operand2,
            LogicalInstruction::Mvn => !shifted_operand2,
        };
        self.set_arm_logical_flags(result, set_flags);
        result
    }
}

/// The bits of a PSR that `MSR` writes when asked for the flags, and those
/// it writes when asked for the control byte (the THUMB bit excepted).
pub const FLG_MASK: u32 = 0xFF00_0000;
pub const CTL_MASK: u32 = 0x0000_00DF;

/// The destination register of a decoded instruction, if it writes one.
pub open spec fn dp_destination(instruction: DataProcessingInstruction) -> Option<REGISTER> {
    match instruction {
        DataProcessingInstruction::Arithmetic(_, rd, _, _, _, _) => rd,
        DataProcessingInstruction::Logical(_, rd, _, _, _, _) => rd,
        _ => None,
    }
}

/// Whether the instruction writes the PC with the S bit set: it then returns
/// from an exception, restoring the CPSR from the SPSR and refilling the
/// pipeline, and sets no flags itself.
pub open spec fn dp_is_return(instruction: DataProcessingInstruction) -> bool {
    match instruction {
        DataProcessingInstruction::Arithmetic(_, rd, _, _, _, set_flags) => set_flags && rd == Some(15u32),
        DataProcessingInstruction::Logical(_, rd, _, _, _, set_flags) => set_flags && rd == Some(15u32),
        _ => false,
    }
}

/// Whether the instruction writes the PC without the S bit: it then jumps
/// to its result, refilling the pipeline from there.
pub open spec fn dp_is_branch(instruction: DataProcessingInstruction) -> bool {
    match instruction {
        DataProcessingInstruction::Arithmetic(_, rd, _, _, _, set_flags) => !set_flags && rd == Some(15u32),
        DataProcessingInstruction::Logical(_, rd, _, _, _, set_flags) => !set_flags && rd == Some(15u32),
        _ => false,
    }
}

/// Whether the registers a decoded instruction names exist and its operand
/// is one that the decoder gives.
pub open spec fn dp_well_formed(instruction: DataProcessingInstruction) -> bool {
    match instruction {
        DataProcessingInstruction::Arithmetic(_, rd, rn, operand2, shift, _) => {
            &&& rd matches Some(d) ==> d < 16
            &&& rn < 16
            &&& operand_well_formed(operand2, shift)
        },
        DataProcessingInstruction::Logical(_, rd, rn, operand2, shift, _) => {
            &&& rd matches Some(d) ==> d < 16
            &&& rn matches Some(n) ==> n < 16
            &&& operand_well_formed(operand2, shift)
        },
        DataProcessingInstruction::MSR(_, _, _, operand, _) => operand matches Operand::Register(r) ==> r < 16,
        DataProcessingInstruction::MRS(rd, _) => rd < 16,
    }
}

/// The PSR value that `MSR` writes: `dest` with the flag byte of `operand`
/// when `move_flags`, and with its control bits when `move_ctl` and the CPU
/// is not in user mode.
pub open spec fn msr_result(dest: u32, operand: u32, move_flags: bool, move_ctl: bool, mode: CPUMode) -> u32 {
    let with_flags = if move_flags {
        (dest & !FLG_MASK) | (operand & FLG_MASK)
    } else {
        dest
    };
    if move_ctl && !(mode is USER) {
        (with_flags & !CTL_MASK) | (operand & CTL_MASK)
    } else {
        with_flags
    }
}

impl CPU {
    /// The result, the CPSR bits and the shifter's carry out that the ALU
    /// part of a data processing instruction leaves.
    pub open spec fn alu_outcome(self, instruction: DataProcessingInstruction) -> (u32, u32, u32) {
        match instruction {
            DataProcessingInstruction::Arithmetic(op, rd, rn, operand2, shift, set_flags) => {
                let sets = set_flags && !dp_is_return(instruction);
                let shifted = self.shifted_operand(operand2, shift);
                let t = arith_operands(op, self.arith_rn_value(rn, shift), shifted.0, self.carry_bit());
                let result = add3(t.0, t.1, t.2);
                (
                    result,
                    if arith_sets_flags(op, sets) {
                        arithmetic_flags(self.cpsr.0, result, t.0, t.1, t.2)
                    } else {
                        self.cpsr.0
                    },
                    shifted.1,
                )
            },
            DataProcessingInstruction::Logical(op, rd, rn, operand2, shift, set_flags) => {
                let sets = set_flags && !dp_is_return(instruction);
                let shifted = self.shifted_operand(operand2, shift);
                let result = logical_result(op, self.logical_rn_value(rn, shift), shifted.0);
                (
                    result,
                    if sets {
                        psr_with(logical_flags(self.cpsr.0, result), FlagsRegister::C, shifted.1 > 0)
                    } else {
                        self.cpsr.0
                    },
                    shifted.1,
                )
            },
            _ => (0, self.cpsr.0, self.shifter_output),
        }
    }

    /// The cycles that the ALU part takes.
    pub open spec fn alu_cycles(instruction: DataProcessingInstruction) -> u8 {
        match instruction {
            DataProcessingInstruction::Arithmetic(_, _, _, operand2, shift, _) => CPU::shift_cycles(operand2, shift, 0),
            DataProcessingInstruction::Logical(_, _, _, operand2, shift, _) => CPU::shift_cycles(operand2, shift, 0),
            _ => 0,
        }
    }

    /// `other` equals this CPU but for the active registers, the CPSR and the
    /// shifter's carry out.
    pub open spec fn same_but_result(self, other: CPU) -> bool {
        &&& other.registers.registers_user == self.registers.registers_user
        &&& other.registers.registers_svc == self.registers.registers_svc
        &&& other.registers.registers_abt == self.registers.registers_abt
        &&& other.registers.registers_irq == self.registers.registers_irq
        &&& other.registers.registers_und == self.registers.registers_und
        &&& other.registers.current_mode == self.registers.current_mode
        &&& other.is_halted == self.is_halted
        &&& other.prefetch == self.prefetch
        &&& other.executed_instruction_hex == self.executed_instruction_hex
        &&& other.spsr == self.spsr
        &&& other.cycles == self.cycles
        &&& other.interrupt_triggered == self.interrupt_triggered
        &&& other.instruction_count == self.instruction_count
        &&& other.show_executed_instructions == self.show_executed_instructions
    }

    /// `next` is this CPU after the ALU part of an arithmetic or logical
    /// instruction: the destination written, the flags and the shifter's
    /// carry out as `alu_outcome` says.
    pub open spec fn alu_applied(self, instruction: DataProcessingInstruction, next: CPU) -> bool {
        &&& next.wf()
        &&& next.registers.active_registers@ == match dp_destination(instruction) {
            Some(d) => self.registers.active_registers@.update(d as int, self.alu_outcome(instruction).0),
            None => self.registers.active_registers@,
        }
        &&& next.cpsr.0 == self.alu_outcome(instruction).1
        &&& next.shifter_output == self.alu_outcome(instruction).2
        &&& self.same_but_result(next)
    }

    /// The size of an instruction in the state that a PSR selects.
    pub open spec fn step_of(psr: PSR) -> u32 {
        match psr.spec_instruction_mode() {
            InstructionMode::ARM => 4,
            InstructionMode::THUMB => 2,
        }
    }

    /// Whether a return to `target` can refill the pipeline in the state
    /// that the SPSR restores.
    pub open spec fn return_fetch_ok(self, memory: GBAMemory, target: u32) -> bool {
        let step = CPU::step_of(self.restored_cpsr());
        &&& memory.fits((target & 0xFFFF_FFFEu32) as usize, step as usize)
        &&& memory.fits((target.wrapping_add(step) & 0xFFFF_FFFEu32) as usize, step as usize)
    }

    /// The operand of `MSR`: a register, or an immediate rotated right.
    pub open spec fn msr_operand(self, operand: Operand, rotation: u32) -> u32 {
        match operand {
            Operand::Register(r) => self.reg(r as int),
            Operand::Immediate(imm) => spec_rotate_right(imm, rotation),
        }
    }

    /// What the PSR transfers need: a CPSR written by `MSR` holds a mode
    /// that the register file can enter.
    pub open spec fn psr_transfer_ok(self, instruction: DataProcessingInstruction) -> bool {
        match instruction {
            DataProcessingInstruction::MSR(PSRRegister::CPSR, move_flags, move_ctl, operand, rotation) => {
                let value = PSR(msr_result(self.cpsr.0, self.msr_operand(operand, rotation), move_flags, move_ctl, self.cpsr.spec_mode()));
                value.has_valid_mode() && is_banked_mode(value.spec_mode())
            },
            _ => true,
        }
    }

    /// Writes the result of an arithmetic or logical instruction; a write to
    /// the PC refills the pipeline, after restoring the CPSR on a return.
    fn write_back_result(
        &mut self,
        memory: &mut GBAMemory,
        rd: Option<REGISTER>,
        result: u32,
        is_return: bool,
        cycles: CYCLES,
    ) -> (r: CYCLES)
        requires
            old(self).wf(),
            rd matches Some(d) ==> d < 16,
            is_return ==> rd == Some(15u32),
            is_return ==> old(self).spsr_restorable(),
            is_return ==> old(self).return_fetch_ok(*old(memory), result),
            !is_return && rd == Some(15u32) ==> old(self).jump_fetch_ok(*old(memory), result),
            cycles <= 1,
        ensures
            !is_return && rd != Some(15u32) ==> final(self).wf() && final(self).registers.active_registers@ == match rd {
                Some(d) => old(self).registers.active_registers@.update(d as int, result),
                None => old(self).registers.active_registers@,
            } && old(self).same_but_active(*final(self)) && r == cycles,
            !is_return && rd == Some(15u32) ==> exists|written: CPU|
                {
                    &&& written.wf()
                    &&& written.registers.active_registers@ == old(self).registers.active_registers@.update(15, result)
                    &&& old(self).same_but_active(written)
                    &&& written.flushed(*old(memory), *final(self))
                    &&& r == cycles + written.flush_cycles()
                },
            is_return ==> exists|written: CPU, restored: CPU|
                {
                    &&& written.wf()
                    &&& written.registers.active_registers@ == old(self).registers.active_registers@.update(15, result)
                    &&& old(self).same_but_active(written)
                    &&& written.spsr_restored(restored)
                    &&& restored.flushed(*old(memory), *final(self))
                    &&& r == cycles + restored.flush_cycles()
                },
            *final(memory) == *old(memory),
    {
        match rd {
            Some(d) => {
                self.set_register(d, result);
                if is_return {
                    let ghost written = *self;
                    self.pop_spsr();
                    let ghost restored = *self;
                    proof {
                        assert(written.current_spsr() == old(self).current_spsr());
                        if let Some(s) = written.current_spsr() {
                            lemma_switch_keeps_general_registers(written.registers, s.spec_mode(), restored.registers, 15);
                        }
                        assert(restored.reg(15) == result);
                        assert(restored.cpsr == old(self).restored_cpsr());
                        assert(restored.can_flush(*old(memory)));
                    }
                    let flush = self.flush_pipeline(memory);
                    proof {
                        assert(restored.flush_cycles() <= 16);
                    }
                    cycles + flush
                } else if d == 15 {
                    let ghost written = *self;
                    proof {
                        assert(written.pc() == result & 0xFFFF_FFFEu32);
                        assert(written.can_flush(*old(memory)));
                    }
                    let flush = self.flush_pipeline(memory);
                    proof {
                        assert(written.flush_cycles() <= 16);
                    }
                    cycles + flush
                } else {
                    cycles
                }
            },
            None => cycles,
        }
    }

    /// Executes a decoded data processing instruction and returns the
    /// cycles it took.
    pub fn execute_data_processing_instruction(
        &mut self,
        memory: &mut GBAMemory,
        data_processing_instruction: DataProcessingInstruction,
    ) -> (r: CYCLES)
        requires
            old(self).wf(),
            dp_well_formed(data_processing_instruction),
            old(self).psr_transfer_ok(data_processing_instruction),
            dp_is_return(data_processing_instruction) ==> old(self).spsr_restorable(),
            dp_is_return(data_processing_instruction) ==> old(self).return_fetch_ok(
                *old(memory),
                old(self).alu_outcome(data_processing_instruction).0,
            ),
            dp_is_branch(data_processing_instruction) ==> old(self).jump_fetch_ok(
                *old(memory),
                old(self).alu_outcome(data_processing_instruction).0,
            ),
        ensures
            final(self).wf(),
            *final(memory) == *old(memory),
            (data_processing_instruction is Arithmetic || data_processing_instruction is Logical) && !dp_is_return(
                data_processing_instruction,
            ) && !dp_is_branch(data_processing_instruction) ==> old(self).alu_applied(data_processing_instruction, *final(self))
                && r == CPU::alu_cycles(data_processing_instruction),
            dp_is_branch(data_processing_instruction) ==> exists|written: CPU|
                {
                    &&& old(self).alu_applied(data_processing_instruction, written)
                    &&& written.flushed(*old(memory), *final(self))
                    &&& r == CPU::alu_cycles(data_processing_instruction) + written.flush_cycles()
                },
            dp_is_return(data_processing_instruction) ==> exists|written: CPU, restored: CPU|
                {
                    &&& old(self).alu_applied(data_processing_instruction, written)
                    &&& written.spsr_restored(restored)
                    &&& restored.flushed(*old(memory), *final(self))
                    &&& r == CPU::alu_cycles(data_processing_instruction) + restored.flush_cycles()
                },
            data_processing_instruction matches DataProcessingInstruction::MSR(psr, move_flags, move_ctl, operand, rotation)
                ==> r == 0 && old(self).msr_applied(psr, move_flags, move_ctl, old(self).msr_operand(operand, rotation), *final(self)),
            data_processing_instruction matches DataProcessingInstruction::MRS(rd, psr) ==> r == 0 && old(self).mrs_applied(rd, psr, *final(self)),
    {
        match data_processing_instruction {
            DataProcessingInstruction::Arithmetic(instruction, rd, rn, operand2, shift, set_flags) => {
                let is_return = match rd {
                    Some(d) => set_flags && d == 15,
                    None => false,
                };
                let mut cycles: CYCLES = 0;
                let result = self.execute_arithmetic_instruction(&mut cycles, instruction, rn, operand2, shift, set_flags && !is_return);
                let ghost after_alu = *self;
                proof {
                    let t = arith_operands(instruction, old(self).arith_rn_value(rn, shift), old(self).shifted_operand(operand2, shift).0, old(self).carry_bit());
                    lemma_arithmetic_flags(old(self).cpsr.0, result, t.0, t.1, t.2);
                    assert(after_alu.cpsr.spec_mode() == old(self).cpsr.spec_mode());
                    assert(after_alu.current_spsr() == old(self).current_spsr());
                    assert(CPU::step_of(after_alu.restored_cpsr()) == CPU::step_of(old(self).restored_cpsr()));
                }
                let r = self.write_back_result(memory, rd, result, is_return, cycles);
                proof {
                    if is_return {
                        let (written, restored) = choose|written: CPU, restored: CPU| {
                            &&& written.wf()
                            &&& written.registers.active_registers@ == after_alu.registers.active_registers@.update(15, result)
                            &&& after_alu.same_but_active(written)
                            &&& written.spsr_restored(restored)
                            &&& restored.flushed(*old(memory), *self)
                            &&& r == cycles + restored.flush_cycles()
                        };
                        assert(old(self).alu_applied(data_processing_instruction, written));
                    } else if rd == Some(15u32) {
                        let written = choose|written: CPU| {
                            &&& written.wf()
                            &&& written.registers.active_registers@ == after_alu.registers.active_registers@.update(15, result)
                            &&& after_alu.same_but_active(written)
                            &&& written.flushed(*old(memory), *self)
                            &&& r == cycles + written.flush_cycles()
                        };
                        assert(old(self).alu_applied(data_processing_instruction, written));
                    }
                }
                r
            },
            DataProcessingInstruction::Logical(instruction, rd, rn, operand2, shift, set_flags) => {
                let is_return = match rd {
                    Some(d) => set_flags && d == 15,
                    None => false,
                };
                let mut cycles: CYCLES = 0;
                let result = self.execute_logical_instruction(&mut cycles, instruction, rn, operand2, shift, set_flags && !is_return);
                let ghost after_alu = *self;
                proof {
                    lemma_logical_flags(old(self).cpsr.0, result);
                }
                let r = self.write_back_result(memory, rd, result, is_return, cycles);
                proof {
                    if rd == Some(15u32) && !is_return {
                        let written = choose|written: CPU| {
                            &&& written.wf()
                            &&& written.registers.active_registers@ == after_alu.registers.active_registers@.update(15, result)
                            &&& after_alu.same_but_active(written)
                            &&& written.flushed(*old(memory), *self)
                            &&& r == cycles + written.flush_cycles()
                        };
                        assert(old(self).alu_applied(data_processing_instruction, written));
                    }
                    if is_return {
                        let (written, restored) = choose|written: CPU, restored: CPU| {
                            &&& written.wf()
                            &&& written.registers.active_registers@ == after_alu.registers.active_registers@.update(15, result)
                            &&& after_alu.same_but_active(written)
                            &&& written.spsr_restored(restored)
                            &&& restored.flushed(*old(memory), *self)
                            &&& r == cycles + restored.flush_cycles()
                        };
                        assert(old(self).alu_applied(data_processing_instruction, written));
                    }
                }
                r
            },
            DataProcessingInstruction::MSR(psr, move_flags, move_ctl, op, shift) => {
                let operand = match op {
                    Operand::Register(reg) => self.get_register(reg),
                    Operand::Immediate(imm) => rotate_right(imm, shift),
                };
                self.move_to_psr(psr, move_flags, move_ctl, operand);
                0
            },
            DataProcessingInstruction::MRS(rd, psr) => {
                self.move_from_psr(rd, psr);
                0
            },
        }
    }
}

impl CPU {
    /// `next` equals this CPU in everything but the registers, the status
    /// registers and the shifter's carry out.
    pub open spec fn same_machine(self, next: CPU) -> bool {
        &&& next.is_halted == self.is_halted
        &&& next.prefetch == self.prefetch
        &&& next.executed_instruction_hex == self.executed_instruction_hex
        &&& next.shifter_output == self.shifter_output
        &&& next.cycles == self.cycles
        &&& next.interrupt_triggered == self.interrupt_triggered
        &&& next.instruction_count == self.instruction_count
        &&& next.show_executed_instructions == self.show_executed_instructions
    }

    /// `next` is this CPU after `MSR` wrote `operand` into `psr`: into the
    /// CPSR, switching the register banks to its mode, or into the current
    /// mode's SPSR, which a mode without one ignores.
    pub open spec fn msr_applied(self, psr: PSRRegister, move_flags: bool, move_ctl: bool, operand: u32, next: CPU) -> bool {
        &&& next.wf()
        &&& match psr {
            PSRRegister::CPSR => {
                let value = PSR(msr_result(self.cpsr.0, operand, move_flags, move_ctl, self.cpsr.spec_mode()));
                &&& next.cpsr == value
                &&& self.registers.switched_to(value.spec_mode(), next.registers)
                &&& next.spsr == self.spsr
            },
            PSRRegister::SPSR => {
                &&& next.cpsr == self.cpsr
                &&& next.registers == self.registers
                &&& next.spsr@ == match spsr_index(self.cpsr.spec_mode()) {
                    Some(i) => self.spsr@.update(
                        i,
                        PSR(msr_result(self.spsr@[i].0, operand, move_flags, move_ctl, self.cpsr.spec_mode())),
                    ),
                    None => self.spsr@,
                }
            },
        }
        &&& self.same_machine(next)
    }

    /// `next` is this CPU after `MRS` copied `psr` into register `rd`; a mode
    /// without an SPSR leaves the register alone.
    pub open spec fn mrs_applied(self, rd: REGISTER, psr: PSRRegister, next: CPU) -> bool {
        &&& next.wf()
        &&& next.registers.active_registers@ == match psr {
            PSRRegister::CPSR => self.registers.active_registers@.update(rd as int, self.cpsr.0),
            PSRRegister::SPSR => match self.current_spsr() {
                Some(s) => self.registers.active_registers@.update(rd as int, s.0),
                None => self.registers.active_registers@,
            },
        }
        &&& self.same_but_active(next)
    }

    /// Writes `operand` into a status register, as `MSR` does.
    fn move_to_psr(&mut self, psr: PSRRegister, move_flags: bool, move_ctl: bool, operand: u32)
        requires
            old(self).wf(),
            psr == PSRRegister::CPSR ==> PSR(msr_result(old(self).cpsr.0, operand, move_flags, move_ctl, old(self).cpsr.spec_mode())).has_valid_mode(),
            psr == PSRRegister::CPSR ==> is_banked_mode(PSR(msr_result(old(self).cpsr.0, operand, move_flags, move_ctl, old(self).cpsr.spec_mode())).spec_mode()),
        ensures
            old(self).msr_applied(psr, move_flags, move_ctl, operand, *final(self)),
    {
        let current_cpu_mode = self.get_cpu_mode();
        let mut destination_psr: u32 = match psr {
            PSRRegister::SPSR => match self.get_current_spsr() {
                Some(spsr) => spsr.bits(),
                None => {
                    return;
                },
            },
            PSRRegister::CPSR => self.get_cpsr().bits(),
        };
        if move_flags {
            destination_psr = (destination_psr & !FLG_MASK) | (operand & FLG_MASK);
        }
        if move_ctl && !matches!(current_cpu_mode, CPUMode::USER) {
            destination_psr = (destination_psr & !CTL_MASK) | (operand & CTL_MASK);
        }
        match psr {
            PSRRegister::SPSR => self.set_current_spsr(PSR(destination_psr)),
            PSRRegister::CPSR => self.set_cpsr(PSR(destination_psr)),
        }
    }

    /// Copies a status register into `rd`, as `MRS` does.
    fn move_from_psr(&mut self, rd: REGISTER, psr: PSRRegister)
        requires
            old(self).wf(),
            rd < 16,
        ensures
            old(self).mrs_applied(rd, psr, *final(self)),
    {
        let source_psr = match psr {
            PSRRegister::SPSR => match self.get_current_spsr() {
                Some(spsr) => spsr,
                None => {
                    return;
                },
            },
            PSRRegister::CPSR => self.get_cpsr(),
        };
        self.set_register(rd, source_psr.bits());
    }
}

/// The two's complement negation of a word, as a word.
pub open spec fn neg(x: u32) -> u32 {
    ((0x1_0000_0000int - x) % 0x1_0000_0000int) as u32
}

/// Two wrapping additions add three words.
pub proof fn lemma_wrapping_add3(a: u32, b: u32, c: u32)
    ensures
        a.wrapping_add(b).wrapping_add(c) == add3(a, b, c),
        a.wrapping_add(b) == add3(a, b, 0),
{
}

impl CPU {
    /// `next` is this CPU with register `rd` set to `value` (when there is
    /// one) and the CPSR bits `bits`.
    pub open spec fn written_with_flags(self, rd: Option<REGISTER>, value: u32, bits: u32, next: CPU) -> bool {
        &&& next.wf()
        &&& next.registers.active_registers@ == match rd {
            Some(d) => self.registers.active_registers@.update(d as int, value),
            None => self.registers.active_registers@,
        }
        &&& next.cpsr.0 == bits
        &&& next.shifter_output == self.shifter_output
        &&& self.same_but_result(next)
    }

    /// `rd = operand1 + operand2`.
    pub fn arm_add(&mut self, rd: REGISTER, operand1: u32, operand2: u32, set_flags: bool)
        requires
            old(self).wf(),
            rd < 16,
        ensures
            old(self).written_with_flags(
                Some(rd),
                add3(operand1, operand2, 0),
                if set_flags { arithmetic_flags(old(self).cpsr.0, add3(operand1, operand2, 0), operand1, operand2, 0) } else { old(self).cpsr.0 },
                *final(self),
            ),
    {
        let result = operand1.wrapping_add(operand2);
        proof { lemma_wrapping_add3(operand1, operand2, 0); }
        self.set_arithmetic_flags(result, operand1, operand2, 0, set_flags);
        self.set_register(rd, result);
    }

    /// `rd = operand1 - operand2`, computed as `operand1 + !operand2 + 1`.
    pub fn arm_sub(&mut self, rd: REGISTER, operand1: u32, operand2: u32, set_flags: bool)
        requires
            old(self).wf(),
            rd < 16,
        ensures
            old(self).written_with_flags(
                Some(rd),
                add3(operand1, !operand2, 1),
                if set_flags { arithmetic_flags(old(self).cpsr.0, add3(operand1, !operand2, 1), operand1, !operand2, 1) } else { old(self).cpsr.0 },
                *final(self),
            ),
    {
        let result = operand1.wrapping_sub(operand2);
        proof { lemma_wrapping_forms(operand1, operand2, 0); }
        self.set_register(rd, result);
        self.set_arithmetic_flags(result, operand1, !operand2, 1, set_flags);
    }

    /// `rd = operand2 - operand1`, computed as `!operand1 + operand2 + 1`.
    pub fn arm_rsb(&mut self, rd: REGISTER, operand1: u32, operand2: u32, set_flags: bool)
        requires
            old(self).wf(),
            rd < 16,
        ensures
            old(self).written_with_flags(
                Some(rd),
                add3(!operand1, operand2, 1),
                if set_flags { arithmetic_flags(old(self).cpsr.0, add3(!operand1, operand2, 1), !operand1, operand2, 1) } else { old(self).cpsr.0 },
                *final(self),
            ),
    {
        let operand1 = !operand1;
        let result = operand2.wrapping_add(operand1).wrapping_add(1);
        proof {
            lemma_wrapping_add3(operand2, operand1, 1);
            assert(add3(operand2, operand1, 1) == add3(operand1, operand2, 1));
        }
        self.set_arithmetic_flags(result, operand1, operand2, 1, set_flags);
        self.set_register(rd, result);
    }

    /// `rd = operand1 + operand2 + C`.
    pub fn arm_adc(&mut self, rd: REGISTER, operand1: u32, operand2: u32, set_flags: bool)
        requires
            old(self).wf(),
            rd < 16,
        ensures
            old(self).written_with_flags(
                Some(rd),
                add3(operand1, operand2, old(self).carry_bit()),
                if set_flags { arithmetic_flags(old(self).cpsr.0, add3(operand1, operand2, old(self).carry_bit()), operand1, operand2, old(self).carry_bit()) } else { old(self).cpsr.0 },
                *final(self),
            ),
    {
        let carry = self.get_flag(FlagsRegister::C);
        let result = operand1.wrapping_add(operand2).wrapping_add(carry);
        proof { lemma_wrapping_add3(operand1, operand2, carry); }
        self.set_arithmetic_flags(result, operand1, operand2, carry, set_flags);
        self.set_register(rd, result);
    }

    /// `rd = operand1 + (-operand2) + (-C)`: the second operand and the C flag are negated.
    pub fn arm_sbc(&mut self, rd: REGISTER, operand1: u32, operand2: u32, set_flags: bool)
        requires
            old(self).wf(),
            rd < 16,
        ensures
            old(self).written_with_flags(
                Some(rd),
                add3(operand1, neg(operand2), neg(old(self).carry_bit())),
                if set_flags { arithmetic_flags(old(self).cpsr.0, add3(operand1, neg(operand2), neg(old(self).carry_bit())), operand1, neg(operand2), neg(old(self).carry_bit())) } else { old(self).cpsr.0 },
                *final(self),
            ),
    {
        let carry = self.get_flag(FlagsRegister::C);
        let operand2 = twos_complement(operand2);
        let carry = twos_complement(carry);
        let result = operand1.wrapping_add(operand2).wrapping_add(carry);
        proof { lemma_wrapping_add3(operand1, operand2, carry); }
        self.set_arithmetic_flags(result, operand1, operand2, carry, set_flags);
        self.set_register(rd, result);
    }

    /// `rd = (-operand1) + operand2 + (-C)`: the first operand and the C flag are negated.
    pub fn arm_rsc(&mut self, rd: REGISTER, operand1: u32, operand2: u32, set_flags: bool)
        requires
            old(self).wf(),
            rd < 16,
        ensures
            old(self).written_with_flags(
                Some(rd),
                add3(neg(operand1), operand2, neg(old(self).carry_bit())),
                if set_flags { arithmetic_flags(old(self).cpsr.0, add3(neg(operand1), operand2, neg(old(self).carry_bit())), neg(operand1), operand2, neg(old(self).carry_bit())) } else { old(self).cpsr.0 },
                *final(self),
            ),
    {
        let carry = self.get_flag(FlagsRegister::C);
        let operand1 = twos_complement(operand1);
        let carry = twos_complement(carry);
        let result = operand1.wrapping_add(operand2).wrapping_add(carry);
        proof { lemma_wrapping_add3(operand1, operand2, carry); }
        self.set_arithmetic_flags(result, operand1, operand2, carry, set_flags);
        self.set_register(rd, result);
    }

    /// Sets the flags of `operand1 - operand2`, computed as `operand1 + !operand2 + 1`.
    pub fn arm_cmp(&mut self, _rd: REGISTER, operand1: u32, operand2: u32, _set_flags: bool)
        requires
            old(self).wf(),
        ensures
            old(self).written_with_flags(
                None,
                add3(operand1, !operand2, 1),
                arithmetic_flags(old(self).cpsr.0, add3(operand1, !operand2, 1), operand1, !operand2, 1),
                *final(self),
            ),
    {
        let operand2 = !operand2;
        let result = operand1.wrapping_add(operand2).wrapping_add(1);
        proof { lemma_wrapping_add3(operand1, operand2, 1); }
        self.set_arithmetic_flags(result, operand1, operand2, 1, true);
    }

    /// Sets the flags of `operand1 + operand2`.
    pub fn arm_cmn(&mut self, _rd: REGISTER, operand1: u32, operand2: u32, _set_flags: bool)
        requires
            old(self).wf(),
        ensures
            old(self).written_with_flags(
                None,
                add3(operand1, operand2, 0),
                arithmetic_flags(old(self).cpsr.0, add3(operand1, operand2, 0), operand1, operand2, 0),
                *final(self),
            ),
    {
        let result = operand1.wrapping_add(operand2);
        proof { lemma_wrapping_add3(operand1, operand2, 0); }
        self.set_arithmetic_flags(result, operand1, operand2, 0, true);
    }

    /// `rd = operand1 & operand2`.
    pub fn arm_and(&mut self, rd: REGISTER, operand1: u32, operand2: u32, set_flags: bool)
        requires
            old(self).wf(),
            rd < 16,
        ensures
            old(self).written_with_flags(Some(rd), operand1 & operand2, if set_flags { logical_flags(old(self).cpsr.0, operand1 & operand2) } else { old(self).cpsr.0 }, *final(self)),
    {
        let result = operand1 & operand2;
        self.set_logical_flags(result, set_flags);
        self.set_register(rd, result);
    }

    /// `rd = operand1 ^ operand2`.
    pub fn arm_eor(&mut self, rd: REGISTER, operand1: u32, operand2: u32, set_flags: bool)
        requires
            old(self).wf(),
            rd < 16,
        ensures
            old(self).written_with_flags(Some(rd), operand1 ^ operand2, if set_flags { logical_flags(old(self).cpsr.0, operand1 ^ operand2) } else { old(self).cpsr.0 }, *final(self)),
    {
        let result = operand1 ^ operand2;
        self.set_logical_flags(result, set_flags);
        self.set_register(rd, result);
    }

    /// `rd = operand1 | operand2`.
    pub fn arm_orr(&mut self, rd: REGISTER, operand1: u32, operand2: u32, set_flags: bool)
        requires
            old(self).wf(),
            rd < 16,
        ensures
            old(self).written_with_flags(Some(rd), operand1 | operand2, if set_flags { logical_flags(old(self).cpsr.0, operand1 | operand2) } else { old(self).cpsr.0 }, *final(self)),
    {
        let result = operand1 | operand2;
        self.set_logical_flags(result, set_flags);
        self.set_register(rd, result);
    }

    /// `rd = operand1 & !operand2`.
    pub fn arm_bic(&mut self, rd: REGISTER, operand1: u32, operand2: u32, set_flags: bool)
        requires
            old(self).wf(),
            rd < 16,
        ensures
            old(self).written_with_flags(Some(rd), operand1 & !operand2, if set_flags { logical_flags(old(self).cpsr.0, operand1 & !operand2) } else { old(self).cpsr.0 }, *final(self)),
    {
        let result = operand1 & !operand2;
        self.set_logical_flags(result, set_flags);
        self.set_register(rd, result);
    }

    /// `rd = operand2`.
    pub fn arm_mov(&mut self, rd: REGISTER, _operand1: u32, operand2: u32, set_flags: bool)
        requires
            old(self).wf(),
            rd < 16,
        ensures
            old(self).written_with_flags(Some(rd), operand2, if set_flags { logical_flags(old(self).cpsr.0, operand2) } else { old(self).cpsr.0 }, *final(self)),
    {
        let result = operand2;
        self.set_logical_flags(result, set_flags);
        self.set_register(rd, result);
    }

    /// `rd = !operand2`.
    pub fn arm_mvn(&mut self, rd: REGISTER, _operand1: u32, operand2: u32, set_flags: bool)
        requires
            old(self).wf(),
            rd < 16,
        ensures
            old(self).written_with_flags(Some(rd), !operand2, if set_flags { logical_flags(old(self).cpsr.0, !operand2) } else { old(self).cpsr.0 }, *final(self)),
    {
        let result = !operand2;
        self.set_logical_flags(result, set_flags);
        self.set_register(rd, result);
    }

    /// Sets N and Z from `operand1 & operand2`.
    pub fn arm_tst(&mut self, _rd: REGISTER, operand1: u32, operand2: u32, _set_flags: bool)
        requires
            old(self).wf(),
        ensures
            old(self).written_with_flags(None, operand1 & operand2, logical_flags(old(self).cpsr.0, operand1 & operand2), *final(self)),
    {
        let result = operand1 & operand2;
        self.set_logical_flags(result, true);
    }

    /// Sets N and Z from `operand1 ^ operand2`.
    pub fn arm_teq(&mut self, _rd: REGISTER, operand1: u32, operand2: u32, _set_flags: bool)
        requires
            old(self).wf(),
        ensures
            old(self).written_with_flags(None, operand1 ^ operand2, logical_flags(old(self).cpsr.0, operand1 ^ operand2), *final(self)),
    {
        let result = operand1 ^ operand2;
        self.set_logical_flags(result, true);
    }

    /// `MRS` from the raw instruction: copies the CPSR, or the SPSR when
    /// bit 22 is set, into the register in bits 12-15.
    pub fn arm_mrs(&mut self, instruction: ARMByteCode, _memory: &mut GBAMemory) -> (r: CYCLES)
        requires
            old(self).wf(),
        ensures
            r == 1,
            old(self).mrs_applied(
                (instruction & 0x0000_F000u32) >> 12u32,
                if bit_of(instruction, 22) { PSRRegister::SPSR } else { PSRRegister::CPSR },
                *final(self),
            ),
    {
        let rd = (instruction & 0x0000_F000) >> 12;
        proof {
            crate::bits::lemma_register_fields(instruction);
        }
        let psr = if bit_is_set(instruction, 22) {
            PSRRegister::SPSR
        } else {
            PSRRegister::CPSR
        };
        self.move_from_psr(rd, psr);
        1
    }

    /// `MSR` from the raw instruction: the operand is an immediate rotated
    /// right (bit 25) or the register in bits 0-3; bit 22 picks the SPSR,
    /// bit 19 the flag byte and bit 16 the control byte.
    pub fn arm_msr(&mut self, instruction: ARMByteCode, _memory: &mut GBAMemory) -> (r: CYCLES)
        requires
            old(self).wf(),
            !bit_of(instruction, 22) ==> old(self).psr_transfer_ok(
                DataProcessingInstruction::MSR(
                    PSRRegister::CPSR,
                    bit_of(instruction, 19),
                    bit_of(instruction, 16),
                    CPU::msr_operand_field(instruction),
                    (instruction & 0x0000_0F00u32) >> 7u32,
                ),
            ),
        ensures
            r == 0,
            old(self).msr_applied(
                if bit_of(instruction, 22) { PSRRegister::SPSR } else { PSRRegister::CPSR },
                bit_of(instruction, 19),
                bit_of(instruction, 16),
                old(self).msr_operand(CPU::msr_operand_field(instruction), (instruction & 0x0000_0F00u32) >> 7u32),
                *final(self),
            ),
    {
        proof {
            crate::bits::lemma_register_fields(instruction);
        }
        let operand = if bit_is_set(instruction, 25) {
            rotate_right(instruction & 0x0000_00FF, (instruction & 0x0000_0F00) >> 7)
        } else {
            self.get_register(instruction & 0x0000_000F)
        };
        let psr = if bit_is_set(instruction, 22) {
            PSRRegister::SPSR
        } else {
            PSRRegister::CPSR
        };
        self.move_to_psr(psr, bit_is_set(instruction, 19), bit_is_set(instruction, 16), operand);
        0
    }

    /// The operand field of `MSR`: the low byte as an immediate (bit 25),
    /// else the register in bits 0-3.
    pub open spec fn msr_operand_field(instruction: u32) -> Operand {
        if bit_of(instruction, 25) {
            Operand::Immediate(instruction & 0x0000_00FFu32)
        } else {
            Operand::Register(instruction & 0x0000_000Fu32)
        }
    }
}

impl DataProcessingInstruction {
    /// Whether the instruction can run from `cpu` and `memory`.
    pub open spec fn can_run(self, cpu: CPU, memory: GBAMemory) -> bool {
        &&& cpu.wf()
        &&& dp_well_formed(self)
        &&& cpu.psr_transfer_ok(self)
        &&& dp_is_return(self) ==> cpu.spsr_restorable()
        &&& dp_is_return(self) ==> cpu.return_fetch_ok(memory, cpu.alu_outcome(self).0)
        &&& dp_is_branch(self) ==> cpu.jump_fetch_ok(memory, cpu.alu_outcome(self).0)
    }

    /// `next` and `next_memory` are `cpu` and `memory` after the instruction
    /// ran, taking `r` cycles.
    pub open spec fn ran(self, cpu: CPU, memory: GBAMemory, next: CPU, next_memory: GBAMemory, r: u8) -> bool {
        &&& next.wf()
        &&& next_memory == memory
        &&& (self is Arithmetic || self is Logical) && !dp_is_return(self) && !dp_is_branch(self) ==> cpu.alu_applied(
            self,
            next,
        ) && r == CPU::alu_cycles(self)
        &&& dp_is_branch(self) ==> exists|written: CPU|
            {
                &&& cpu.alu_applied(self, written)
                &&& written.flushed(memory, next)
                &&& r == CPU::alu_cycles(self) + written.flush_cycles()
            }
        &&& dp_is_return(self) ==> exists|written: CPU, restored: CPU|
            {
                &&& cpu.alu_applied(self, written)
                &&& written.spsr_restored(restored)
                &&& restored.flushed(memory, next)
                &&& r == CPU::alu_cycles(self) + restored.flush_cycles()
            }
        &&& self matches DataProcessingInstruction::MSR(psr, move_flags, move_ctl, operand, rotation) ==> r == 0
            && cpu.msr_applied(psr, move_flags, move_ctl, cpu.msr_operand(operand, rotation), next)
        &&& self matches DataProcessingInstruction::MRS(rd, psr) ==> r == 0 && cpu.mrs_applied(rd, psr, next)
    }

    /// Executes the instruction on `cpu`.
    pub fn execute(self, cpu: &mut CPU, memory: &mut GBAMemory) -> (r: CYCLES)
        requires
            self.can_run(*old(cpu), *old(memory)),
        ensures
            self.ran(*old(cpu), *old(memory), *final(cpu), *final(memory), r),
    {
        cpu.execute_data_processing_instruction(memory, self)
    }
}

} // verus!
