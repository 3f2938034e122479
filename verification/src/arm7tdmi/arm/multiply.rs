use vstd::prelude::*;

use crate::arm7tdmi::cpsr::FlagsRegister;
use crate::arm7tdmi::cpu::{psr_with, CPU};
use crate::bits::{lemma_register_fields, bit_is_set, bit_of, get_bit};
use crate::memory::memory::GBAMemory;
use crate::types::{CYCLES, REGISTER};

verus! {

/// `MUL` and `MLA`, and the long multiplies.
pub struct MultiplyInstruction(pub u32);

/// The multiply operations.
#[derive(Debug, Clone, Copy, PartialEq, Eq, Structural)]
pub enum MultiplyOpcodes {
    MUL,
    MLA,
    UMULL,
    UMLAL,
    SMULL,
    SMLAL,
}

impl MultiplyInstruction {
    /// The operation. The field is read as `instruction & (0xF << 20)`, whose
    /// only value that names an operation is zero (`MUL`); the others are
    /// refused.
    pub fn opcode(&self) -> (r: MultiplyOpcodes)
        requires
            self.0 & (0xFu32 << 20u32) == 0,
        ensures
            r == MultiplyOpcodes::MUL,
    {
        MultiplyOpcodes::MUL
    }

    pub fn rd(&self) -> (r: REGISTER)
        ensures
            r == (self.0 & 0x000F_0000u32) >> 16u32,
            r < 16,
    {
        proof { lemma_register_fields(self.0); }
        (self.0 & 0x000F_0000u32) >> 16u32
    }

    pub fn rs(&self) -> (r: REGISTER)
        ensures
            r == (self.0 & 0x0000_0F00u32) >> 8u32,
            r < 16,
    {
        proof { lemma_register_fields(self.0); }
        (self.0 & 0x0000_0F00u32) >> 8u32
    }

    pub fn rn(&self) -> (r: REGISTER)
        ensures
            r == (self.0 & 0x0000_F000u32) >> 12u32,
            r < 16,
    {
        proof { lemma_register_fields(self.0); }
        (self.0 & 0x0000_F000u32) >> 12u32
    }

    pub fn rm(&self) -> (r: REGISTER)
        ensures
            r == self.0 & 0x0000_000Fu32,
            r < 16,
    {
        proof { lemma_register_fields(self.0); }
        self.0 & 0x0000_000Fu32
    }

    /// Whether the S bit asks for the flags to be updated.
    pub fn set_flags(&self) -> (r: bool)
        ensures
            r == bit_of(self.0, 20),
    {
        bit_is_set(self.0, 20)
    }
}

/// The cycles of a multiply by `operand2`: fewer when its high bytes are all
/// zeros or all ones (the third test compares with the half-word pattern).
pub open spec fn mul_cycles(operand2: u32) -> u8 {
    if operand2 & 0xFFFF_FF00u32 == 0 || operand2 & 0xFFFF_FF00u32 == 0xFFFF_FF00u32 {
        1
    } else if operand2 & 0xFFFF_0000u32 == 0 || operand2 & 0xFFFF_0000u32 == 0xFFFF_0000u32 {
        2
    } else if operand2 & 0xFF00_0000u32 == 0 || operand2 & 0xFF00_0000u32 == 0xFFFF_0000u32 {
        3
    } else {
        4
    }
}

pub fn multiply_cycles(operand2: u32) -> (r: CYCLES)
    ensures
        r == mul_cycles(operand2),
{
    if operand2 & 0xFFFF_FF00 == 0 || operand2 & 0xFFFF_FF00 == 0xFFFF_FF00 {
        1
    } else if operand2 & 0xFFFF_0000 == 0 || operand2 & 0xFFFF_0000 == 0xFFFF_0000 {
        2
    } else if operand2 & 0xFF00_0000 == 0 || operand2 & 0xFF00_0000 == 0xFFFF_0000 {
        3
    } else {
        4
    }
}

/// The flags after a multiply with result `result`: N always follows the
/// result; with `set_flags`, Z is set when the result is not zero and C is
/// cleared.
pub open spec fn mul_flags(p: u32, result: u32, set_flags: bool) -> u32 {
    let with_n = psr_with(p, FlagsRegister::N, bit_of(result, 31));
    if set_flags {
        psr_with(psr_with(with_n, FlagsRegister::Z, result != 0), FlagsRegister::C, false)
    } else {
        with_n
    }
}

/// The flags after a multiply-accumulate: only with `set_flags`, N follows
/// the result, Z is set when it is not zero and C is cleared.
pub open spec fn mla_flags(p: u32, result: u32, set_flags: bool) -> u32 {
    if set_flags {
        psr_with(psr_with(psr_with(p, FlagsRegister::N, bit_of(result, 31)), FlagsRegister::Z, result != 0), FlagsRegister::C, false)
    } else {
        p
    }
}

impl CPU {
    /// `rd = rm * rs` (the low word); see `mul_flags` and `mul_cycles`.
    pub fn multiply(&mut self, rd: REGISTER, rm: REGISTER, rs: REGISTER, set_flags: bool) -> (r: CYCLES)
        requires
            old(self).wf(),
            rd < 16,
            rm < 16,
            rs < 16,
        ensures
            final(self).wf(),
            final(self).registers.active_registers@ == old(self).registers.active_registers@.update(
                rd as int,
                old(self).reg(rm as int).wrapping_mul(old(self).reg(rs as int)),
            ),
            final(self).cpsr.0 == mul_flags(old(self).cpsr.0, old(self).reg(rm as int).wrapping_mul(old(self).reg(rs as int)), set_flags),
            old(self).same_machine(*final(self)),
            final(self).spsr == old(self).spsr,
            final(self).registers.current_mode == old(self).registers.current_mode,
            r == mul_cycles(old(self).reg(rs as int)),
    {
        let operand1 = self.get_register(rm);
        let operand2 = self.get_register(rs);
        let result = operand1.wrapping_mul(operand2);
        self.set_register(rd, result);
        self.set_flag_from_bit(FlagsRegister::N, get_bit(result, 31) as u8);
        if set_flags {
            if result == 0 {
                self.reset_flag(FlagsRegister::Z);
            } else {
                self.set_flag(FlagsRegister::Z);
            }
            self.reset_flag(FlagsRegister::C);
        }
        multiply_cycles(operand2)
    }
}

impl MultiplyInstruction {
    /// Whether the instruction can run from `cpu` and `memory`.
    pub open spec fn can_run(self, cpu: CPU, memory: GBAMemory) -> bool {
        &&& cpu.wf()
        &&& self.0 & (0xFu32 << 20u32) == 0
    }

    /// `next` and `next_memory` are `cpu` and `memory` after the instruction
    /// ran, taking `r` cycles.
    pub open spec fn ran(self, cpu: CPU, memory: GBAMemory, next: CPU, next_memory: GBAMemory, r: u8) -> bool {
        &&& next.wf()
        &&& next.registers.active_registers@ == cpu.registers.active_registers@.update(
            ((self.0 & 0x000F_0000u32) >> 16u32) as int,
            cpu.reg((self.0 & 0xFu32) as int).wrapping_mul(cpu.reg(((self.0 & 0x0F00u32) >> 8u32) as int)),
        )
        &&& next.cpsr.0 == mul_flags(
            cpu.cpsr.0,
            cpu.reg((self.0 & 0xFu32) as int).wrapping_mul(cpu.reg(((self.0 & 0x0F00u32) >> 8u32) as int)),
            false,
        )
        &&& cpu.same_machine(next)
        &&& next.spsr == cpu.spsr
        &&& r == mul_cycles(cpu.reg(((self.0 & 0x0F00u32) >> 8u32) as int))
    }

    /// Executes the multiply. The only operation the field names is `MUL`,
    /// whose S bit is then clear.
    pub fn execute(self, cpu: &mut CPU, _memory: &mut GBAMemory) -> (r: CYCLES)
        requires
            self.can_run(*old(cpu), *old(_memory)),
        ensures
            self.ran(*old(cpu), *old(_memory), *final(cpu), *final(_memory), r),
    {
        let v = self.0;
        proof {
            crate::bits::lemma_word_align(v);
        }
        match self.opcode() {
            MultiplyOpcodes::MUL => cpu.multiply(self.rd(), self.rm(), self.rs(), self.set_flags()),
            _ => 0,
        }
    }
}

} // verus!
