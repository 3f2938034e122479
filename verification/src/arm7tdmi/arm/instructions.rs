use vstd::prelude::*;

use crate::arm7tdmi::arm::branch::fetch_ok_with;
use crate::arm7tdmi::arm::multiply::{mla_flags, mul_cycles};
use crate::arm7tdmi::cpsr::{FlagsRegister, InstructionMode};
use crate::arm7tdmi::cpu::CPU;
use crate::arm7tdmi::interrupts::{exception_vector, Exceptions};
use crate::bits::{bit_is_set, bit_of, get_bit, lemma_register_fields, sign_extend, spec_sign_extend};
use crate::memory::memory::{region_of, wait32, GBAMemory};
use crate::types::{ARMByteCode, CYCLES};

verus! {

/// The branch offset of a `B` or `BL`: the 24-bit field shifted left by two
/// and sign-extended from bit 25.
pub open spec fn branch_offset(instruction: u32) -> u32 {
    spec_sign_extend((instruction & 0x00FF_FFFFu32) << 2u32, 25)
}

impl CPU {
    /// `B`: branches to the PC plus the offset.
    pub fn arm_branch(&mut self, instruction: ARMByteCode, memory: &mut GBAMemory) -> (r: CYCLES)
        requires
            old(self).wf(),
            old(self).jump_fetch_ok(*old(memory), branch_offset(instruction).wrapping_add(old(self).pc()) & 0xFFFF_FFFEu32),
        ensures
            final(self).wf(),
            old(self).jumped(*old(memory), branch_offset(instruction).wrapping_add(old(self).pc()) & 0xFFFF_FFFEu32, *final(self)),
            r == 1 + old(self).jump_cycles(branch_offset(instruction).wrapping_add(old(self).pc()) & 0xFFFF_FFFEu32),
            *final(memory) == *old(memory),
    {
        let offset = instruction & 0x00FF_FFFF;
        let offset = sign_extend(offset << 2u32, 25);
        let destination = offset.wrapping_add(self.get_pc());
        1 + self.branch_to(memory, destination)
    }

    /// `BL`: writes the return address to the link register, then branches.
    pub fn arm_branch_and_link(&mut self, instruction: ARMByteCode, memory: &mut GBAMemory) -> (r: CYCLES)
        requires
            old(self).wf(),
            old(self).jump_fetch_ok(*old(memory), branch_offset(instruction).wrapping_add(old(self).pc()) & 0xFFFF_FFFEu32),
        ensures
            final(self).wf(),
            *final(memory) == *old(memory),
            r == 1 + old(self).jump_cycles(branch_offset(instruction).wrapping_add(old(self).pc()) & 0xFFFF_FFFEu32),
            exists|linked: CPU|
                {
                    &&& linked.wf()
                    &&& linked.registers.active_registers@ == old(self).registers.active_registers@.update(
                        14,
                        old(self).pc().wrapping_sub(4),
                    )
                    &&& old(self).same_but_active(linked)
                    &&& #[trigger] linked.jumped(
                        *old(memory),
                        branch_offset(instruction).wrapping_add(old(self).pc()) & 0xFFFF_FFFEu32,
                        *final(self),
                    )
                },
    {
        let link = self.get_pc().wrapping_sub(4);
        self.set_register(14, link);
        let ghost linked = *self;
        let offset = instruction & 0x00FF_FFFF;
        let offset = sign_extend(offset << 2u32, 25);
        let destination = offset.wrapping_add(self.get_pc());
        let cycles = self.branch_to(memory, destination);
        proof {
            assert(linked.jumped(*old(memory), destination & 0xFFFF_FFFEu32, *self));
        }
        1 + cycles
    }

    /// Does nothing.
    pub fn arm_nop(&mut self, _instruction: ARMByteCode, _memory: &mut GBAMemory) -> (r: CYCLES)
        ensures
            r == 0,
            *final(self) == *old(self),
    {
        0
    }

    /// `MUL`: `rd = rm * rs`, N from the result; with the S bit Z is set when
    /// the result is not zero and C is cleared.
    pub fn arm_multiply(&mut self, instruction: ARMByteCode, _memory: &mut GBAMemory) -> (r: CYCLES)
        requires
            old(self).wf(),
        ensures
            final(self).wf(),
            final(self).registers.active_registers@ == old(self).registers.active_registers@.update(
                ((instruction & 0x000F_0000u32) >> 16u32) as int,
                old(self).reg((instruction & 0xFu32) as int).wrapping_mul(
                    old(self).reg(((instruction & 0x0F00u32) >> 8u32) as int),
                ),
            ),
            final(self).cpsr.0 == crate::arm7tdmi::arm::multiply::mul_flags(
                old(self).cpsr.0,
                old(self).reg((instruction & 0xFu32) as int).wrapping_mul(
                    old(self).reg(((instruction & 0x0F00u32) >> 8u32) as int),
                ),
                bit_of(instruction, 20),
            ),
            old(self).same_machine(*final(self)),
            final(self).spsr == old(self).spsr,
            r == mul_cycles(old(self).reg(((instruction & 0x0F00u32) >> 8u32) as int)),
    {
        proof {
            lemma_register_fields(instruction);
        }
        let rd = (instruction & 0x000F_0000) >> 16;
        let rs = (instruction & 0x0000_0F00) >> 8;
        let rm = instruction & 0x0000_000F;
        let set_flags = bit_is_set(instruction, 20);
        self.multiply(rd, rm, rs, set_flags)
    }

    /// `MLA` as this core runs it: with the S bit the flags follow
    /// `rm * rs + rn`, but no register is written.
    pub fn arm_multiply_accumulate(&mut self, instruction: ARMByteCode, _memory: &mut GBAMemory) -> (r: CYCLES)
        requires
            old(self).wf(),
        ensures
            final(self).wf(),
            final(self).cpsr.0 == mla_flags(
                old(self).cpsr.0,
                old(self).reg((instruction & 0xFu32) as int).wrapping_mul(
                    old(self).reg(((instruction & 0x0F00u32) >> 8u32) as int),
                ).wrapping_add(old(self).reg(((instruction & 0xF000u32) >> 12u32) as int)),
                bit_of(instruction, 20),
            ),
            old(self).same_but_cpsr(*final(self)),
            r == mul_cycles(old(self).reg(((instruction & 0x0F00u32) >> 8u32) as int)) + 1,
    {
        proof {
            lemma_register_fields(instruction);
        }
        let rn = (instruction & 0x0000_F000) >> 12;
        let rs = (instruction & 0x0000_0F00) >> 8;
        let rm = instruction & 0x0000_000F;
        let set_flags = bit_is_set(instruction, 20);
        let operand1 = self.get_register(rm);
        let operand2 = self.get_register(rs);
        let acc = self.get_register(rn);
        let result = operand1.wrapping_mul(operand2).wrapping_add(acc);
        if set_flags {
            self.set_flag_from_bit(FlagsRegister::N, get_bit(result, 31) as u8);
            if result == 0 {
                self.reset_flag(FlagsRegister::Z);
            } else {
                self.set_flag(FlagsRegister::Z);
            }
            self.reset_flag(FlagsRegister::C);
        }
        if operand2 & 0xFFFF_FF00 == 0 || operand2 & 0xFFFF_FF00 == 0xFFFF_FF00 {
            2
        } else if operand2 & 0xFFFF_0000 == 0 || operand2 & 0xFFFF_0000 == 0xFFFF_0000 {
            3
        } else if operand2 & 0xFF00_0000 == 0 || operand2 & 0xFF00_0000 == 0xFFFF_0000 {
            4
        } else {
            5
        }
    }

    /// `SWI`: raises the software interrupt.
    pub fn arm_software_interrupt(&mut self, _instruction: ARMByteCode, memory: &mut GBAMemory) -> (r: CYCLES)
        requires
            old(self).wf(),
            old(self).can_raise(*old(memory), Exceptions::Software),
        ensures
            old(self).exception_taken(*old(memory), Exceptions::Software, *final(self)),
            r == 1 + wait32(region_of(exception_vector(Exceptions::Software) as usize)) + wait32(
                region_of((exception_vector(Exceptions::Software) + 4) as usize),
            ),
            *final(memory) == *old(memory),
    {
        let cycles = self.raise_exception(Exceptions::Software, memory);
        proof {
            assert(cycles <= 16);
        }
        1 + cycles
    }

    /// `BX` from the raw instruction: bit 0 of the register in bits 0-3
    /// selects THUMB state; for ARM state bit 1 is cleared as well.
    pub fn arm_branch_and_exchange(&mut self, instruction: ARMByteCode, memory: &mut GBAMemory) -> (r: CYCLES)
        requires
            old(self).wf(),
            fetch_ok_with(
                *old(memory),
                CPU::bx_target(old(self).reg((instruction & 0xFu32) as int)),
                if bit_of(old(self).reg((instruction & 0xFu32) as int), 0) { 2u32 } else { 4u32 },
            ),
        ensures
            final(self).wf(),
            *final(memory) == *old(memory),
            exists|switched: CPU|
                {
                    &&& switched.wf()
                    &&& switched.cpsr.spec_instruction_mode() == if bit_of(old(self).reg((instruction & 0xFu32) as int), 0) {
                        InstructionMode::THUMB
                    } else {
                        InstructionMode::ARM
                    }
                    &&& forall|f| #[trigger] switched.flag(f) == old(self).flag(f)
                    &&& switched.cpsr.spec_mode() == old(self).cpsr.spec_mode()
                    &&& old(self).same_but_cpsr(switched)
                    &&& #[trigger] switched.jumped(
                        *old(memory),
                        CPU::bx_target(old(self).reg((instruction & 0xFu32) as int)),
                        *final(self),
                    )
                    &&& r == 1 + switched.jump_cycles(CPU::bx_target(old(self).reg((instruction & 0xFu32) as int)))
                },
    {
        proof {
            lemma_register_fields(instruction);
        }
        let mut destination = self.get_register(instruction & 0x0000_000F);
        if bit_is_set(destination, 0) {
            self.set_instruction_mode(InstructionMode::THUMB);
        } else {
            destination = destination & !2u32;
            self.set_instruction_mode(InstructionMode::ARM);
        }
        let ghost switched = *self;
        proof {
            crate::arm7tdmi::cpsr::lemma_instruction_mode_round_trip(old(self).cpsr.0, FlagsRegister::N);
            let d = destination;
            crate::bits::lemma_word_align(d);
            let o = old(self).reg((instruction & 0xFu32) as int);
            crate::bits::lemma_word_align(o);
        }
        let cycles = self.branch_to(memory, destination);
        proof {
            assert(switched.jumped(*old(memory), CPU::bx_target(old(self).reg((instruction & 0xFu32) as int)), *self));
        }
        1 + cycles
    }

    /// Where `BX` to `value` goes: bit 0 cleared in THUMB state, bits 0 and 1
    /// cleared in ARM state.
    pub open spec fn bx_target(value: u32) -> u32 {
        if bit_of(value, 0) {
            value & 0xFFFF_FFFEu32
        } else {
            value & !3u32
        }
    }
}

} // verus!
