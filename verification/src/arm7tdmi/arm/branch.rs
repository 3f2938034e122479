use vstd::prelude::*;

use crate::arm7tdmi::cpsr::InstructionMode;
use crate::arm7tdmi::cpu::CPU;
use crate::arm7tdmi::interrupts::{exception_vector, Exceptions};
use crate::memory::memory::{region_of, wait32};
use crate::bits::{lemma_register_fields, bit_is_set, bit_of, sign_extend, spec_sign_extend};
use crate::memory::memory::GBAMemory;
use crate::types::{CYCLES, REGISTER};

verus! {

/// `B` and `BL`: a branch by a signed 24-bit word offset.
pub struct BranchInstruction(pub u32);

impl BranchInstruction {
    /// Whether the return address is written to the link register (`BL`).
    pub fn set_lr(&self) -> (r: bool)
        ensures
            r == bit_of(self.0, 24),
    {
        bit_is_set(self.0, 24)
    }

    /// The branch offset in bytes: the 24-bit field shifted left by two and
    /// sign-extended from bit 25.
    pub fn offset(&self) -> (r: u32)
        ensures
            r == spec_sign_extend((self.0 & 0x00FF_FFFFu32) << 2u32, 25),
    {
        sign_extend((self.0 & 0x00FF_FFFFu32) << 2u32, 25)
    }
}

/// `BX`: a branch to the address held in a register, switching to THUMB
/// state when its bit 0 is set.
pub struct BranchAndExchangeInstruction(pub u32);

impl BranchAndExchangeInstruction {
    pub fn rn(&self) -> (r: REGISTER)
        ensures
            r == self.0 & 0xFu32,
            r < 16,
    {
        proof { lemma_register_fields(self.0); }
        self.0 & 0xF
    }
}

/// `SWI`: a software interrupt.
pub struct SWI(pub u32);

impl BranchInstruction {
    /// The branch target: the PC (two instructions ahead) plus the offset.
    pub open spec fn destination(self, cpu: CPU) -> u32 {
        cpu.pc().wrapping_add(spec_sign_extend((self.0 & 0x00FF_FFFFu32) << 2u32, 25))
    }

    /// Whether the instruction can run from `cpu` and `memory`.
    pub open spec fn can_run(self, cpu: CPU, memory: GBAMemory) -> bool {
        &&& cpu.wf()
        &&& cpu.jump_fetch_ok(memory, self.destination(cpu) & 0xFFFF_FFFEu32)
    }

    /// `next` and `next_memory` are `cpu` and `memory` after the instruction
    /// ran, taking `r` cycles.
    pub open spec fn ran(self, cpu: CPU, memory: GBAMemory, next: CPU, next_memory: GBAMemory, r: u8) -> bool {
        &&& next.wf()
        &&& next_memory == memory
        &&& r == 1 + cpu.jump_cycles(self.destination(cpu) & 0xFFFF_FFFEu32)
        &&& exists|linked: CPU|
            {
                &&& linked.wf()
                &&& linked.registers.active_registers@ == if bit_of(self.0, 24) {
                    cpu.registers.active_registers@.update(14, cpu.pc().wrapping_sub(4))
                } else {
                    cpu.registers.active_registers@
                }
                &&& cpu.same_but_active(linked)
                &&& #[trigger] linked.jumped(memory, self.destination(cpu) & 0xFFFF_FFFEu32, next)
            }
    }

    /// Branches, first writing the address of the next instruction to the
    /// link register for `BL`.
    pub fn execute(self, cpu: &mut CPU, memory: &mut GBAMemory) -> (r: CYCLES)
        requires
            self.can_run(*old(cpu), *old(memory)),
        ensures
            self.ran(*old(cpu), *old(memory), *final(cpu), *final(memory), r),
    {
        let destination = cpu.get_pc().wrapping_add(self.offset());
        if self.set_lr() {
            let link = cpu.get_pc().wrapping_sub(4);
            cpu.set_register(14, link);
        }
        let ghost linked = *cpu;
        let cycles = cpu.branch_to(memory, destination);
        proof {
            assert(linked.jumped(*old(memory), destination & 0xFFFF_FFFEu32, *cpu));
        }
        1 + cycles
    }
}

/// Whether instructions of `step` bytes can be fetched at `target` and
/// after it.
pub open spec fn fetch_ok_with(memory: GBAMemory, target: u32, step: u32) -> bool {
    &&& memory.fits((target & 0xFFFF_FFFEu32) as usize, step as usize)
    &&& memory.fits((target.wrapping_add(step) & 0xFFFF_FFFEu32) as usize, step as usize)
}

impl BranchAndExchangeInstruction {
    /// Whether the target register's bit 0 selects THUMB state.
    pub open spec fn to_thumb(self, cpu: CPU) -> bool {
        bit_of(cpu.reg((self.0 & 0xFu32) as int), 0)
    }

    /// The branch target: the register with bit 0 cleared for THUMB, with
    /// bits 0 and 1 cleared for ARM.
    pub open spec fn target(self, cpu: CPU) -> u32 {
        if self.to_thumb(cpu) {
            cpu.reg((self.0 & 0xFu32) as int) & !1u32
        } else {
            cpu.reg((self.0 & 0xFu32) as int) & !3u32
        }
    }

    /// Whether the instruction can run from `cpu` and `memory`.
    pub open spec fn can_run(self, cpu: CPU, memory: GBAMemory) -> bool {
        &&& cpu.wf()
        &&& fetch_ok_with(memory, self.target(cpu), if self.to_thumb(cpu) { 2u32 } else { 4u32 })
    }

    /// `next` and `next_memory` are `cpu` and `memory` after the instruction
    /// ran, taking `r` cycles.
    pub open spec fn ran(self, cpu: CPU, memory: GBAMemory, next: CPU, next_memory: GBAMemory, r: u8) -> bool {
        &&& next.wf()
        &&& next_memory == memory
        &&& exists|switched: CPU|
            {
                &&& switched.wf()
                &&& switched.cpsr.spec_instruction_mode() == if self.to_thumb(cpu) {
                    InstructionMode::THUMB
                } else {
                    InstructionMode::ARM
                }
                &&& forall|f| #[trigger] switched.flag(f) == cpu.flag(f)
                &&& switched.cpsr.spec_mode() == cpu.cpsr.spec_mode()
                &&& cpu.same_but_cpsr(switched)
                &&& #[trigger] switched.jumped(memory, self.target(cpu) & 0xFFFF_FFFEu32, next)
                &&& r == 1 + switched.jump_cycles(self.target(cpu) & 0xFFFF_FFFEu32)
            }
    }

    /// Switches to the state that bit 0 of the register selects and branches
    /// to it.
    pub fn execute(self, cpu: &mut CPU, memory: &mut GBAMemory) -> (r: CYCLES)
        requires
            self.can_run(*old(cpu), *old(memory)),
        ensures
            self.ran(*old(cpu), *old(memory), *final(cpu), *final(memory), r),
    {
        let destination = cpu.get_register(self.rn());
        if bit_is_set(destination, 0) {
            cpu.set_instruction_mode(InstructionMode::THUMB);
            let ghost switched = *cpu;
            proof {
                crate::arm7tdmi::cpsr::lemma_instruction_mode_round_trip(old(cpu).cpsr.0, crate::arm7tdmi::cpsr::FlagsRegister::N);
            }
            proof {
                crate::bits::lemma_word_align(destination);
            }
            let cycles = cpu.branch_to(memory, destination & !1);
            proof {
                assert(switched.jumped(*old(memory), self.target(*old(cpu)) & 0xFFFF_FFFEu32, *cpu));
            }
            1 + cycles
        } else {
            cpu.set_instruction_mode(InstructionMode::ARM);
            let ghost switched = *cpu;
            proof {
                crate::arm7tdmi::cpsr::lemma_instruction_mode_round_trip(old(cpu).cpsr.0, crate::arm7tdmi::cpsr::FlagsRegister::N);
            }
            proof {
                crate::bits::lemma_word_align(destination);
            }
            let cycles = cpu.branch_to(memory, destination & !3);
            proof {
                assert(switched.jumped(*old(memory), self.target(*old(cpu)) & 0xFFFF_FFFEu32, *cpu));
            }
            1 + cycles
        }
    }
}

impl SWI {
    /// Whether the software interrupt can be taken from `cpu`.
    pub open spec fn can_run(self, cpu: CPU, memory: GBAMemory) -> bool {
        &&& cpu.wf()
        &&& cpu.can_raise(memory, Exceptions::Software)
    }

    /// `next` and `next_memory` are `cpu` and `memory` after the software
    /// interrupt was taken, taking `r` cycles.
    pub open spec fn ran(self, cpu: CPU, memory: GBAMemory, next: CPU, next_memory: GBAMemory, r: u8) -> bool {
        &&& cpu.exception_taken(memory, Exceptions::Software, next)
        &&& r == 1 + wait32(region_of(exception_vector(Exceptions::Software) as usize)) + wait32(
            region_of((exception_vector(Exceptions::Software) + 4) as usize),
        )
        &&& next_memory == memory
    }

    /// Raises the software interrupt.
    pub fn execute(self, cpu: &mut CPU, memory: &mut GBAMemory) -> (r: CYCLES)
        requires
            self.can_run(*old(cpu), *old(memory)),
        ensures
            self.ran(*old(cpu), *old(memory), *final(cpu), *final(memory), r),
    {
        cpu.arm_software_interrupt(self.0, memory)
    }
}

} // verus!
