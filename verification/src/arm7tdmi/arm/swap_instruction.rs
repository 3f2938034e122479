use vstd::prelude::*;

use crate::arm7tdmi::cpu::CPU;
use crate::bits::{lemma_register_fields, bit_is_set, bit_of};
use crate::memory::memory::{region_of, view_store32, view_store8, wait16, wait32, GBAMemory};
use crate::types::{CYCLES, REGISTER};

verus! {

/// `SWP` and `SWPB`: an atomic exchange between a register and memory.
pub struct SwapInstruction(pub u32);

impl SwapInstruction {
    /// Whether a byte, rather than a word, is exchanged.
    pub fn swap_byte(&self) -> (r: bool)
        ensures
            r == bit_of(self.0, 22),
    {
        bit_is_set(self.0, 22)
    }

    pub fn rn(&self) -> (r: REGISTER)
        ensures
            r == (self.0 & 0x000F_0000u32) >> 16u32,
            r < 16,
    {
        proof { lemma_register_fields(self.0); }
        (self.0 & 0x000F_0000u32) >> 16u32
    }

    pub fn rd(&self) -> (r: REGISTER)
        ensures
            r == (self.0 & 0x0000_F000u32) >> 12u32,
            r < 16,
    {
        proof { lemma_register_fields(self.0); }
        (self.0 & 0x0000_F000u32) >> 12u32
    }

    pub fn rm(&self) -> (r: REGISTER)
        ensures
            r == self.0 & 0x0000_000Fu32,
            r < 16,
    {
        proof { lemma_register_fields(self.0); }
        self.0 & 0x0000_000Fu32
    }
}

impl SwapInstruction {
    /// The address exchanged with: the value of `rn`.
    pub open spec fn address(self, cpu: CPU) -> usize {
        cpu.reg(((self.0 & 0x000F_0000u32) >> 16u32) as int) as usize
    }

    /// The size of what is exchanged.
    pub open spec fn size(self) -> usize {
        if bit_of(self.0, 22) {
            1
        } else {
            4
        }
    }

    /// Whether the instruction can run from `cpu` and `memory`.
    pub open spec fn can_run(self, cpu: CPU, memory: GBAMemory) -> bool {
        &&& cpu.wf()
        &&& memory.fits(self.address(cpu), self.size())
    }

    /// `next` and `next_memory` are `cpu` and `memory` after the instruction
    /// ran, taking `r` cycles.
    pub open spec fn ran(self, cpu: CPU, memory: GBAMemory, next: CPU, next_memory: GBAMemory, r: u8) -> bool {
        &&& next.wf()
        &&& next.registers.active_registers@ == cpu.registers.active_registers@.update(
            ((self.0 & 0x0000_F000u32) >> 12u32) as int,
            if bit_of(self.0, 22) {
                memory.load8(self.address(cpu)) as u32
            } else {
                memory.load32(self.address(cpu))
            },
        )
        &&& cpu.same_but_active(next)
        &&& next_memory@ == if bit_of(self.0, 22) {
            view_store8(memory@, self.address(cpu), cpu.reg((self.0 & 0xFu32) as int) as u8)
        } else {
            view_store32(memory@, self.address(cpu), cpu.reg((self.0 & 0xFu32) as int))
        }
        &&& r == 1 + 2 * if bit_of(self.0, 22) {
            wait16(region_of(self.address(cpu)))
        } else {
            wait32(region_of(self.address(cpu)))
        }
    }

    /// Reads memory at the address of `rn`, writes `rm` there, and puts what
    /// was read in `rd`.
    pub fn execute(self, cpu: &mut CPU, memory: &mut GBAMemory) -> (r: CYCLES)
        requires
            self.can_run(*old(cpu), *old(memory)),
        ensures
            self.ran(*old(cpu), *old(memory), *final(cpu), *final(memory), r),
    {
        let address = cpu.get_register(self.rn()) as usize;
        let (memory_data, cycles) = if self.swap_byte() {
            let memory_fetch = memory.read(address);
            let write_cycles = memory.write(address, cpu.get_register(self.rm()) as u8);
            (memory_fetch.data as u32, 1 + memory_fetch.cycles + write_cycles)
        } else {
            let memory_fetch = memory.readu32(address);
            let write_cycles = memory.writeu32(address, cpu.get_register(self.rm()));
            (memory_fetch.data, 1 + memory_fetch.cycles + write_cycles)
        };
        cpu.set_register(self.rd(), memory_data);
        cycles
    }
}

} // verus!
