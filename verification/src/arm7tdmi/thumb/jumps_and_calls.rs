use vstd::prelude::*;

use crate::arm7tdmi::arm::alu::signed;
use crate::arm7tdmi::cpu::{condition_holds, spec_condition_passed, CPU};
use crate::bits::{sign_extend, spec_sign_extend};
use crate::memory::memory::{region_of, wait16, GBAMemory};
use crate::types::CYCLES;

verus! {

/// THUMB `B<cond>`: a conditional branch by a signed 8-bit half-word offset.
pub struct ThumbConditionalBranch(pub u32);

impl ThumbConditionalBranch {
    pub open spec fn spec_offset(self) -> u32 {
        spec_sign_extend((self.0 & 0x00FFu32) << 1u32, 8)
    }

    pub open spec fn spec_condition_code(self) -> u32 {
        (self.0 & 0x0F00u32) >> 8u32
    }

    /// The offset in bytes, sign-extended from bit 8.
    pub fn offset(&self) -> (r: u32)
        ensures
            r == self.spec_offset(),
    {
        sign_extend((self.0 & 0x00FF) << 1u32, 8)
    }

    pub fn condition_code(&self) -> (r: u32)
        ensures
            r == self.spec_condition_code(),
            r < 16,
    {
        let v = self.0;
        proof {
            crate::bits::lemma_word_fields(v);
        }
        (v & 0x0F00) >> 8
    }

    /// Whether the instruction can run from `cpu` and `memory`.
    pub open spec fn can_run(self, cpu: CPU, memory: GBAMemory) -> bool {
        &&& cpu.wf()
        &&& self.spec_condition_code() < 14
        &&& memory.fits(cpu.pc() as usize, 2)
        &&& spec_condition_passed(self.spec_condition_code(), cpu.cpsr) ==> cpu.jump_fetch_ok(
            memory,
            cpu.pc().wrapping_add(self.spec_offset()) & 0xFFFF_FFFEu32,
        )
    }

    /// `next` and `next_memory` are `cpu` and `memory` after the instruction
    /// ran, taking `r` cycles.
    pub open spec fn ran(self, cpu: CPU, memory: GBAMemory, next: CPU, next_memory: GBAMemory, r: u8) -> bool {
        &&& next.wf()
        &&& next_memory == memory
        &&& spec_condition_passed(self.spec_condition_code(), cpu.cpsr) ==> cpu.jumped(
            memory,
            cpu.pc().wrapping_add(self.spec_offset()) & 0xFFFF_FFFEu32,
            next,
        ) && r == wait16(region_of(cpu.pc() as usize)) + cpu.jump_cycles(
            cpu.pc().wrapping_add(self.spec_offset()) & 0xFFFF_FFFEu32,
        )
        &&& !spec_condition_passed(self.spec_condition_code(), cpu.cpsr) ==> next == cpu && r == 0
    }

    /// Branches to the PC plus the offset when the condition holds; the
    /// codes 14 and 15 are refused. The half word at the PC is read either
    /// way.
    pub fn execute(self, cpu: &mut CPU, memory: &mut GBAMemory) -> (r: CYCLES)
        requires
            self.can_run(*old(cpu), *old(memory)),
        ensures
            self.ran(*old(cpu), *old(memory), *final(cpu), *final(memory), r),
    {
        let condition_passed = condition_holds(self.condition_code(), cpu);
        let memory_fetch = memory.readu16(cpu.get_pc() as usize);
        let destination = cpu.get_pc().wrapping_add(self.offset());
        if !condition_passed {
            return 0;
        }
        let flush = cpu.branch_to(memory, destination);
        proof {
            assert(flush <= 16 && memory_fetch.cycles <= 5);
        }
        memory_fetch.cycles + flush
    }
}

/// THUMB `B`: a branch by a signed 11-bit half-word offset.
pub struct ThumbUnconditionalBranch(pub u32);

impl ThumbUnconditionalBranch {
    pub open spec fn spec_offset(self) -> u32 {
        spec_sign_extend((self.0 & 0x07FFu32) << 1u32, 11)
    }

    pub fn offset(&self) -> (r: u32)
        ensures
            r == self.spec_offset(),
    {
        sign_extend((self.0 & 0x07FF) << 1u32, 11)
    }

    /// Whether the instruction can run from `cpu` and `memory`.
    pub open spec fn can_run(self, cpu: CPU, memory: GBAMemory) -> bool {
        &&& cpu.wf()
        &&& cpu.jump_fetch_ok(memory, cpu.pc().wrapping_add(self.spec_offset()) & 0xFFFF_FFFEu32)
    }

    /// `next` and `next_memory` are `cpu` and `memory` after the instruction
    /// ran, taking `r` cycles.
    pub open spec fn ran(self, cpu: CPU, memory: GBAMemory, next: CPU, next_memory: GBAMemory, r: u8) -> bool {
        &&& next.wf()
        &&& next_memory == memory
        &&& cpu.jumped(memory, cpu.pc().wrapping_add(self.spec_offset()) & 0xFFFF_FFFEu32, next)
        &&& r == cpu.jump_cycles(cpu.pc().wrapping_add(self.spec_offset()) & 0xFFFF_FFFEu32) + 1
    }

    pub fn execute(self, cpu: &mut CPU, memory: &mut GBAMemory) -> (r: CYCLES)
        requires
            self.can_run(*old(cpu), *old(memory)),
        ensures
            self.ran(*old(cpu), *old(memory), *final(cpu), *final(memory), r),
    {
        let destination = cpu.get_pc().wrapping_add(self.offset());
        cpu.branch_to(memory, destination) + 1
    }
}

/// The first half of THUMB `BL`: the high part of the offset into LR.
pub struct ThumbSetLinkRegister(pub u32);

impl ThumbSetLinkRegister {
    pub open spec fn spec_offset(self) -> u32 {
        spec_sign_extend((self.0 & 0x07FFu32) << 12u32, 22)
    }

    pub fn offset(&self) -> (r: u32)
        ensures
            r == self.spec_offset(),
    {
        sign_extend((self.0 & 0x07FF) << 12u32, 22)
    }

    /// Whether the instruction can run from `cpu` and `memory`.
    pub open spec fn can_run(self, cpu: CPU, memory: GBAMemory) -> bool {
        &&& cpu.wf()
    }

    /// `next` and `next_memory` are `cpu` and `memory` after the instruction
    /// ran, taking `r` cycles.
    pub open spec fn ran(self, cpu: CPU, memory: GBAMemory, next: CPU, next_memory: GBAMemory, r: u8) -> bool {
        &&& r == 0
        &&& next.wf()
        &&& next.registers.active_registers@ == cpu.registers.active_registers@.update(
            14,
            cpu.pc().wrapping_add(self.spec_offset()),
        )
        &&& cpu.same_but_active(next)
    }

    /// `LR = PC + offset`.
    pub fn execute(self, cpu: &mut CPU, _memory: &mut GBAMemory) -> (r: CYCLES)
        requires
            self.can_run(*old(cpu), *old(_memory)),
        ensures
            self.ran(*old(cpu), *old(_memory), *final(cpu), *final(_memory), r),
    {
        let value = cpu.get_pc().wrapping_add(self.offset());
        cpu.set_register(14, value);
        0
    }
}

/// The second half of THUMB `BL`: branch to LR plus the low part of the
/// offset, leaving the return address (with bit 0 set) in LR.
pub struct ThumbLongBranchWithLink(pub u32);

impl ThumbLongBranchWithLink {
    pub open spec fn spec_offset(self) -> u32 {
        (self.0 & 0x7FFu32) << 1u32
    }

    pub fn offset(&self) -> (r: u32)
        ensures
            r == self.spec_offset(),
    {
        (self.0 & 0x7FF) << 1u32
    }

    /// The branch target: the old LR plus the offset.
    pub open spec fn destination(self, cpu: CPU) -> u32 {
        cpu.reg(14).wrapping_add(self.spec_offset())
    }

    /// Whether the instruction can run from `cpu` and `memory`.
    pub open spec fn can_run(self, cpu: CPU, memory: GBAMemory) -> bool {
        &&& cpu.wf()
        &&& memory.fits((self.destination(cpu) & 0xFFFF_FFFEu32) as usize, 2)
        &&& cpu.jump_fetch_ok(memory, self.destination(cpu) & 0xFFFF_FFFEu32)
    }

    /// `next` and `next_memory` are `cpu` and `memory` after the instruction
    /// ran, taking `r` cycles.
    pub open spec fn ran(self, cpu: CPU, memory: GBAMemory, next: CPU, next_memory: GBAMemory, r: u8) -> bool {
        &&& next.wf()
        &&& next_memory == memory
        &&& r == wait16(region_of((self.destination(cpu) & 0xFFFF_FFFEu32) as usize)) + cpu.jump_cycles(
            self.destination(cpu) & 0xFFFF_FFFEu32,
        )
        &&& exists|linked: CPU|
            {
                &&& linked.wf()
                &&& linked.registers.active_registers@ == cpu.registers.active_registers@.update(
                    14,
                    cpu.pc().wrapping_sub(2) | 1u32,
                )
                &&& cpu.same_but_active(linked)
                &&& #[trigger] linked.jumped(memory, self.destination(cpu) & 0xFFFF_FFFEu32, next)
            }
    }

    pub fn execute(self, cpu: &mut CPU, memory: &mut GBAMemory) -> (r: CYCLES)
        requires
            self.can_run(*old(cpu), *old(memory)),
        ensures
            self.ran(*old(cpu), *old(memory), *final(cpu), *final(memory), r),
    {
        let link_register_val = cpu.get_register(14);
        let link = cpu.get_pc().wrapping_sub(2) | 1u32;
        cpu.set_register(14, link);
        let ghost linked = *cpu;
        let destination = link_register_val.wrapping_add(self.offset());
        cpu.set_pc(destination);
        let ghost written = *cpu;
        proof {
            crate::bits::lemma_word_align(destination);
        }
        let memory_fetch = memory.readu16(cpu.get_pc() as usize);
        let flush = cpu.flush_pipeline(memory);
        proof {
            assert(written.flushed(*old(memory), *cpu));
            assert(linked.jumped(*old(memory), destination & 0xFFFF_FFFEu32, *cpu));
            assert(flush <= 16 && memory_fetch.cycles <= 5);
        }
        memory_fetch.cycles + flush
    }
}

/// The branch offsets as sums: a field of `w` bits shifted left, with the
/// sign bit of the field copied into every higher bit of the word.
proof fn lemma_branch_offset_fields(ins: u32)
    by (bit_vector)
    ensures
        (ins & 0xFFu32) < 0x80 ==> spec_sign_extend((ins & 0x00FFu32) << 1u32, 8) == (ins & 0xFFu32) * 2,
        (ins & 0xFFu32) >= 0x80 ==> spec_sign_extend((ins & 0x00FFu32) << 1u32, 8) == (ins & 0xFFu32) * 2
            + 0xFFFF_FE00u32,
        (ins & 0x7FFu32) < 0x400 ==> spec_sign_extend((ins & 0x07FFu32) << 1u32, 11) == (ins & 0x7FFu32) * 2,
        (ins & 0x7FFu32) >= 0x400 ==> spec_sign_extend((ins & 0x07FFu32) << 1u32, 11) == (ins & 0x7FFu32) * 2
            + 0xFFFF_F000u32,
        (ins & 0x7FFu32) < 0x400 ==> spec_sign_extend((ins & 0x07FFu32) << 12u32, 22) == (ins & 0x7FFu32)
            * 0x1000,
        (ins & 0x7FFu32) >= 0x400 ==> spec_sign_extend((ins & 0x07FFu32) << 12u32, 22) == (ins & 0x7FFu32)
            * 0x1000 + 0xFF80_0000u32,
        (ins & 0x7FFu32) << 1u32 == (ins & 0x7FFu32) * 2,
        ins & 0xFFu32 < 0x100,
        ins & 0x7FFu32 < 0x800,
{
}

/// The value of the low `bits` bits of a field read as a two's complement
/// signed number.
pub open spec fn signed_field(f: int, bits: nat) -> int {
    if f < pow2_int((bits - 1) as nat) {
        f
    } else {
        f - pow2_int(bits)
    }
}

/// Two to the power `n`.
pub open spec fn pow2_int(n: nat) -> int
    decreases n,
{
    if n == 0 {
        1
    } else {
        2 * pow2_int((n - 1) as nat)
    }
}

/// A THUMB conditional branch with 8-bit offset field `f` moves the PC by
/// `f` half words, `f` read as a signed number: the offset is
/// `sign_extend(f << 1)` from bit 8.
pub proof fn lemma_conditional_branch_offset(ins: u32)
    ensures
        signed(ThumbConditionalBranch(ins).spec_offset()) == 2 * signed_field((ins & 0xFFu32) as int, 8),
{
    reveal_with_fuel(pow2_int, 9);
    lemma_branch_offset_fields(ins);
}

/// A THUMB unconditional branch with 11-bit offset field `f` moves the PC
/// by `f` half words, `f` read as a signed number: the offset is
/// `sign_extend(f << 1)` from bit 11, and the branch goes to that many bytes
/// after the PC, modulo 2^32.
pub proof fn lemma_unconditional_branch_offset(ins: u32, pc: u32)
    ensures
        signed(ThumbUnconditionalBranch(ins).spec_offset()) == 2 * signed_field((ins & 0x7FFu32) as int, 11),
        pc.wrapping_add(ThumbUnconditionalBranch(ins).spec_offset()) as int == (pc as int + 2
            * signed_field((ins & 0x7FFu32) as int, 11)) % 0x1_0000_0000,
{
    reveal_with_fuel(pow2_int, 12);
    lemma_branch_offset_fields(ins);
    let t = pc as int + 2 * signed_field((ins & 0x7FFu32) as int, 11);
    if t < 0 {
        assert(t % 0x1_0000_0000 == t + 0x1_0000_0000);
    } else if t >= 0x1_0000_0000 {
        assert(t % 0x1_0000_0000 == t - 0x1_0000_0000);
    }
}

/// The first half of THUMB `BL` with 11-bit field `hi` adds `hi << 12`,
/// sign-extended from bit 22, to the PC: `hi` read as a signed number, in
/// units of 4 KiB.
pub proof fn lemma_set_link_register_offset(ins: u32)
    ensures
        signed(ThumbSetLinkRegister(ins).spec_offset()) == 0x1000 * signed_field((ins & 0x7FFu32) as int, 11),
{
    reveal_with_fuel(pow2_int, 12);
    lemma_branch_offset_fields(ins);
}

/// The two halves of THUMB `BL`, with offset fields `hi` and `lo`, branch
/// from the PC that the first half reads to that PC plus
/// `sign_extend(hi << 12 | lo << 1)` over 23 bits, modulo 2^32: the first
/// half leaves PC plus the high part in LR, and the second adds the low
/// part to LR.
pub proof fn lemma_long_branch_target(first: u32, second: u32, pc: u32)
    ensures
        pc.wrapping_add(ThumbSetLinkRegister(first).spec_offset()).wrapping_add(
            ThumbLongBranchWithLink(second).spec_offset(),
        ) as int == (pc as int + signed_field(((first & 0x7FFu32) as int) * 0x1000 + ((second & 0x7FFu32) as int)
            * 2, 23)) % 0x1_0000_0000,
{
    reveal_with_fuel(pow2_int, 24);
    lemma_branch_offset_fields(first);
    lemma_branch_offset_fields(second);
    let hi = (first & 0x7FFu32) as int;
    let lo = (second & 0x7FFu32) as int;
    assert(signed_field(hi * 0x1000 + lo * 2, 23) == 0x1000 * signed_field(hi, 11) + 2 * lo);
    let t = pc as int + 0x1000 * signed_field(hi, 11) + 2 * lo;
    if t < 0 {
        assert(t % 0x1_0000_0000 == t + 0x1_0000_0000);
    } else if t >= 0x1_0000_0000 {
        assert(t % 0x1_0000_0000 == t - 0x1_0000_0000);
    } else {
        assert(t % 0x1_0000_0000 == t);
    }
}

} // verus!
