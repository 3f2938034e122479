use vstd::prelude::*;

use crate::arm7tdmi::arm::data_transfer_instructions::{
    block_fits, hw_size, lemma_register_sequence, lemma_words_wait, load_words, loaded_words, register_sequence,
    registers_from, sdt_loaded, sdt_size, store_words, stored_words, words_wait, BlockDTOpcodes, LoadOpcodes,
    RegisterList, SdtOpcode, SignedAndHwDtLoadOpcodes, SignedAndHwDtOpcodes, StoreOpcodes,
};
use crate::arm7tdmi::cpu::CPU;
use crate::bits::{bit_is_set, bit_of, lemma_register_fields};
use crate::memory::memory::{region_of, wait32, GBAMemory};
use crate::types::{CYCLES, REGISTER};

verus! {

/// THUMB `LDR rd, [pc, #imm]`.
pub struct LdrPCRelative(pub u32);

impl LdrPCRelative {
    pub fn rd(&self) -> (r: REGISTER)
        ensures
            r == (self.0 & 0x0700u32) >> 8u32,
            r < 8,
    {
        proof {
            lemma_register_fields(self.0);
        }
        (self.0 & 0x0700) >> 8
    }

    /// The word offset in bits 0-7, in bytes.
    pub fn offset(&self) -> (r: u32)
        ensures
            r == (self.0 & 0x00FFu32) * 4,
    {
        let v = self.0;
        proof {
            crate::bits::lemma_word_fields(v);
        }
        (v & 0x00FF) * 4
    }

    /// The address loaded from: the PC with bit 1 cleared plus the offset.
    pub open spec fn address(self, cpu: CPU) -> usize {
        (cpu.pc() & !2u32).wrapping_add(((self.0 & 0x00FFu32) * 4) as u32) as usize
    }

    /// Whether the instruction can run from `cpu` and `memory`.
    pub open spec fn can_run(self, cpu: CPU, memory: GBAMemory) -> bool {
        &&& cpu.wf()
        &&& memory.fits(self.address(cpu), 4)
        &&& cpu.can_fetch_at(memory, cpu.pc())
    }

    /// `next` and `next_memory` are `cpu` and `memory` after the instruction
    /// ran, taking `r` cycles.
    pub open spec fn ran(self, cpu: CPU, memory: GBAMemory, next: CPU, next_memory: GBAMemory, r: u8) -> bool {
        &&& next.wf()
        &&& next_memory == memory
        &&& r == 1 + wait32(region_of(self.address(cpu))) + cpu.fetch_cycles_at(cpu.pc())
        &&& exists|advanced: CPU|
            {
                &&& #[trigger] cpu.advanced(memory, advanced)
                &&& next.registers.active_registers@ == advanced.registers.active_registers@.update(
                    ((self.0 & 0x0700u32) >> 8u32) as int,
                    memory.load32(self.address(cpu)),
                )
                &&& advanced.same_but_active(next)
            }
    }

    /// Loads the word into `rd`; the pipeline advances before the register
    /// is written.
    pub fn execute(self, cpu: &mut CPU, memory: &mut GBAMemory) -> (r: CYCLES)
        requires
            self.can_run(*old(cpu), *old(memory)),
        ensures
            self.ran(*old(cpu), *old(memory), *final(cpu), *final(memory), r),
    {
        let address = (cpu.get_pc() & !2u32).wrapping_add(self.offset());
        let memory_fetch = memory.readu32(address as usize);
        let data = memory_fetch.data;
        let advance = cpu.advance_pipeline(memory);
        let ghost advanced = *cpu;
        cpu.set_register(self.rd(), data);
        proof {
            assert(old(cpu).advanced(*old(memory), advanced));
        }
        1 + memory_fetch.cycles + advance
    }
}

/// THUMB loads and stores with a register offset.
pub struct ThumbSdtRegisterOffset(pub u32);

#[derive(Debug, Clone, Copy, PartialEq, Eq, Structural)]
pub enum ThumbSdtRegisterOffsetOpcodes {
    SdtOpcode(SdtOpcode),
    SignedHwOpcode(SignedAndHwDtOpcodes),
}

impl ThumbSdtRegisterOffset {
    /// The operation that bits 9-11 name.
    pub open spec fn spec_opcode(self) -> ThumbSdtRegisterOffsetOpcodes {
        let op = (self.0 >> 9u32) & 0b111u32;
        if op == 0 {
            ThumbSdtRegisterOffsetOpcodes::SdtOpcode(SdtOpcode::Store(StoreOpcodes::STR))
        } else if op == 2 {
            ThumbSdtRegisterOffsetOpcodes::SdtOpcode(SdtOpcode::Store(StoreOpcodes::STRB))
        } else if op == 4 {
            ThumbSdtRegisterOffsetOpcodes::SdtOpcode(SdtOpcode::Load(LoadOpcodes::LDR))
        } else if op == 6 {
            ThumbSdtRegisterOffsetOpcodes::SdtOpcode(SdtOpcode::Load(LoadOpcodes::LDRB))
        } else if op == 1 {
            ThumbSdtRegisterOffsetOpcodes::SignedHwOpcode(SignedAndHwDtOpcodes::STRH)
        } else if op == 3 {
            ThumbSdtRegisterOffsetOpcodes::SignedHwOpcode(SignedAndHwDtOpcodes::Load(SignedAndHwDtLoadOpcodes::LDRSB))
        } else if op == 5 {
            ThumbSdtRegisterOffsetOpcodes::SignedHwOpcode(SignedAndHwDtOpcodes::Load(SignedAndHwDtLoadOpcodes::LDRH))
        } else {
            ThumbSdtRegisterOffsetOpcodes::SignedHwOpcode(SignedAndHwDtOpcodes::Load(SignedAndHwDtLoadOpcodes::LDRSH))
        }
    }

    pub fn opcode(&self) -> (r: ThumbSdtRegisterOffsetOpcodes)
        ensures
            r == self.spec_opcode(),
    {
        let op = (self.0 >> 9u32) & 0b111;
        if op == 0 {
            ThumbSdtRegisterOffsetOpcodes::SdtOpcode(SdtOpcode::Store(StoreOpcodes::STR))
        } else if op == 2 {
            ThumbSdtRegisterOffsetOpcodes::SdtOpcode(SdtOpcode::Store(StoreOpcodes::STRB))
        } else if op == 4 {
            ThumbSdtRegisterOffsetOpcodes::SdtOpcode(SdtOpcode::Load(LoadOpcodes::LDR))
        } else if op == 6 {
            ThumbSdtRegisterOffsetOpcodes::SdtOpcode(SdtOpcode::Load(LoadOpcodes::LDRB))
        } else if op == 1 {
            ThumbSdtRegisterOffsetOpcodes::SignedHwOpcode(SignedAndHwDtOpcodes::STRH)
        } else if op == 3 {
            ThumbSdtRegisterOffsetOpcodes::SignedHwOpcode(SignedAndHwDtOpcodes::Load(SignedAndHwDtLoadOpcodes::LDRSB))
        } else if op == 5 {
            ThumbSdtRegisterOffsetOpcodes::SignedHwOpcode(SignedAndHwDtOpcodes::Load(SignedAndHwDtLoadOpcodes::LDRH))
        } else {
            ThumbSdtRegisterOffsetOpcodes::SignedHwOpcode(SignedAndHwDtOpcodes::Load(SignedAndHwDtLoadOpcodes::LDRSH))
        }
    }

    pub fn ro(&self) -> (r: REGISTER)
        ensures
            r == (self.0 & 0x01C0u32) >> 6u32,
            r < 8,
    {
        proof {
            lemma_register_fields(self.0);
        }
        (self.0 & 0x01C0) >> 6
    }

    pub fn rb(&self) -> (r: REGISTER)
        ensures
            r == (self.0 & 0x0038u32) >> 3u32,
            r < 8,
    {
        proof {
            lemma_register_fields(self.0);
        }
        (self.0 & 0x0038) >> 3
    }

    pub fn rd(&self) -> (r: REGISTER)
        ensures
            r == self.0 & 0x0007u32,
            r < 8,
    {
        proof {
            lemma_register_fields(self.0);
        }
        self.0 & 0x0007
    }

    /// The address accessed: the base register plus the offset register.
    pub open spec fn address(self, cpu: CPU) -> usize {
        cpu.reg32((self.0 & 0x0038u32) >> 3u32).wrapping_add(cpu.reg32((self.0 & 0x01C0u32) >> 6u32)) as usize
    }

    /// The size of the access.
    pub open spec fn size(self) -> usize {
        match self.spec_opcode() {
            ThumbSdtRegisterOffsetOpcodes::SdtOpcode(op) => sdt_size(op),
            ThumbSdtRegisterOffsetOpcodes::SignedHwOpcode(op) => hw_size(op),
        }
    }

    /// Whether the instruction can run from `cpu` and `memory`.
    pub open spec fn can_run(self, cpu: CPU, memory: GBAMemory) -> bool {
        &&& cpu.wf()
        &&& memory.fits(self.address(cpu), self.size())
    }

    /// `next` and `next_memory` are `cpu` and `memory` after the instruction
    /// ran, taking `r` cycles.
    pub open spec fn ran(self, cpu: CPU, memory: GBAMemory, next: CPU, next_memory: GBAMemory, r: u8) -> bool {
        &&& next.wf()
        &&& match self.spec_opcode() {
            ThumbSdtRegisterOffsetOpcodes::SdtOpcode(op) => op.applied(
                cpu,
                memory,
                self.0 & 0x0007u32,
                self.address(cpu),
                next,
                next_memory,
                r,
            ),
            ThumbSdtRegisterOffsetOpcodes::SignedHwOpcode(op) => op.applied(
                cpu,
                memory,
                self.0 & 0x0007u32,
                self.address(cpu),
                next,
                next_memory,
                r,
            ),
        }
    }

    /// Transfers between `rd` and the address, as the ARM transfers do.
    pub fn execute(self, cpu: &mut CPU, memory: &mut GBAMemory) -> (r: CYCLES)
        requires
            self.can_run(*old(cpu), *old(memory)),
        ensures
            self.ran(*old(cpu), *old(memory), *final(cpu), *final(memory), r),
    {
        let access_address = cpu.get_register(self.rb()).wrapping_add(cpu.get_register(self.ro()));
        match self.opcode() {
            ThumbSdtRegisterOffsetOpcodes::SdtOpcode(opcode) => opcode.execute(cpu, memory, self.rd(), access_address as usize),
            ThumbSdtRegisterOffsetOpcodes::SignedHwOpcode(opcode) => opcode.execute(cpu, memory, self.rd(), access_address as usize),
        }
    }
}

/// THUMB word and byte loads and stores with a 5-bit immediate offset.
pub struct ThumbSdtImmOffset(pub u32);

impl ThumbSdtImmOffset {
    pub open spec fn spec_opcode(self) -> SdtOpcode {
        let op = (self.0 & 0x1800u32) >> 11u32;
        if op == 0 {
            SdtOpcode::Store(StoreOpcodes::STR)
        } else if op == 1 {
            SdtOpcode::Load(LoadOpcodes::LDR)
        } else if op == 2 {
            SdtOpcode::Store(StoreOpcodes::STRB)
        } else {
            SdtOpcode::Load(LoadOpcodes::LDRB)
        }
    }

    pub fn opcode(&self) -> (r: SdtOpcode)
        ensures
            r == self.spec_opcode(),
    {
        let op = (self.0 & 0x1800) >> 11;
        if op == 0 {
            SdtOpcode::Store(StoreOpcodes::STR)
        } else if op == 1 {
            SdtOpcode::Load(LoadOpcodes::LDR)
        } else if op == 2 {
            SdtOpcode::Store(StoreOpcodes::STRB)
        } else {
            SdtOpcode::Load(LoadOpcodes::LDRB)
        }
    }

    pub fn imm(&self) -> (r: u32)
        ensures
            r == (self.0 & 0x07C0u32) >> 6u32,
            r < 32,
    {
        let v = self.0;
        proof {
            crate::bits::lemma_word_fields(v);
        }
        (v & 0x07C0) >> 6
    }

    pub fn rb(&self) -> (r: REGISTER)
        ensures
            r == (self.0 & 0x0038u32) >> 3u32,
            r < 8,
    {
        proof {
            lemma_register_fields(self.0);
        }
        (self.0 & 0x0038) >> 3
    }

    pub fn rd(&self) -> (r: REGISTER)
        ensures
            r == self.0 & 0x0007u32,
            r < 8,
    {
        proof {
            lemma_register_fields(self.0);
        }
        self.0 & 0x0007
    }

    /// The address: the base plus the offset scaled by the access size.
    pub open spec fn address(self, cpu: CPU) -> usize {
        cpu.reg32((self.0 & 0x0038u32) >> 3u32).wrapping_add(
            (((self.0 & 0x07C0u32) >> 6u32) * sdt_size(self.spec_opcode())) as u32,
        ) as usize
    }

    /// Whether the instruction can run from `cpu` and `memory`.
    pub open spec fn can_run(self, cpu: CPU, memory: GBAMemory) -> bool {
        &&& cpu.wf()
        &&& memory.fits(self.address(cpu), sdt_size(self.spec_opcode()))
    }

    /// `next` and `next_memory` are `cpu` and `memory` after the instruction
    /// ran, taking `r` cycles.
    pub open spec fn ran(self, cpu: CPU, memory: GBAMemory, next: CPU, next_memory: GBAMemory, r: u8) -> bool {
        &&& next.wf()
        &&& self.spec_opcode().applied(
            cpu,
            memory,
            self.0 & 0x0007u32,
            self.address(cpu),
            next,
            next_memory,
            r,
        )
    }

    pub fn execute(self, cpu: &mut CPU, memory: &mut GBAMemory) -> (r: CYCLES)
        requires
            self.can_run(*old(cpu), *old(memory)),
        ensures
            self.ran(*old(cpu), *old(memory), *final(cpu), *final(memory), r),
    {
        let opcode = self.opcode();
        let scale: u32 = match opcode {
            SdtOpcode::Load(LoadOpcodes::LDR) => 4,
            SdtOpcode::Load(LoadOpcodes::LDRB) => 1,
            SdtOpcode::Store(StoreOpcodes::STR) => 4,
            SdtOpcode::Store(StoreOpcodes::STRB) => 1,
        };
        let access_address = cpu.get_register(self.rb()).wrapping_add(self.imm() * scale);
        opcode.execute(cpu, memory, self.rd(), access_address as usize)
    }
}

/// THUMB `LDRH` and `STRH` with a 5-bit immediate offset.
pub struct ThumbSdtHwImmOffset(pub u32);

impl ThumbSdtHwImmOffset {
    pub open spec fn spec_opcode(self) -> SignedAndHwDtOpcodes {
        if bit_of(self.0, 11) {
            SignedAndHwDtOpcodes::Load(SignedAndHwDtLoadOpcodes::LDRH)
        } else {
            SignedAndHwDtOpcodes::STRH
        }
    }

    pub fn opcode(&self) -> (r: SignedAndHwDtOpcodes)
        ensures
            r == self.spec_opcode(),
    {
        if bit_is_set(self.0, 11) {
            SignedAndHwDtOpcodes::Load(SignedAndHwDtLoadOpcodes::LDRH)
        } else {
            SignedAndHwDtOpcodes::STRH
        }
    }

    /// The offset: bits 6-10 as a half-word count, in bytes.
    pub fn imm(&self) -> (r: u32)
        ensures
            r == (self.0 & 0x07C0u32) >> 5u32,
    {
        (self.0 & 0x07C0) >> 5
    }

    pub fn rb(&self) -> (r: REGISTER)
        ensures
            r == (self.0 & 0x0038u32) >> 3u32,
            r < 8,
    {
        proof {
            lemma_register_fields(self.0);
        }
        (self.0 & 0x0038) >> 3
    }

    pub fn rd(&self) -> (r: REGISTER)
        ensures
            r == self.0 & 0x0007u32,
            r < 8,
    {
        proof {
            lemma_register_fields(self.0);
        }
        self.0 & 0x0007
    }

    pub open spec fn address(self, cpu: CPU) -> usize {
        cpu.reg32((self.0 & 0x0038u32) >> 3u32).wrapping_add((self.0 & 0x07C0u32) >> 5u32) as usize
    }

    /// Whether the instruction can run from `cpu` and `memory`.
    pub open spec fn can_run(self, cpu: CPU, memory: GBAMemory) -> bool {
        &&& cpu.wf()
        &&& memory.fits(self.address(cpu), 2)
    }

    /// `next` and `next_memory` are `cpu` and `memory` after the instruction
    /// ran, taking `r` cycles.
    pub open spec fn ran(self, cpu: CPU, memory: GBAMemory, next: CPU, next_memory: GBAMemory, r: u8) -> bool {
        &&& self.spec_opcode().applied(
            cpu,
            memory,
            self.0 & 0x0007u32,
            self.address(cpu),
            next,
            next_memory,
            r,
        )
    }

    pub fn execute(self, cpu: &mut CPU, memory: &mut GBAMemory) -> (r: CYCLES)
        requires
            self.can_run(*old(cpu), *old(memory)),
        ensures
            self.ran(*old(cpu), *old(memory), *final(cpu), *final(memory), r),
    {
        let address = cpu.get_register(self.rb()).wrapping_add(self.imm());
        self.opcode().execute(cpu, memory, self.rd(), address as usize)
    }
}

/// THUMB `LDR` and `STR` relative to the SP.
pub struct ThumbSdtSpImm(pub u32);

impl ThumbSdtSpImm {
    pub open spec fn spec_opcode(self) -> SdtOpcode {
        if bit_of(self.0, 11) {
            SdtOpcode::Load(LoadOpcodes::LDR)
        } else {
            SdtOpcode::Store(StoreOpcodes::STR)
        }
    }

    pub fn rd(&self) -> (r: REGISTER)
        ensures
            r == (self.0 & 0x0700u32) >> 8u32,
            r < 8,
    {
        proof {
            lemma_register_fields(self.0);
        }
        (self.0 & 0x0700) >> 8
    }

    pub fn imm(&self) -> (r: u32)
        ensures
            r == self.0 & 0x00FFu32,
            r <= 0xFF,
    {
        let v = self.0;
        proof {
            crate::bits::lemma_word_fields(v);
        }
        v & 0x00FF
    }

    pub fn opcode(&self) -> (r: SdtOpcode)
        ensures
            r == self.spec_opcode(),
    {
        if bit_is_set(self.0, 11) {
            SdtOpcode::Load(LoadOpcodes::LDR)
        } else {
            SdtOpcode::Store(StoreOpcodes::STR)
        }
    }

    /// The address: the SP plus the word offset in bits 0-7.
    pub open spec fn address(self, cpu: CPU) -> usize {
        cpu.reg(13).wrapping_add(((self.0 & 0x00FFu32) * 4) as u32) as usize
    }

    /// Whether the instruction can run from `cpu` and `memory`.
    pub open spec fn can_run(self, cpu: CPU, memory: GBAMemory) -> bool {
        &&& cpu.wf()
        &&& memory.fits(self.address(cpu), 4)
    }

    /// `next` and `next_memory` are `cpu` and `memory` after the instruction
    /// ran, taking `r` cycles.
    pub open spec fn ran(self, cpu: CPU, memory: GBAMemory, next: CPU, next_memory: GBAMemory, r: u8) -> bool {
        &&& next.wf()
        &&& self.spec_opcode().applied(
            cpu,
            memory,
            (self.0 & 0x0700u32) >> 8u32,
            self.address(cpu),
            next,
            next_memory,
            r,
        )
    }

    pub fn execute(self, cpu: &mut CPU, memory: &mut GBAMemory) -> (r: CYCLES)
        requires
            self.can_run(*old(cpu), *old(memory)),
        ensures
            self.ran(*old(cpu), *old(memory), *final(cpu), *final(memory), r),
    {
        let address = cpu.get_sp().wrapping_add(self.imm() * 4);
        self.opcode().execute(cpu, memory, self.rd(), address as usize)
    }
}

/// The registers of a list given as bits, in ascending order.
fn registers_of(list: u32) -> (r: Vec<REGISTER>)
    requires
        list < 0x1_0000,
    ensures
        r@ == register_sequence(list),
{
    let mut walk = RegisterList { list, i: 0 };
    let mut registers: Vec<REGISTER> = Vec::new();
    loop
        invariant
            walk.list == list,
            walk.list < 0x1_0000,
            walk.i <= 16,
            register_sequence(list) == registers@ + registers_from(walk.list, walk.i as int),
        ensures
            register_sequence(list) == registers@,
        decreases 16 - walk.i,
    {
        match walk.next() {
            Some(register) => {
                registers.push(register);
                proof {
                    assert(register_sequence(list) =~= registers@ + registers_from(walk.list, walk.i as int));
                }
            },
            None => {
                assert(registers@ + Seq::<u32>::empty() =~= registers@);
                break;
            },
        }
    }
    registers
}

/// THUMB `PUSH` and `POP`: the low registers, and LR (push) or PC (pop).
pub struct ThumbPushPop(pub u32);

#[derive(Debug, Clone, Copy, PartialEq, Eq, Structural)]
pub enum ThumbPushPopOpcodes {
    PUSH,
    POP,
}

impl ThumbPushPop {
    /// The register list as bits: bits 0-7, with LR (push) or PC (pop) when
    /// bit 8 is set.
    pub open spec fn list_bits(self) -> u32 {
        let low = self.0 & 0xFFu32;
        if bit_of(self.0, 8) {
            if bit_of(self.0, 11) {
                low | (1u32 << 15u32)
            } else {
                low | (1u32 << 14u32)
            }
        } else {
            low
        }
    }

    /// The registers transferred, in ascending order.
    pub open spec fn spec_registers(self) -> Seq<u32> {
        register_sequence(self.list_bits())
    }

    pub fn opcode(&self) -> (r: ThumbPushPopOpcodes)
        ensures
            r == if bit_of(self.0, 11) { ThumbPushPopOpcodes::POP } else { ThumbPushPopOpcodes::PUSH },
    {
        if bit_is_set(self.0, 11) {
            ThumbPushPopOpcodes::POP
        } else {
            ThumbPushPopOpcodes::PUSH
        }
    }

    pub fn register_list(&self) -> (r: Vec<REGISTER>)
        ensures
            r@ == self.spec_registers(),
    {
        let v = self.0;
        let low = v & 0xFF;
        let list = if bit_is_set(v, 8) {
            match self.opcode() {
                ThumbPushPopOpcodes::PUSH => low | (1u32 << 14u32),
                ThumbPushPopOpcodes::POP => low | (1u32 << 15u32),
            }
        } else {
            low
        };
        proof {
            crate::bits::lemma_word_fields(v);
        }
        registers_of(list)
    }

    /// Whether the instruction pops the PC.
    pub open spec fn pops_pc(self) -> bool {
        bit_of(self.0, 8) && bit_of(self.0, 11)
    }

    /// Whether the transfer can run: the pipeline can advance, the block
    /// below (push) or above (pop) the SP is served, and a popped PC can
    /// refill the pipeline.
    pub open spec fn can_execute(self, cpu: CPU, memory: GBAMemory) -> bool {
        let n = self.spec_registers().len() as int;
        let sp = cpu.reg(13) as int;
        &&& cpu.can_fetch_at(memory, cpu.pc())
        &&& if bit_of(self.0, 11) {
            &&& block_fits(memory@, sp, n)
            &&& self.pops_pc() ==> cpu.jump_fetch_ok(memory, memory.load32((sp + 4 * (n - 1)) as usize))
        } else {
            &&& sp >= 4 * n
            &&& block_fits(memory@, sp - 4 * n, n)
        }
    }

    /// Whether the instruction can run from `cpu` and `memory`.
    pub open spec fn can_run(self, cpu: CPU, memory: GBAMemory) -> bool {
        &&& cpu.wf()
        &&& self.can_execute(cpu, memory)
    }

    /// `next` and `next_memory` are `cpu` and `memory` after the instruction
    /// ran, taking `r` cycles.
    pub open spec fn ran(self, cpu: CPU, memory: GBAMemory, next: CPU, next_memory: GBAMemory, r: u8) -> bool {
        &&& next.wf()
        &&& exists|advanced: CPU|
            {
                let n = self.spec_registers().len() as int;
                let sp = cpu.reg(13) as int;
                &&& #[trigger] cpu.advanced(memory, advanced)
                &&& if bit_of(self.0, 11) {
                    let loaded = loaded_words(advanced.registers.active_registers@, memory@, self.spec_registers(), sp, n);
                    &&& next_memory == memory
                    &&& r == cpu.fetch_cycles_at(cpu.pc()) + 1 + words_wait(sp, n)
                    &&& if self.pops_pc() {
                        exists|popped: CPU, flushed: CPU|
                            {
                                &&& popped.wf()
                                &&& popped.registers.active_registers@ == loaded
                                &&& advanced.same_but_active(popped)
                                &&& #[trigger] popped.flushed(memory, flushed)
                                &&& next.registers.active_registers@ == flushed.registers.active_registers@.update(
                                    13,
                                    (sp + 4 * n) as u32,
                                )
                                &&& flushed.same_but_active(next)
                            }
                    } else {
                        &&& next.registers.active_registers@ == loaded.update(13, (sp + 4 * n) as u32)
                        &&& advanced.same_but_active(next)
                    }
                } else {
                    &&& next_memory@ == stored_words(memory@, advanced, self.spec_registers(), sp - 4 * n, n)
                    &&& next.registers.active_registers@ == advanced.registers.active_registers@.update(
                        13,
                        (sp - 4 * n) as u32,
                    )
                    &&& advanced.same_but_active(next)
                    &&& r == cpu.fetch_cycles_at(cpu.pc()) + words_wait(sp - 4 * n, n)
                }
            }
    }

    /// Pushes the registers below the SP, or pops them from it; the SP
    /// moves past the block. A popped PC refills the pipeline.
    pub fn execute(self, cpu: &mut CPU, memory: &mut GBAMemory) -> (r: CYCLES)
        requires
            self.can_run(*old(cpu), *old(memory)),
        ensures
            self.ran(*old(cpu), *old(memory), *final(cpu), *final(memory), r),
    {
        let sp = cpu.get_sp() as usize;
        let advance = cpu.advance_pipeline(memory);
        let ghost advanced = *cpu;
        let registers = self.register_list();
        proof {
            lemma_register_sequence(self.list_bits());
        }
        let count = registers.len();
        match self.opcode() {
            ThumbPushPopOpcodes::PUSH => {
                let base_address = sp - count * 4;
                proof {
                    lemma_words_wait(base_address as int, count as int);
                }
                let cycles = store_words(cpu, memory, &registers, base_address);
                cpu.set_register(13, base_address as u32);
                proof {
                    assert(old(cpu).advanced(*old(memory), advanced));
                }
                advance + cycles
            },
            ThumbPushPopOpcodes::POP => {
                proof {
                    lemma_words_wait(sp as int, count as int);
                }
                let cycles = load_words(cpu, memory, &registers, sp);
                let ghost popped = *cpu;
                if bit_is_set(self.0, 8) {
                    proof {
                        let list = self.list_bits();
                        let v = self.0;
                        crate::bits::lemma_word_bits(v, 0, 0);
                        assert(bit_of(list, 15));
                        assert forall|b: u32| bit_of(list, b) && b != 15 implies b < 8 by {
                            crate::bits::lemma_word_bits(v, b, 0);
                        }
                        assert(registers@.contains(15u32));
                        let last = (count - 1) as int;
                        assert(registers@[last] == 15) by {
                            let k = choose|k: int| 0 <= k < registers@.len() && registers@[k] == 15u32;
                            if k < last {
                                assert(registers@[k] < registers@[last]);
                            }
                        }
                        lemma_loaded_last(advanced.registers.active_registers@, memory@, registers@, sp as int, count as int);
                        assert(popped.reg(15) == memory.load32((sp + 4 * (count - 1)) as usize));
                    }
                    cpu.flush_pipeline(memory);
                }
                let ghost flushed = *cpu;
                cpu.set_register(13, (sp + count * 4) as u32);
                proof {
                    assert(old(cpu).advanced(*old(memory), advanced));
                    if self.pops_pc() {
                        assert(popped.flushed(*old(memory), flushed));
                    }
                }
                advance + 1 + cycles
            },
        }
    }
}

/// After loading distinct registers, the last one holds the last word.
pub proof fn lemma_loaded_last(active: Seq<u32>, v: crate::memory::memory::MemoryView, registers: Seq<u32>, first: int, n: int)
    requires
        0 < n <= registers.len(),
        active.len() == 16,
        forall|k: int| 0 <= k < registers.len() ==> #[trigger] registers[k] < 16,
    ensures
        loaded_words(active, v, registers, first, n)[registers[n - 1] as int] == crate::memory::memory::view_load32(
            v,
            (first + 4 * (n - 1)) as usize,
        ),
        loaded_words(active, v, registers, first, n).len() == 16,
    decreases n,
{
    lemma_loaded_len(active, v, registers, first, n - 1);
}

/// Loading registers keeps the register file's size.
pub proof fn lemma_loaded_len(active: Seq<u32>, v: crate::memory::memory::MemoryView, registers: Seq<u32>, first: int, n: int)
    requires
        n <= registers.len(),
        active.len() == 16,
        forall|k: int| 0 <= k < registers.len() ==> #[trigger] registers[k] < 16,
    ensures
        loaded_words(active, v, registers, first, n).len() == 16,
    decreases n,
{
    if n > 0 {
        lemma_loaded_len(active, v, registers, first, n - 1);
    }
}

/// THUMB `STMIA` and `LDMIA` of low registers, with write-back.
pub struct ThumbBlockDT(pub u32);

impl ThumbBlockDT {
    pub fn opcode(&self) -> (r: BlockDTOpcodes)
        ensures
            r == if bit_of(self.0, 11) { BlockDTOpcodes::LDM } else { BlockDTOpcodes::STM },
    {
        if bit_is_set(self.0, 11) {
            BlockDTOpcodes::LDM
        } else {
            BlockDTOpcodes::STM
        }
    }

    /// The registers of bits 0-7, in ascending order.
    pub open spec fn spec_registers(self) -> Seq<u32> {
        register_sequence(self.0 & 0xFFu32)
    }

    pub fn register_list(&self) -> (r: Vec<REGISTER>)
        ensures
            r@ == self.spec_registers(),
    {
        let v = self.0;
        proof {
            crate::bits::lemma_word_fields(v);
        }
        registers_of(v & 0xFF)
    }

    pub fn rb(&self) -> (r: REGISTER)
        ensures
            r == (self.0 & 0x0700u32) >> 8u32,
            r < 8,
    {
        proof {
            lemma_register_fields(self.0);
        }
        (self.0 & 0x0700) >> 8
    }

    /// Whether the instruction can run from `cpu` and `memory`.
    pub open spec fn can_run(self, cpu: CPU, memory: GBAMemory) -> bool {
        &&& cpu.wf()
        &&& block_fits(
            memory@,
            cpu.reg32((self.0 & 0x0700u32) >> 8u32) as int,
            self.spec_registers().len() as int,
        )
    }

    /// `next` and `next_memory` are `cpu` and `memory` after the instruction
    /// ran, taking `r` cycles.
    pub open spec fn ran(self, cpu: CPU, memory: GBAMemory, next: CPU, next_memory: GBAMemory, r: u8) -> bool {
        &&& next.wf()
        &&& ({
            let n = self.spec_registers().len() as int;
            let rb = (self.0 & 0x0700u32) >> 8u32;
            let base = cpu.reg32(rb) as int;
            if bit_of(self.0, 11) {
                &&& next_memory == memory
                &&& next.registers.active_registers@ == loaded_words(
                    cpu.registers.active_registers@,
                    memory@,
                    self.spec_registers(),
                    base,
                    n,
                ).update(rb as int, (base + 4 * n) as u32)
                &&& cpu.same_but_active(next)
                &&& r == 1 + words_wait(base, n)
            } else {
                &&& next_memory@ == stored_words(memory@, cpu, self.spec_registers(), base, n)
                &&& next.registers.active_registers@ == cpu.registers.active_registers@.update(
                    rb as int,
                    (base + 4 * n) as u32,
                )
                &&& cpu.same_but_active(next)
                &&& r == words_wait(base, n)
            }
        })
    }

    /// Stores or loads the registers upwards from the base register, which
    /// then points past the block.
    pub fn execute(self, cpu: &mut CPU, memory: &mut GBAMemory) -> (r: CYCLES)
        requires
            self.can_run(*old(cpu), *old(memory)),
        ensures
            self.ran(*old(cpu), *old(memory), *final(cpu), *final(memory), r),
    {
        let rb = self.rb();
        let base = cpu.get_register(rb) as usize;
        let registers = self.register_list();
        proof {
            lemma_register_sequence(self.0 & 0xFFu32);
            lemma_words_wait(base as int, registers.len() as int);
        }
        let end = base + registers.len() * 4;
        match self.opcode() {
            BlockDTOpcodes::STM => {
                let cycles = store_words(cpu, memory, &registers, base);
                cpu.set_register(rb, end as u32);
                cycles
            },
            BlockDTOpcodes::LDM => {
                let cycles = load_words(cpu, memory, &registers, base);
                cpu.set_register(rb, end as u32);
                1 + cycles
            },
        }
    }
}

} // verus!
