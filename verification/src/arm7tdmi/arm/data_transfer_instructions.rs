use vstd::prelude::*;

use crate::arm7tdmi::arm::alu::{shift_type_of, spec_register_shift, Shift, ShiftType};
use crate::arm7tdmi::cpu::CPU;
use crate::arm7tdmi::instruction_table::Operand;
use crate::bits::{bit_is_set, bit_of, lemma_register_fields, sign_extend, spec_rotate_right, spec_sign_extend};
use crate::memory::memory::{
    lemma_memory_word_read_back, lemma_store_keeps_fits, region_of, storage_of, view_aligned_word, view_fits,
    view_load32, view_offset, view_store16, view_store32, view_store8, wait16, wait32, writable_region, GBAMemory,
    MemoryView, IORAM_REGION,
};
use crate::types::{CYCLES, REGISTER, WORD};

verus! {

/// `LDR`, `LDRB`, `STR` and `STRB`: a word or byte transfer between a
/// register and memory.
pub struct SdtInstruction(pub u32);

#[derive(Debug, Clone, Copy, PartialEq, Eq, Structural)]
pub enum SdtOpcode {
    Load(LoadOpcodes),
    Store(StoreOpcodes),
}

#[derive(Debug, Clone, Copy, PartialEq, Eq, Structural)]
pub enum LoadOpcodes {
    LDR,
    LDRB,
}

#[derive(Debug, Clone, Copy, PartialEq, Eq, Structural)]
pub enum StoreOpcodes {
    STR,
    STRB,
}

/// The offset of a single data transfer: a 12-bit immediate, or a register
/// shifted by an immediate amount.
#[derive(Debug, Clone, Copy, PartialEq, Eq, Structural)]
pub enum SdtOffset {
    Imm(u32),
    ShiftedRegister(REGISTER, Shift),
}

/// The register shift that an immediate-shift field encodes: an amount of 0
/// stands for LSL #0, LSR #32, ASR #32 and RRX.
pub open spec fn immediate_register_shift(instruction: u32) -> Shift {
    let amount = (instruction & 0x0000_0F80u32) >> 7u32;
    let shift_type = (instruction >> 5u32) & 0b11u32;
    if amount == 0 {
        if shift_type == 0 {
            Shift(ShiftType::LSL, Operand::Immediate(0))
        } else if shift_type == 1 {
            Shift(ShiftType::LSR, Operand::Immediate(32))
        } else if shift_type == 2 {
            Shift(ShiftType::ASR, Operand::Immediate(32))
        } else {
            Shift(ShiftType::RRX, Operand::Immediate(1))
        }
    } else {
        Shift(shift_type_of(shift_type), Operand::Immediate(amount))
    }
}

impl SdtInstruction {
    pub open spec fn spec_rd(self) -> u32 {
        (self.0 & 0x0000_F000u32) >> 12u32
    }

    pub open spec fn spec_rn(self) -> u32 {
        (self.0 & 0x000F_0000u32) >> 16u32
    }

    /// Whether the transfer writes the address back to the base register:
    /// always after it (post-indexed), or with bit 21 before it.
    pub open spec fn spec_write_back(self) -> bool {
        !bit_of(self.0, 24) || bit_of(self.0, 21)
    }

    /// The operation: bit 20 loads, bit 22 picks a byte.
    pub open spec fn spec_opcode(self) -> SdtOpcode {
        if bit_of(self.0, 20) {
            if bit_of(self.0, 22) {
                SdtOpcode::Load(LoadOpcodes::LDRB)
            } else {
                SdtOpcode::Load(LoadOpcodes::LDR)
            }
        } else {
            if bit_of(self.0, 22) {
                SdtOpcode::Store(StoreOpcodes::STRB)
            } else {
                SdtOpcode::Store(StoreOpcodes::STR)
            }
        }
    }

    /// The offset: with bit 25 a shifted register, else a 12-bit immediate.
    pub open spec fn spec_offset(self) -> SdtOffset {
        if bit_of(self.0, 25) {
            SdtOffset::ShiftedRegister(self.0 & 0xFu32, immediate_register_shift(self.0))
        } else {
            SdtOffset::Imm(self.0 & 0x0000_0FFFu32)
        }
    }

    pub fn rd(&self) -> (r: REGISTER)
        ensures
            r == self.spec_rd(),
            r < 16,
    {
        proof {
            lemma_register_fields(self.0);
        }
        (self.0 & 0x0000_F000) >> 12
    }

    pub fn rn(&self) -> (r: REGISTER)
        ensures
            r == self.spec_rn(),
            r < 16,
    {
        proof {
            lemma_register_fields(self.0);
        }
        (self.0 & 0x000F_0000) >> 16
    }

    /// Whether the offset is added to the base (bit 23) or subtracted.
    pub fn add_offset(&self) -> (r: bool)
        ensures
            r == bit_of(self.0, 23),
    {
        bit_is_set(self.0, 23)
    }

    /// Whether the offset applies before the transfer (bit 24).
    pub fn pre_indexed_addressing(&self) -> (r: bool)
        ensures
            r == bit_of(self.0, 24),
    {
        bit_is_set(self.0, 24)
    }

    pub fn write_back_address(&self, pre_indexed_addressing: bool) -> (r: bool)
        ensures
            r == (!pre_indexed_addressing || bit_of(self.0, 21)),
    {
        !pre_indexed_addressing || bit_is_set(self.0, 21)
    }

    pub fn opcode(&self) -> (r: SdtOpcode)
        ensures
            r == self.spec_opcode(),
    {
        if bit_is_set(self.0, 20) {
            if bit_is_set(self.0, 22) {
                SdtOpcode::Load(LoadOpcodes::LDRB)
            } else {
                SdtOpcode::Load(LoadOpcodes::LDR)
            }
        } else {
            if bit_is_set(self.0, 22) {
                SdtOpcode::Store(StoreOpcodes::STRB)
            } else {
                SdtOpcode::Store(StoreOpcodes::STR)
            }
        }
    }

    pub fn offset(&self) -> (r: SdtOffset)
        ensures
            r == self.spec_offset(),
            r matches SdtOffset::ShiftedRegister(reg, shift) ==> reg < 16 && shift.1 is Immediate,
    {
        if bit_is_set(self.0, 25) {
            let v = self.0;
            let shift_amount = (v & 0x0000_0F80) >> 7;
            let shift_type = (v >> 5u32) & 0b11;
            proof {
                crate::bits::lemma_word_fields(v);
            }
            let shift = if shift_amount == 0 {
                if shift_type == 0 {
                    Shift(ShiftType::LSL, Operand::Immediate(0))
                } else if shift_type == 1 {
                    Shift(ShiftType::LSR, Operand::Immediate(32))
                } else if shift_type == 2 {
                    Shift(ShiftType::ASR, Operand::Immediate(32))
                } else {
                    Shift(ShiftType::RRX, Operand::Immediate(1))
                }
            } else {
                let t = if shift_type == 0 {
                    ShiftType::LSL
                } else if shift_type == 1 {
                    ShiftType::LSR
                } else if shift_type == 2 {
                    ShiftType::ASR
                } else {
                    ShiftType::ROR
                };
                Shift(t, Operand::Immediate(shift_amount))
            };
            SdtOffset::ShiftedRegister(v & 0xF, shift)
        } else {
            SdtOffset::Imm(self.0 & 0x0000_0FFF)
        }
    }
}

/// The size in bytes of what a single data transfer moves.
pub open spec fn sdt_size(op: SdtOpcode) -> usize {
    match op {
        SdtOpcode::Load(LoadOpcodes::LDR) => 4,
        SdtOpcode::Store(StoreOpcodes::STR) => 4,
        _ => 1,
    }
}

/// The value that a load reads at `address`: a rotated word or a byte.
pub open spec fn sdt_loaded(op: SdtOpcode, memory: GBAMemory, address: usize) -> u32 {
    match op {
        SdtOpcode::Load(LoadOpcodes::LDRB) => memory.load8(address) as u32,
        _ => memory.load32(address),
    }
}

/// The wait cycles of the transfer at `address`.
pub open spec fn sdt_wait(op: SdtOpcode, address: usize) -> u8 {
    if sdt_size(op) == 4 {
        wait32(region_of(address))
    } else {
        wait16(region_of(address))
    }
}

/// The value that a store writes from register `rd`: the PC reads 4 further
/// on.
pub open spec fn stored_register(cpu: CPU, rd: REGISTER) -> u32 {
    if rd == 15 {
        cpu.reg(15).wrapping_add(4)
    } else {
        cpu.reg(rd as int)
    }
}

/// `(c1, m1)` is what a load into `rd` of `value` leaves from `c0`, taking
/// `cycles` with `wait` wait cycles: a load into the PC refills the pipeline.
pub open spec fn loaded_into(c0: CPU, m0: GBAMemory, rd: REGISTER, value: u32, wait: u8, c1: CPU, m1: GBAMemory, cycles: u8) -> bool {
    &&& m1 == m0
    &&& c1.wf()
    &&& if rd == 15 {
        &&& c0.jumped(m0, value, c1)
        &&& cycles == (wait + 1 + c0.jump_cycles(value)) as u8
    } else {
        &&& c1.registers.active_registers@ == c0.registers.active_registers@.update(rd as int, value)
        &&& c0.same_but_active(c1)
        &&& cycles == (wait + 1) as u8
    }
}

impl SdtOpcode {
    /// What the transfer leaves: a load writes `rd`, a store writes memory.
    pub open spec fn applied(self, c0: CPU, m0: GBAMemory, rd: REGISTER, address: usize, c1: CPU, m1: GBAMemory, cycles: u8) -> bool {
        match self {
            SdtOpcode::Load(_) => loaded_into(c0, m0, rd, sdt_loaded(self, m0, address), sdt_wait(self, address), c1, m1, cycles),
            SdtOpcode::Store(StoreOpcodes::STR) => {
                &&& m1@ == view_store32(m0@, address, stored_register(c0, rd))
                &&& c1 == c0
                &&& cycles == sdt_wait(self, address)
            },
            SdtOpcode::Store(StoreOpcodes::STRB) => {
                &&& m1@ == view_store8(m0@, address, stored_register(c0, rd) as u8)
                &&& c1 == c0
                &&& cycles == sdt_wait(self, address)
            },
        }
    }

    /// Moves a word or a byte between register `rd` and `access_address`.
    pub fn execute(&self, cpu: &mut CPU, memory: &mut GBAMemory, rd: REGISTER, access_address: usize) -> (r: CYCLES)
        requires
            old(cpu).wf(),
            rd < 16,
            old(memory).fits(access_address, sdt_size(*self)),
            (*self is Load && rd == 15) ==> old(cpu).jump_fetch_ok(*old(memory), sdt_loaded(*self, *old(memory), access_address)),
        ensures
            final(cpu).wf(),
            self.applied(*old(cpu), *old(memory), rd, access_address, *final(cpu), *final(memory), r),
    {
        match self {
            SdtOpcode::Load(load_opcode) => {
                let (data, wait) = match load_opcode {
                    LoadOpcodes::LDR => {
                        let fetch = memory.readu32(access_address);
                        (fetch.data, fetch.cycles)
                    },
                    LoadOpcodes::LDRB => {
                        let fetch = memory.read(access_address);
                        (fetch.data as u32, fetch.cycles)
                    },
                };
                assert(wait <= 8);
                if rd == 15 {
                    let flush = cpu.jump_to(memory, data);
                    proof {
                        assert(flush <= 16);
                    }
                    flush + wait + 1
                } else {
                    cpu.set_register(rd, data);
                    wait + 1
                }
            },
            SdtOpcode::Store(store) => {
                let mut data = cpu.get_register(rd);
                if rd == 15 {
                    data = data.wrapping_add(4);
                }
                match store {
                    StoreOpcodes::STR => memory.writeu32(access_address, data),
                    StoreOpcodes::STRB => memory.write(access_address, data as u8),
                }
            },
        }
    }
}

impl SdtInstruction {
    /// The offset's value and the shifter's carry out once it is computed.
    pub open spec fn offset_value(self, cpu: CPU) -> (u32, u32) {
        match self.spec_offset() {
            SdtOffset::Imm(imm) => (imm, cpu.shifter_output),
            SdtOffset::ShiftedRegister(r, shift) => spec_register_shift(
                shift.0,
                shift.1,
                cpu.shift_inputs(r, shift).0,
                cpu.shift_inputs(r, shift).1,
                cpu.carry_bit(),
            ),
        }
    }

    /// The base register with the offset added (bit 23) or subtracted.
    pub open spec fn offset_address(self, cpu: CPU) -> u32 {
        if bit_of(self.0, 23) {
            cpu.reg(self.spec_rn() as int).wrapping_add(self.offset_value(cpu).0)
        } else {
            cpu.reg(self.spec_rn() as int).wrapping_sub(self.offset_value(cpu).0)
        }
    }

    /// The address accessed: the offset address when pre-indexed, else the
    /// base.
    pub open spec fn access_address(self, cpu: CPU) -> usize {
        (if bit_of(self.0, 24) {
            self.offset_address(cpu)
        } else {
            cpu.reg(self.spec_rn() as int)
        }) as usize
    }

    /// Whether the transfer can run: its address is served, and a load into
    /// the PC can refill the pipeline.
    pub open spec fn can_execute(self, cpu: CPU, memory: GBAMemory) -> bool {
        &&& memory.fits(self.access_address(cpu), sdt_size(self.spec_opcode()))
        &&& (self.spec_opcode() is Load && self.spec_rd() == 15) ==> cpu.jump_fetch_ok(
            memory,
            sdt_loaded(self.spec_opcode(), memory, self.access_address(cpu)),
        )
    }

    /// Whether the instruction can run from `cpu` and `memory`.
    pub open spec fn can_run(self, cpu: CPU, memory: GBAMemory) -> bool {
        &&& cpu.wf()
        &&& self.can_execute(cpu, memory)
    }

    /// `next` and `next_memory` are `cpu` and `memory` after the instruction
    /// ran, taking `r` cycles.
    pub open spec fn ran(self, cpu: CPU, memory: GBAMemory, next: CPU, next_memory: GBAMemory, r: u8) -> bool {
        &&& next.wf()
        &&& exists|shifted: CPU, transferred: CPU|
            {
                &&& shifted.wf()
                &&& cpu.same_but_shifter(shifted)
                &&& shifted.shifter_output == self.offset_value(cpu).1
                &&& #[trigger] self.spec_opcode().applied(
                    shifted,
                    memory,
                    self.spec_rd(),
                    self.access_address(cpu),
                    transferred,
                    next_memory,
                    r,
                )
                &&& next.registers.active_registers@ == if self.spec_write_back() {
                    transferred.registers.active_registers@.update(self.spec_rn() as int, self.offset_address(cpu))
                } else {
                    transferred.registers.active_registers@
                }
                &&& transferred.same_but_active(next)
            }
    }

    /// Executes the transfer, writing the offset address back to the base
    /// register when it is post-indexed or bit 21 says so.
    pub fn execute(self, cpu: &mut CPU, memory: &mut GBAMemory) -> (r: CYCLES)
        requires
            self.can_run(*old(cpu), *old(memory)),
        ensures
            self.ran(*old(cpu), *old(memory), *final(cpu), *final(memory), r),
    {
        let mut cycles: CYCLES = 0;
        let offset = match self.offset() {
            SdtOffset::Imm(imm) => imm,
            SdtOffset::ShiftedRegister(register, shift) => cpu.execute_register_shift(&mut cycles, register, shift, false),
        };
        let ghost shifted = *cpu;
        let base_register_address = cpu.get_register(self.rn());
        let offset_address = if self.add_offset() {
            base_register_address.wrapping_add(offset)
        } else {
            base_register_address.wrapping_sub(offset)
        };
        let pre_indexed_addressing = self.pre_indexed_addressing();
        let access_address = (if pre_indexed_addressing {
            offset_address
        } else {
            base_register_address
        }) as usize;
        let opcode = self.opcode();
        let transfer_cycles = opcode.execute(cpu, memory, self.rd(), access_address);
        let ghost transferred = *cpu;
        if self.write_back_address(pre_indexed_addressing) {
            cpu.set_register(self.rn(), offset_address);
        }
        proof {
            assert(opcode.applied(shifted, *old(memory), self.spec_rd(), self.access_address(*old(cpu)), transferred, *memory, transfer_cycles));
        }
        transfer_cycles
    }
}

/// `LDRH`, `LDRSB`, `LDRSH` and `STRH`: half-word and signed transfers.
pub struct SignedAndHwDtInstruction(pub u32);

#[derive(Debug, Clone, Copy, PartialEq, Eq, Structural)]
pub enum SignedAndHwDtOpcodes {
    Load(SignedAndHwDtLoadOpcodes),
    STRH,
}

#[derive(Debug, Clone, Copy, PartialEq, Eq, Structural)]
pub enum SignedAndHwDtLoadOpcodes {
    LDRH,
    LDRSB,
    LDRSH,
}

impl SignedAndHwDtInstruction {
    pub open spec fn spec_rd(self) -> u32 {
        (self.0 & 0x0000_F000u32) >> 12u32
    }

    pub open spec fn spec_rn(self) -> u32 {
        (self.0 & 0x000F_0000u32) >> 16u32
    }

    /// Whether the operation field is one the instruction set defines: a
    /// load with bits 5-6 clear is refused.
    pub open spec fn has_opcode(self) -> bool {
        bit_of(self.0, 20) ==> (self.0 >> 5u32) & 0b11u32 != 0
    }

    /// The operation: a store, or by bits 5-6 one of the loads.
    pub open spec fn spec_opcode(self) -> SignedAndHwDtOpcodes {
        if bit_of(self.0, 20) {
            if (self.0 >> 5u32) & 0b11u32 == 1 {
                SignedAndHwDtOpcodes::Load(SignedAndHwDtLoadOpcodes::LDRH)
            } else if (self.0 >> 5u32) & 0b11u32 == 2 {
                SignedAndHwDtOpcodes::Load(SignedAndHwDtLoadOpcodes::LDRSB)
            } else {
                SignedAndHwDtOpcodes::Load(SignedAndHwDtLoadOpcodes::LDRSH)
            }
        } else {
            SignedAndHwDtOpcodes::STRH
        }
    }

    /// The offset: with bit 22 an 8-bit immediate split over bits 0-3 and
    /// 8-11, else the register in bits 0-3.
    pub open spec fn spec_offset(self) -> Operand {
        if bit_of(self.0, 22) {
            Operand::Immediate((self.0 & 0x0000_000Fu32) | ((self.0 >> 4u32) & 0x0000_00F0u32))
        } else {
            Operand::Register(self.0 & 0x0000_000Fu32)
        }
    }

    pub fn add_offset(&self) -> (r: bool)
        ensures
            r == bit_of(self.0, 23),
    {
        bit_is_set(self.0, 23)
    }

    pub fn pre_indexed_addressing(&self) -> (r: bool)
        ensures
            r == bit_of(self.0, 24),
    {
        bit_is_set(self.0, 24)
    }

    pub fn rn(&self) -> (r: REGISTER)
        ensures
            r == self.spec_rn(),
            r < 16,
    {
        proof {
            lemma_register_fields(self.0);
        }
        (self.0 & 0x000F_0000) >> 16
    }

    pub fn rd(&self) -> (r: REGISTER)
        ensures
            r == self.spec_rd(),
            r < 16,
    {
        proof {
            lemma_register_fields(self.0);
        }
        (self.0 & 0x0000_F000) >> 12
    }

    pub fn offset(&self) -> (r: Operand)
        ensures
            r == self.spec_offset(),
            r matches Operand::Register(reg) ==> reg < 16,
    {
        let v = self.0;
        if bit_is_set(v, 22) {
            Operand::Immediate((v & 0x0000_000F) | ((v >> 4u32) & 0x0000_00F0))
        } else {
            proof {
                crate::bits::lemma_word_fields(v);
            }
            Operand::Register(v & 0x0000_000F)
        }
    }

    pub fn opcode(&self) -> (r: SignedAndHwDtOpcodes)
        requires
            self.has_opcode(),
        ensures
            r == self.spec_opcode(),
    {
        if bit_is_set(self.0, 20) {
            let sh = (self.0 >> 5u32) & 0b11;
            if sh == 1 {
                SignedAndHwDtOpcodes::Load(SignedAndHwDtLoadOpcodes::LDRH)
            } else if sh == 2 {
                SignedAndHwDtOpcodes::Load(SignedAndHwDtLoadOpcodes::LDRSB)
            } else {
                SignedAndHwDtOpcodes::Load(SignedAndHwDtLoadOpcodes::LDRSH)
            }
        } else {
            SignedAndHwDtOpcodes::STRH
        }
    }

    pub fn write_back_address(&self, pre_indexed_addressing: bool) -> (r: bool)
        ensures
            r == (!pre_indexed_addressing || bit_of(self.0, 21)),
    {
        !pre_indexed_addressing || bit_is_set(self.0, 21)
    }
}

/// The size in bytes of what a half-word or signed transfer moves.
pub open spec fn hw_size(op: SignedAndHwDtOpcodes) -> usize {
    match op {
        SignedAndHwDtOpcodes::Load(SignedAndHwDtLoadOpcodes::LDRSB) => 1,
        _ => 2,
    }
}

/// The value that a half-word or signed load reads at `address`.
pub open spec fn hw_loaded(op: SignedAndHwDtOpcodes, memory: GBAMemory, address: usize) -> u32 {
    match op {
        SignedAndHwDtOpcodes::Load(SignedAndHwDtLoadOpcodes::LDRSB) => spec_sign_extend(memory.load8(address) as u32, 7),
        SignedAndHwDtOpcodes::Load(SignedAndHwDtLoadOpcodes::LDRSH) => spec_sign_extend(memory.load16(address) as u32, 15),
        _ => memory.load16(address) as u32,
    }
}

impl SignedAndHwDtOpcodes {
    /// What the transfer leaves: a load writes `rd` (the PC too, with no
    /// refill), a store writes the low half word of `rd`.
    pub open spec fn applied(self, c0: CPU, m0: GBAMemory, rd: REGISTER, address: usize, c1: CPU, m1: GBAMemory, cycles: u8) -> bool {
        &&& c1.wf()
        &&& match self {
            SignedAndHwDtOpcodes::Load(_) => {
                &&& m1 == m0
                &&& c1.registers.active_registers@ == c0.registers.active_registers@.update(rd as int, hw_loaded(self, m0, address))
                &&& c0.same_but_active(c1)
                &&& cycles == (1 + wait16(region_of(address))) as u8
            },
            SignedAndHwDtOpcodes::STRH => {
                &&& m1@ == view_store16(m0@, address, stored_register(c0, rd) as u16)
                &&& c1 == c0
                &&& cycles == wait16(region_of(address))
            },
        }
    }

    /// Moves a half word or a sign-extended value between `rd` and memory.
    pub fn execute(&self, cpu: &mut CPU, memory: &mut GBAMemory, rd: REGISTER, access_address: usize) -> (r: CYCLES)
        requires
            old(cpu).wf(),
            rd < 16,
            old(memory).fits(access_address, hw_size(*self)),
        ensures
            self.applied(*old(cpu), *old(memory), rd, access_address, *final(cpu), *final(memory), r),
    {
        match self {
            SignedAndHwDtOpcodes::Load(load_opcode) => {
                let (data, wait) = match load_opcode {
                    SignedAndHwDtLoadOpcodes::LDRH => {
                        let load = memory.readu16(access_address);
                        (load.data as u32, load.cycles)
                    },
                    SignedAndHwDtLoadOpcodes::LDRSB => {
                        let load = memory.read(access_address);
                        (sign_extend(load.data as u32, 7), load.cycles)
                    },
                    SignedAndHwDtLoadOpcodes::LDRSH => {
                        let load = memory.readu16(access_address);
                        (sign_extend(load.data as u32, 15), load.cycles)
                    },
                };
                assert(wait <= 5);
                cpu.set_register(rd, data);
                1 + wait
            },
            SignedAndHwDtOpcodes::STRH => {
                let mut data: WORD = cpu.get_register(rd);
                if rd == 15 {
                    data = data.wrapping_add(4);
                }
                memory.writeu16(access_address, data as u16)
            },
        }
    }
}

impl SignedAndHwDtInstruction {
    /// The offset's value: a register or the immediate.
    pub open spec fn offset_value(self, cpu: CPU) -> u32 {
        match self.spec_offset() {
            Operand::Register(r) => cpu.reg(r as int),
            Operand::Immediate(imm) => imm,
        }
    }

    pub open spec fn offset_address(self, cpu: CPU) -> u32 {
        if bit_of(self.0, 23) {
            cpu.reg(self.spec_rn() as int).wrapping_add(self.offset_value(cpu))
        } else {
            cpu.reg(self.spec_rn() as int).wrapping_sub(self.offset_value(cpu))
        }
    }

    pub open spec fn access_address(self, cpu: CPU) -> usize {
        (if bit_of(self.0, 24) {
            self.offset_address(cpu)
        } else {
            cpu.reg(self.spec_rn() as int)
        }) as usize
    }

    pub open spec fn spec_write_back(self) -> bool {
        !bit_of(self.0, 24) || bit_of(self.0, 21)
    }

    /// Whether the instruction can run from `cpu` and `memory`.
    pub open spec fn can_run(self, cpu: CPU, memory: GBAMemory) -> bool {
        &&& cpu.wf()
        &&& self.has_opcode()
        &&& memory.fits(self.access_address(cpu), hw_size(self.spec_opcode()))
    }

    /// `next` and `next_memory` are `cpu` and `memory` after the instruction
    /// ran, taking `r` cycles.
    pub open spec fn ran(self, cpu: CPU, memory: GBAMemory, next: CPU, next_memory: GBAMemory, r: u8) -> bool {
        &&& next.wf()
        &&& exists|transferred: CPU|
            {
                &&& #[trigger] self.spec_opcode().applied(
                    cpu,
                    memory,
                    self.spec_rd(),
                    self.access_address(cpu),
                    transferred,
                    next_memory,
                    r,
                )
                &&& next.registers.active_registers@ == if self.spec_write_back() {
                    transferred.registers.active_registers@.update(self.spec_rn() as int, self.offset_address(cpu))
                } else {
                    transferred.registers.active_registers@
                }
                &&& transferred.same_but_active(next)
            }
    }

    /// Executes the transfer, writing the offset address back to the base
    /// register when it is post-indexed or bit 21 says so.
    pub fn execute(self, cpu: &mut CPU, memory: &mut GBAMemory) -> (r: CYCLES)
        requires
            self.can_run(*old(cpu), *old(memory)),
        ensures
            self.ran(*old(cpu), *old(memory), *final(cpu), *final(memory), r),
    {
        let offset = match self.offset() {
            Operand::Register(reg) => cpu.get_register(reg),
            Operand::Immediate(imm) => imm,
        };
        let base_register = self.rn();
        let base_register_address = cpu.get_register(base_register);
        let offset_address = if self.add_offset() {
            base_register_address.wrapping_add(offset)
        } else {
            base_register_address.wrapping_sub(offset)
        };
        let pre_indexed_addressing = self.pre_indexed_addressing();
        let address = (if pre_indexed_addressing {
            offset_address
        } else {
            base_register_address
        }) as usize;
        let opcode = self.opcode();
        let cycles = opcode.execute(cpu, memory, self.rd(), address);
        let ghost transferred = *cpu;
        if self.write_back_address(pre_indexed_addressing) {
            cpu.set_register(base_register, offset_address);
        }
        proof {
            assert(opcode.applied(*old(cpu), *old(memory), self.spec_rd(), self.access_address(*old(cpu)), transferred, *memory, cycles));
        }
        cycles
    }
}

/// The registers named by the set bits of `list` from bit `i` on, in
/// ascending order.
pub open spec fn registers_from(list: u32, i: int) -> Seq<u32>
    decreases 16 - i,
{
    if i >= 16 || i < 0 {
        Seq::empty()
    } else if bit_of(list, i as u32) {
        seq![i as u32] + registers_from(list, i + 1)
    } else {
        registers_from(list, i + 1)
    }
}

/// The registers that a register list names, in ascending order.
pub open spec fn register_sequence(list: u32) -> Seq<u32> {
    registers_from(list, 0)
}

/// The registers of a list from bit `i` on are below 16, at least `i`,
/// strictly ascending, and are exactly the set bits.
pub proof fn lemma_registers_from(list: u32, i: int)
    requires
        0 <= i <= 16,
    ensures
        forall|k: int| 0 <= k < registers_from(list, i).len() ==> i <= #[trigger] registers_from(list, i)[k] < 16,
        forall|k: int| 0 <= k < registers_from(list, i).len() ==> bit_of(list, #[trigger] registers_from(list, i)[k]),
        forall|j: int, k: int|
            0 <= j < k < registers_from(list, i).len() ==> #[trigger] registers_from(list, i)[j] < #[trigger] registers_from(
                list,
                i,
            )[k],
        forall|b: u32| i <= b < 16 && bit_of(list, b) ==> #[trigger] registers_from(list, i).contains(b),
        registers_from(list, i).len() <= 16 - i,
    decreases 16 - i,
{
    if i < 16 {
        lemma_registers_from(list, i + 1);
        let rest = registers_from(list, i + 1);
        if bit_of(list, i as u32) {
            let s = seq![i as u32] + rest;
            assert forall|b: u32| i <= b < 16 && bit_of(list, b) implies #[trigger] s.contains(b) by {
                if b == i {
                    assert(s[0] == b);
                } else {
                    assert(rest.contains(b));
                    let k = choose|k: int| 0 <= k < rest.len() && rest[k] == b;
                    assert(s[k + 1] == b);
                }
            }
        }
    }
}

/// A register list names exactly the registers of its set bits, each once,
/// in ascending order.
pub proof fn lemma_register_sequence(list: u32)
    ensures
        forall|k: int| 0 <= k < register_sequence(list).len() ==> #[trigger] register_sequence(list)[k] < 16,
        forall|k: int| 0 <= k < register_sequence(list).len() ==> bit_of(list, #[trigger] register_sequence(list)[k]),
        forall|j: int, k: int|
            0 <= j < k < register_sequence(list).len() ==> #[trigger] register_sequence(list)[j] < #[trigger] register_sequence(
                list,
            )[k],
        forall|b: u32| b < 16 && bit_of(list, b) ==> #[trigger] register_sequence(list).contains(b),
        register_sequence(list).len() <= 16,
{
    lemma_registers_from(list, 0);
}

/// A walk over the registers that a 16-bit register list names.
pub struct RegisterList {
    pub list: u32,
    pub i: u32,
}

impl RegisterList {
    /// The next register of the list at or after position `i`, if any; the
    /// walk then continues after it, or stops at 16.
    pub fn next(&mut self) -> (r: Option<u32>)
        requires
            old(self).list < 0x1_0000,
            old(self).i <= 16,
        ensures
            final(self).list == old(self).list,
            final(self).i <= 16,
            registers_from(old(self).list, old(self).i as int) == match r {
                Some(reg) => seq![reg] + registers_from(final(self).list, final(self).i as int),
                None => Seq::<u32>::empty(),
            },
            r is None ==> final(self).i == 16,
            r matches Some(reg) ==> old(self).i <= reg < 16 && final(self).i == reg + 1,
    {
        while !bit_is_set(self.list, self.i)
            invariant
                self.list == old(self).list,
                self.list < 0x1_0000,
                old(self).i <= self.i <= 16,
                registers_from(old(self).list, old(self).i as int) == registers_from(self.list, self.i as int),
            decreases 16 - self.i,
        {
            if self.i == 16 {
                return None;
            }
            self.i = self.i + 1;
        }
        proof {
            let l = self.list;
            let i = self.i;
            assert(i < 16) by {
                if i == 16 {
                    crate::bits::lemma_word_bits(l, 0, 0);
                }
            }
        }
        let register = self.i;
        self.i = self.i + 1;
        Some(register)
    }
}

/// `LDM` and `STM`: block transfers of a list of registers.
pub struct BlockDTInstruction(pub u32);

#[derive(Debug, Clone, Copy, PartialEq, Eq, Structural)]
pub enum BlockDTOpcodes {
    STM,
    LDM,
}

impl BlockDTInstruction {
    pub open spec fn spec_rn(self) -> u32 {
        (self.0 & 0x000F_0000u32) >> 16u32
    }

    /// The registers the instruction transfers, in ascending order.
    pub open spec fn spec_registers(self) -> Seq<u32> {
        register_sequence(self.0 & 0xFFFFu32)
    }

    pub fn rn(&self) -> (r: REGISTER)
        ensures
            r == self.spec_rn(),
            r < 16,
    {
        proof {
            lemma_register_fields(self.0);
        }
        (self.0 & 0x000F_0000) >> 16
    }

    /// Whether the base moves before each transfer (bit 24).
    pub fn pre_add(&self) -> (r: bool)
        ensures
            r == bit_of(self.0, 24),
    {
        bit_is_set(self.0, 24)
    }

    /// Whether the addresses go up (bit 23) or down.
    pub fn add_to_base(&self) -> (r: bool)
        ensures
            r == bit_of(self.0, 23),
    {
        bit_is_set(self.0, 23)
    }

    /// The S bit (22): user-bank transfer or CPSR restore.
    pub fn s_bit(&self) -> (r: bool)
        ensures
            r == bit_of(self.0, 22),
    {
        bit_is_set(self.0, 22)
    }

    pub fn write_back(&self) -> (r: bool)
        ensures
            r == bit_of(self.0, 21),
    {
        bit_is_set(self.0, 21)
    }

    pub fn opcode(&self) -> (r: BlockDTOpcodes)
        ensures
            r == if bit_of(self.0, 20) { BlockDTOpcodes::LDM } else { BlockDTOpcodes::STM },
    {
        if bit_is_set(self.0, 20) {
            BlockDTOpcodes::LDM
        } else {
            BlockDTOpcodes::STM
        }
    }

    /// The registers of the list, in ascending order.
    pub fn register_list(&self) -> (r: Vec<REGISTER>)
        ensures
            r@ == self.spec_registers(),
    {
        let v = self.0;
        let mut walk = RegisterList { list: v & 0xFFFF, i: 0 };
        proof {
            crate::bits::lemma_word_fields(v);
        }
        let mut registers: Vec<REGISTER> = Vec::new();
        loop
            invariant
                walk.list == self.0 & 0xFFFFu32,
                walk.list < 0x1_0000,
                walk.i <= 16,
                self.spec_registers() == registers@ + registers_from(walk.list, walk.i as int),
            ensures
                self.spec_registers() == registers@,
            decreases 16 - walk.i,
        {
            let ghost before = walk.i;
            match walk.next() {
                Some(register) => {
                    registers.push(register);
                    proof {
                        assert(self.spec_registers() =~= registers@ + registers_from(walk.list, walk.i as int));
                    }
                },
                None => {
                    assert(registers@ + Seq::<u32>::empty() =~= registers@);
                    break;
                },
            }
        }
        registers
    }
}

/// The contents after the first `k` of `registers` (as `cpu` holds them)
/// were stored as words at `first`, `first + 4`, and so on.
pub open spec fn stored_words(v: MemoryView, cpu: CPU, registers: Seq<u32>, first: int, k: int) -> MemoryView
    decreases k,
{
    if k <= 0 {
        v
    } else {
        view_store32(
            stored_words(v, cpu, registers, first, k - 1),
            (first + 4 * (k - 1)) as usize,
            cpu.reg(registers[k - 1] as int),
        )
    }
}

/// The active registers after the first `k` of `registers` were loaded from
/// the words at `first`, `first + 4`, and so on.
pub open spec fn loaded_words(active: Seq<u32>, v: MemoryView, registers: Seq<u32>, first: int, k: int) -> Seq<u32>
    decreases k,
{
    if k <= 0 {
        active
    } else {
        loaded_words(active, v, registers, first, k - 1).update(
            registers[k - 1] as int,
            view_load32(v, (first + 4 * (k - 1)) as usize),
        )
    }
}

/// The wait cycles of `k` word accesses from `first` on.
pub open spec fn words_wait(first: int, k: int) -> int
    decreases k,
{
    if k <= 0 {
        0
    } else {
        words_wait(first, k - 1) + wait32(region_of((first + 4 * (k - 1)) as usize))
    }
}

/// Whether `n` word accesses from `first` on are all served.
pub open spec fn block_fits(v: MemoryView, first: int, n: int) -> bool {
    &&& 0 <= first
    &&& first + 4 * n <= usize::MAX
    &&& forall|k: int| 0 <= k < n ==> view_fits(v, #[trigger] ((first + 4 * k) as usize), 4)
}

/// Storing words keeps the blocks' lengths.
pub proof fn lemma_stored_words_fits(v: MemoryView, cpu: CPU, registers: Seq<u32>, first: int, k: int)
    requires
        v.0.len() == 8,
    ensures
        stored_words(v, cpu, registers, first, k).0.len() == 8,
        forall|b: usize, size: usize| #[trigger] view_fits(stored_words(v, cpu, registers, first, k), b, size) == view_fits(v, b, size),
    decreases k,
{
    if k > 0 {
        lemma_stored_words_fits(v, cpu, registers, first, k - 1);
        lemma_store_keeps_fits(
            stored_words(v, cpu, registers, first, k - 1),
            (first + 4 * (k - 1)) as usize,
            cpu.reg(registers[k - 1] as int),
        );
    }
}

/// Word accesses wait at most 8 cycles each.
pub proof fn lemma_words_wait(first: int, k: int)
    requires
        0 <= k,
    ensures
        0 <= words_wait(first, k) <= 8 * k,
    decreases k,
{
    if k > 0 {
        lemma_words_wait(first, k - 1);
    }
}

/// The words at `a` and `b` share no byte: they lie in different blocks or
/// four or more bytes apart in one.
pub open spec fn word_slots_apart(a: usize, b: usize) -> bool {
    ||| storage_of(region_of(a)) != storage_of(region_of(b))
    ||| view_offset(a, 4) + 4 <= view_offset(b, 4)
    ||| view_offset(b, 4) + 4 <= view_offset(a, 4)
}

/// No two of the `n` words from `first` on share a byte.
pub open spec fn words_apart(first: int, n: int) -> bool {
    forall|i: int, j: int|
        0 <= i < n && 0 <= j < n && i != j ==> #[trigger] word_slots_apart(
            (first + 4 * i) as usize,
            (first + 4 * j) as usize,
        )
}

/// A word write leaves every word that shares no byte with it.
proof fn lemma_store_keeps_other_word(v: MemoryView, a: usize, value: u32, b: usize)
    requires
        v.0.len() == 8,
        region_of(a) != IORAM_REGION,
        region_of(b) != IORAM_REGION,
        view_fits(v, b, 4),
        word_slots_apart(a, b),
    ensures
        view_aligned_word(view_store32(v, a, value), b) == view_aligned_word(v, b),
{
    let w = view_store32(v, a, value);
    assert forall|i: int| 0 <= i < 4 implies crate::memory::memory::view_byte(w, b, 4, i)
        == crate::memory::memory::view_byte(v, b, 4, i) by {}
}

/// After `n` words were stored from `first` on, the word that holds the
/// `k`-th address is the `k`-th register stored.
proof fn lemma_stored_word(v: MemoryView, cpu: CPU, registers: Seq<u32>, first: int, n: int, k: int)
    requires
        v.0.len() == 8,
        0 <= k < n,
        block_fits(v, first, n),
        words_apart(first, n),
        forall|j: int| 0 <= j < n ==> writable_region(region_of(#[trigger] ((first + 4 * j) as usize))),
    ensures
        view_aligned_word(stored_words(v, cpu, registers, first, n), (first + 4 * k) as usize) == cpu.reg(
            registers[k] as int,
        ),
    decreases n,
{
    let m = n - 1;
    lemma_stored_words_fits(v, cpu, registers, first, m);
    let w = stored_words(v, cpu, registers, first, m);
    let a = (first + 4 * m) as usize;
    assert(view_fits(v, a, 4));
    assert(writable_region(region_of(a)));
    if k == m {
        lemma_memory_word_read_back(w, a, cpu.reg(registers[m] as int));
    } else {
        let b = (first + 4 * k) as usize;
        assert(view_fits(v, b, 4));
        assert(writable_region(region_of(b)));
        assert(word_slots_apart(a, b));
        lemma_stored_word(v, cpu, registers, first, m, k);
        lemma_store_keeps_other_word(w, a, cpu.reg(registers[m] as int), b);
    }
}

/// After `n` registers were loaded from the words at `first` on, the
/// `k`-th of them holds the `k`-th word, when no register is named twice.
proof fn lemma_loaded_word(active: Seq<u32>, v: MemoryView, registers: Seq<u32>, first: int, n: int, k: int)
    requires
        active.len() == 16,
        0 <= k < n <= registers.len(),
        forall|i: int| 0 <= i < registers.len() ==> #[trigger] registers[i] < 16,
        forall|i: int, j: int| 0 <= i < j < registers.len() ==> registers[i] < registers[j],
    ensures
        loaded_words(active, v, registers, first, n)[registers[k] as int] == view_load32(v, (first + 4 * k) as usize),
    decreases n,
{
    let m = n - 1;
    crate::arm7tdmi::thumb::data_transfer_instructions::lemma_loaded_len(active, v, registers, first, m);
    if k < m {
        lemma_loaded_word(active, v, registers, first, m, k);
        assert(registers[k] < registers[m]);
    }
}

/// Registers stored as consecutive words from a word-aligned address into
/// memory that takes writes, where no two of the words share a byte, and
/// then loaded back from that address get back the values they were stored
/// with: pushing registers and popping them again restores them.
pub proof fn lemma_store_then_load_words(
    v: MemoryView,
    cpu: CPU,
    active: Seq<u32>,
    registers: Seq<u32>,
    first: int,
)
    requires
        v.0.len() == 8,
        active.len() == 16,
        forall|i: int| 0 <= i < registers.len() ==> #[trigger] registers[i] < 16,
        forall|i: int, j: int| 0 <= i < j < registers.len() ==> registers[i] < registers[j],
        first % 4 == 0,
        block_fits(v, first, registers.len() as int),
        words_apart(first, registers.len() as int),
        forall|j: int|
            0 <= j < registers.len() ==> writable_region(region_of(#[trigger] ((first + 4 * j) as usize))),
    ensures
        forall|k: int|
            0 <= k < registers.len() ==> #[trigger] loaded_words(
                active,
                stored_words(v, cpu, registers, first, registers.len() as int),
                registers,
                first,
                registers.len() as int,
            )[registers[k] as int] == cpu.reg(registers[k] as int),
{
    let n = registers.len() as int;
    let w = stored_words(v, cpu, registers, first, n);
    assert forall|k: int| 0 <= k < n implies #[trigger] loaded_words(active, w, registers, first, n)[registers[k] as int]
        == cpu.reg(registers[k] as int) by {
        let a = (first + 4 * k) as usize;
        lemma_loaded_word(active, w, registers, first, n, k);
        lemma_stored_word(v, cpu, registers, first, n, k);
        assert(a % 4 == 0);
        crate::bits::lemma_offset_bits(a);
        assert(a & 3usize == 0);
        assert((8 * ((a & 3usize) as u32)) as u32 == 0u32);
        crate::bits::lemma_word_align(0u32);
        assert(spec_rotate_right(view_aligned_word(w, a), 0u32) == view_aligned_word(w, a));
    }
}

/// Stores the words of `registers` at `first`, `first + 4`, and so on.
pub fn store_words(cpu: &CPU, memory: &mut GBAMemory, registers: &Vec<REGISTER>, first: usize) -> (r: CYCLES)
    requires
        registers.len() <= 16,
        forall|k: int| 0 <= k < registers.len() ==> #[trigger] registers@[k] < 16,
        block_fits(old(memory)@, first as int, registers.len() as int),
    ensures
        final(memory)@ == stored_words(old(memory)@, *cpu, registers@, first as int, registers.len() as int),
        r == words_wait(first as int, registers.len() as int),
{
    let mut cycles: CYCLES = 0;
    let mut curr_address = first;
    let mut k: usize = 0;
    while k < registers.len()
        invariant
            k <= registers.len() <= 16,
            forall|j: int| 0 <= j < registers.len() ==> #[trigger] registers@[j] < 16,
            block_fits(old(memory)@, first as int, registers.len() as int),
            curr_address == first + 4 * k,
            memory@ == stored_words(old(memory)@, *cpu, registers@, first as int, k as int),
            cycles == words_wait(first as int, k as int),
        decreases registers.len() - k,
    {
        proof {
            lemma_stored_words_fits(old(memory)@, *cpu, registers@, first as int, k as int);
            assert(view_fits(old(memory)@, ((first + 4 * k) as int) as usize, 4));
            lemma_words_wait(first as int, k as int + 1);
        }
        let data = cpu.get_register(registers[k]);
        let wait = memory.writeu32(curr_address, data);
        cycles = cycles + wait;
        curr_address = curr_address + 4;
        k = k + 1;
    }
    cycles
}

/// Loads the words at `first`, `first + 4`, and so on into `registers`.
pub fn load_words(cpu: &mut CPU, memory: &GBAMemory, registers: &Vec<REGISTER>, first: usize) -> (r: CYCLES)
    requires
        old(cpu).wf(),
        registers.len() <= 16,
        forall|k: int| 0 <= k < registers.len() ==> #[trigger] registers@[k] < 16,
        block_fits(memory@, first as int, registers.len() as int),
    ensures
        final(cpu).wf(),
        final(cpu).registers.active_registers@ == loaded_words(
            old(cpu).registers.active_registers@,
            memory@,
            registers@,
            first as int,
            registers.len() as int,
        ),
        old(cpu).same_but_active(*final(cpu)),
        r == words_wait(first as int, registers.len() as int),
{
    let mut cycles: CYCLES = 0;
    let mut curr_address = first;
    let mut k: usize = 0;
    while k < registers.len()
        invariant
            k <= registers.len() <= 16,
            forall|j: int| 0 <= j < registers.len() ==> #[trigger] registers@[j] < 16,
            block_fits(memory@, first as int, registers.len() as int),
            curr_address == first + 4 * k,
            cpu.wf(),
            cpu.registers.active_registers@ == loaded_words(
                old(cpu).registers.active_registers@,
                memory@,
                registers@,
                first as int,
                k as int,
            ),
            old(cpu).same_but_active(*cpu),
            cycles == words_wait(first as int, k as int),
        decreases registers.len() - k,
    {
        proof {
            assert(view_fits(memory@, ((first + 4 * k) as int) as usize, 4));
            lemma_words_wait(first as int, k as int + 1);
        }
        let memory_fetch = memory.readu32(curr_address);
        cycles = cycles + memory_fetch.cycles;
        cpu.set_register(registers[k], memory_fetch.data);
        curr_address = curr_address + 4;
        k = k + 1;
    }
    cycles
}

impl BlockDTInstruction {
    /// The number of registers transferred.
    pub open spec fn count(self) -> int {
        self.spec_registers().len() as int
    }

    /// The address of the first word transferred from base `base`: the
    /// lowest address of the block, which starts at the base (increment
    /// after), one word above it (increment before), or ends at it
    /// (decrement after) or one word below it (decrement before).
    pub open spec fn first_address(self, base: int) -> int {
        if bit_of(self.0, 23) {
            if bit_of(self.0, 24) {
                base + 4
            } else {
                base
            }
        } else {
            if bit_of(self.0, 24) {
                base - 4 * self.count()
            } else {
                base - 4 * self.count() + 4
            }
        }
    }

    /// The base register's value after write-back.
    pub open spec fn final_base(self, base: int) -> int {
        if bit_of(self.0, 23) {
            base + 4 * self.count()
        } else {
            base - 4 * self.count()
        }
    }

    /// Whether the transfer can run from `cpu`: the S bit is clear, the
    /// pipeline can advance, the block does not start below address 0, and
    /// every word of it is served.
    pub open spec fn can_execute(self, cpu: CPU, memory: GBAMemory) -> bool {
        let base = cpu.reg(self.spec_rn() as int) as int;
        &&& !bit_of(self.0, 22)
        &&& cpu.can_fetch_at(memory, cpu.pc())
        &&& (!bit_of(self.0, 23) ==> base >= 4 * self.count())
        &&& block_fits(memory@, self.first_address(base), self.count())
    }

    /// Whether the instruction can run from `cpu` and `memory`.
    pub open spec fn can_run(self, cpu: CPU, memory: GBAMemory) -> bool {
        &&& cpu.wf()
        &&& self.can_execute(cpu, memory)
    }

    /// `next` and `next_memory` are `cpu` and `memory` after the instruction
    /// ran, taking `r` cycles.
    pub open spec fn ran(self, cpu: CPU, memory: GBAMemory, next: CPU, next_memory: GBAMemory, r: u8) -> bool {
        &&& next.wf()
        &&& exists|advanced: CPU|
            {
                let base = cpu.reg(self.spec_rn() as int) as int;
                let first = self.first_address(base);
                let moved = if bit_of(self.0, 20) {
                    loaded_words(advanced.registers.active_registers@, memory@, self.spec_registers(), first, self.count())
                } else {
                    advanced.registers.active_registers@
                };
                &&& #[trigger] cpu.advanced(memory, advanced)
                &&& next.registers.active_registers@ == if bit_of(self.0, 21) {
                    moved.update(self.spec_rn() as int, self.final_base(base) as u32)
                } else {
                    moved
                }
                &&& advanced.same_but_active(next)
                &&& next_memory@ == if bit_of(self.0, 20) {
                    memory@
                } else {
                    stored_words(memory@, advanced, self.spec_registers(), first, self.count())
                }
                &&& r == cpu.fetch_cycles_at(cpu.pc()) + (if bit_of(self.0, 20) { 1int } else { 0int })
                    + words_wait(first, self.count())
            }
    }

    /// Executes the block transfer: the pipeline advances first, so a stored
    /// PC reads one instruction further on.
    pub fn execute(self, cpu: &mut CPU, memory: &mut GBAMemory) -> (r: CYCLES)
        requires
            self.can_run(*old(cpu), *old(memory)),
        ensures
            self.ran(*old(cpu), *old(memory), *final(cpu), *final(memory), r),
    {
        let base_address = cpu.get_register(self.rn()) as usize;
        let advance_cycles = cpu.advance_pipeline(memory);
        let ghost advanced = *cpu;
        let registers = self.register_list();
        proof {
            lemma_register_sequence(self.0 & 0xFFFFu32);
            lemma_words_wait(self.first_address(base_address as int), self.count());
        }
        let count = registers.len();
        let size = 4 * count;
        let (first, end) = if self.add_to_base() {
            (if self.pre_add() { base_address + 4 } else { base_address }, base_address + size)
        } else {
            let lowest = base_address - size;
            (if self.pre_add() { lowest } else { lowest + 4 }, lowest)
        };
        let transfer_cycles = match self.opcode() {
            BlockDTOpcodes::STM => store_words(cpu, memory, &registers, first),
            BlockDTOpcodes::LDM => 1 + load_words(cpu, memory, &registers, first),
        };
        if self.write_back() {
            cpu.set_register(self.rn(), end as u32);
        }
        proof {
            assert(old(cpu).advanced(*old(memory), advanced));
        }
        advance_cycles + transfer_cycles
    }
}

impl CPU {
    /// Stores `register_list` as words upwards from `base_address`, then
    /// writes the address after the block to the write-back register.
    pub fn stmia_execution(
        &mut self,
        base_address: usize,
        register_list: &Vec<REGISTER>,
        writeback_register: Option<REGISTER>,
        memory: &mut GBAMemory,
    ) -> (r: CYCLES)
        requires
            old(self).wf(),
            register_list.len() <= 16,
            forall|k: int| 0 <= k < register_list.len() ==> #[trigger] register_list@[k] < 16,
            writeback_register matches Some(w) ==> w < 16,
            block_fits(old(memory)@, base_address as int, register_list.len() as int),
        ensures
            final(self).wf(),
            final(memory)@ == stored_words(old(memory)@, *old(self), register_list@, base_address as int, register_list.len() as int),
            final(self).registers.active_registers@ == match writeback_register {
                Some(w) => old(self).registers.active_registers@.update(w as int, (base_address + 4 * register_list.len()) as u32),
                None => old(self).registers.active_registers@,
            },
            old(self).same_but_active(*final(self)),
            r == words_wait(base_address as int, register_list.len() as int),
    {
        let cycles = store_words(self, memory, register_list, base_address);
        if let Some(reg) = writeback_register {
            self.set_register(reg, (base_address + 4 * register_list.len()) as u32);
        }
        cycles
    }

    /// Loads `register_list` from words upwards from `base_address`, then
    /// writes the address after the block to the write-back register.
    pub fn ldmia_execution(
        &mut self,
        base_address: usize,
        register_list: &Vec<REGISTER>,
        writeback_register: Option<REGISTER>,
        memory: &mut GBAMemory,
    ) -> (r: CYCLES)
        requires
            old(self).wf(),
            register_list.len() <= 16,
            forall|k: int| 0 <= k < register_list.len() ==> #[trigger] register_list@[k] < 16,
            writeback_register matches Some(w) ==> w < 16,
            block_fits(old(memory)@, base_address as int, register_list.len() as int),
        ensures
            final(self).wf(),
            *final(memory) == *old(memory),
            final(self).registers.active_registers@ == match writeback_register {
                Some(w) => loaded_words(
                    old(self).registers.active_registers@,
                    old(memory)@,
                    register_list@,
                    base_address as int,
                    register_list.len() as int,
                ).update(w as int, (base_address + 4 * register_list.len()) as u32),
                None => loaded_words(
                    old(self).registers.active_registers@,
                    old(memory)@,
                    register_list@,
                    base_address as int,
                    register_list.len() as int,
                ),
            },
            old(self).same_but_active(*final(self)),
            r == 1 + words_wait(base_address as int, register_list.len() as int),
    {
        proof {
            lemma_words_wait(base_address as int, register_list.len() as int);
        }
        let cycles = 1 + load_words(self, memory, register_list, base_address);
        if let Some(reg) = writeback_register {
            self.set_register(reg, (base_address + 4 * register_list.len()) as u32);
        }
        cycles
    }

    /// Stores `register_list` as words in the block that ends just below
    /// `base_address`, then writes the block's start to the write-back
    /// register.
    pub fn stmdb_execution(
        &mut self,
        base_address: usize,
        register_list: &Vec<REGISTER>,
        writeback_register: Option<REGISTER>,
        memory: &mut GBAMemory,
    ) -> (r: CYCLES)
        requires
            old(self).wf(),
            register_list.len() <= 16,
            forall|k: int| 0 <= k < register_list.len() ==> #[trigger] register_list@[k] < 16,
            writeback_register matches Some(w) ==> w < 16,
            base_address >= 4 * register_list.len(),
            block_fits(old(memory)@, base_address - 4 * register_list.len(), register_list.len() as int),
        ensures
            final(self).wf(),
            final(memory)@ == stored_words(
                old(memory)@,
                *old(self),
                register_list@,
                base_address - 4 * register_list.len(),
                register_list.len() as int,
            ),
            final(self).registers.active_registers@ == match writeback_register {
                Some(w) => old(self).registers.active_registers@.update(w as int, (base_address - 4 * register_list.len()) as u32),
                None => old(self).registers.active_registers@,
            },
            old(self).same_but_active(*final(self)),
            r == words_wait(base_address - 4 * register_list.len(), register_list.len() as int),
    {
        let base_address = base_address - register_list.len() * 4;
        let cycles = self.stmia_execution(base_address, register_list, None, memory);
        if let Some(reg) = writeback_register {
            self.set_register(reg, base_address as u32);
        }
        cycles
    }
}

} // verus!
