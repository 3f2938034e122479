use vstd::prelude::*;

use crate::arm7tdmi::cpsr::{
    flag_bit, lemma_flag_set_reset, lemma_instruction_mode_round_trip, lemma_set_mode_then_mode,
    mode_bits, CPUMode, FlagsRegister, InstructionMode, PSR, SYS_BITS,
};
use crate::arm7tdmi::decoder::{decodable, spec_decode};
use crate::arm7tdmi::interrupts::Exceptions;
use crate::arm7tdmi::registers::{is_banked_mode, Registers};
use crate::bits::bit_of;
use crate::memory::memory::{region_of, wait16, wait32, GBAMemory};
use crate::memory::MemoryFetch;
use crate::types::{ARMByteCode, CYCLES, REGISTER, WORD};

verus! {

pub const PC_REGISTER: usize = 15;
pub const LINK_REGISTER: u32 = 14;
pub const STACK_POINTER: u32 = 13;

/// The PSR value `p` with `flag` set to `b`.
pub open spec fn psr_with(p: u32, flag: FlagsRegister, b: bool) -> u32 {
    if b {
        p | (1u32 << flag_bit(flag))
    } else {
        p & !(1u32 << flag_bit(flag))
    }
}

/// Writing one flag reads back as written and leaves the other flags, the
/// mode, the THUMB bit and the interrupt masks alone.
pub proof fn lemma_psr_with(p: u32, flag: FlagsRegister, b: bool)
    ensures
        PSR(psr_with(p, flag, b)).spec_flag(flag) == b,
        forall|other: FlagsRegister| other != flag ==> #[trigger] PSR(psr_with(p, flag, b)).spec_flag(other) == PSR(p).spec_flag(other),
        PSR(psr_with(p, flag, b)).spec_mode() == PSR(p).spec_mode(),
        PSR(psr_with(p, flag, b)).spec_instruction_mode() == PSR(p).spec_instruction_mode(),
        PSR(psr_with(p, flag, b)).spec_irq_enabled() == PSR(p).spec_irq_enabled(),
        PSR(psr_with(p, flag, b)).spec_fiq_enabled() == PSR(p).spec_fiq_enabled(),
{
    assert forall|other: FlagsRegister| other != flag implies #[trigger] PSR(psr_with(p, flag, b)).spec_flag(other) == PSR(p).spec_flag(other) by {
        lemma_flag_set_reset(p, flag, other);
    }
    lemma_flag_set_reset(p, flag, flag);
    let n = flag_bit(flag);
    crate::bits::lemma_set_reset_bit(p, n, 5);
    crate::bits::lemma_set_reset_bit(p, n, 6);
    crate::bits::lemma_set_reset_bit(p, n, 7);
}

/// Whether the condition field `cond` of an instruction holds for the flags
/// of `p`.
pub open spec fn spec_condition_passed(cond: u32, p: PSR) -> bool {
    let n = p.spec_flag(FlagsRegister::N);
    let z = p.spec_flag(FlagsRegister::Z);
    let c = p.spec_flag(FlagsRegister::C);
    let v = p.spec_flag(FlagsRegister::V);
    if cond == 0 {
        z
    } else if cond == 1 {
        !z
    } else if cond == 2 {
        c
    } else if cond == 3 {
        !c
    } else if cond == 4 {
        n
    } else if cond == 5 {
        !n
    } else if cond == 6 {
        v
    } else if cond == 7 {
        !v
    } else if cond == 8 {
        c && !z
    } else if cond == 9 {
        !c || z
    } else if cond == 10 {
        n == v
    } else if cond == 11 {
        n != v
    } else if cond == 12 {
        !z && n == v
    } else if cond == 13 {
        z || n != v
    } else {
        true
    }
}

/// The conditions come in complementary pairs: EQ/NE, CS/CC, MI/PL, VS/VC,
/// HI/LS, GE/LT and GT/LE; each odd code holds exactly when the even code
/// before it does not.
pub proof fn lemma_condition_pairs(cond: u32, p: PSR)
    requires
        cond < 14,
        cond % 2 == 0,
    ensures
        spec_condition_passed((cond + 1) as u32, p) == !spec_condition_passed(cond, p),
{
}

/// The index in the saved PSR table of the mode's SPSR; user and system
/// modes have none.
pub open spec fn spsr_index(mode: CPUMode) -> Option<int> {
    match mode {
        CPUMode::FIQ => Some(0),
        CPUMode::SVC => Some(1),
        CPUMode::ABT => Some(2),
        CPUMode::IRQ => Some(3),
        CPUMode::UND => Some(4),
        _ => None,
    }
}

/// The ARM7TDMI core: its registers, status registers and pipeline.
#[derive(Debug)]
pub struct CPU {
    pub registers: Registers,
    pub is_halted: bool,
    pub prefetch: [Option<WORD>; 2],
    pub executed_instruction_hex: ARMByteCode,
    pub cpsr: PSR,
    pub shifter_output: u32,
    pub spsr: [PSR; 5],
    pub cycles: u64,
    pub interrupt_triggered: bool,
    pub instruction_count: usize,
    pub show_executed_instructions: bool,
}

impl CPU {
    /// The CPSR's mode is one of the banked modes, and the register file's
    /// current mode is the CPSR's.
    pub open spec fn wf(self) -> bool {
        &&& self.cpsr.has_valid_mode()
        &&& is_banked_mode(self.cpsr.spec_mode())
        &&& self.registers.current_mode == self.cpsr.spec_mode()
    }

    pub open spec fn reg(self, i: int) -> u32 {
        self.registers.active_registers@[i]
    }

    /// The active register that a register field `r` names.
    pub open spec fn reg32(self, r: u32) -> u32 {
        self.reg(r as int)
    }

    pub open spec fn flag(self, f: FlagsRegister) -> bool {
        self.cpsr.spec_flag(f)
    }

    /// The program counter with bit 0 cleared.
    pub open spec fn pc(self) -> u32 {
        self.reg(15) & 0xFFFF_FFFEu32
    }

    /// The current mode's SPSR, if it has one.
    pub open spec fn current_spsr(self) -> Option<PSR> {
        match spsr_index(self.cpsr.spec_mode()) {
            Some(i) => Some(self.spsr@[i]),
            None => None,
        }
    }

    /// `other` equals this CPU but for the CPSR.
    pub open spec fn same_but_cpsr(self, other: CPU) -> bool {
        &&& other.registers == self.registers
        &&& other.is_halted == self.is_halted
        &&& other.prefetch == self.prefetch
        &&& other.executed_instruction_hex == self.executed_instruction_hex
        &&& other.shifter_output == self.shifter_output
        &&& other.spsr == self.spsr
        &&& other.cycles == self.cycles
        &&& other.interrupt_triggered == self.interrupt_triggered
        &&& other.instruction_count == self.instruction_count
        &&& other.show_executed_instructions == self.show_executed_instructions
    }

    /// `other` equals this CPU but for the active registers.
    pub open spec fn same_but_active(self, other: CPU) -> bool {
        &&& other.registers.registers_user == self.registers.registers_user
        &&& other.registers.registers_svc == self.registers.registers_svc
        &&& other.registers.registers_abt == self.registers.registers_abt
        &&& other.registers.registers_irq == self.registers.registers_irq
        &&& other.registers.registers_und == self.registers.registers_und
        &&& other.registers.current_mode == self.registers.current_mode
        &&& other.cpsr == self.cpsr
        &&& other.is_halted == self.is_halted
        &&& other.prefetch == self.prefetch
        &&& other.executed_instruction_hex == self.executed_instruction_hex
        &&& other.shifter_output == self.shifter_output
        &&& other.spsr == self.spsr
        &&& other.cycles == self.cycles
        &&& other.interrupt_triggered == self.interrupt_triggered
        &&& other.instruction_count == self.instruction_count
        &&& other.show_executed_instructions == self.show_executed_instructions
    }

    /// `other` equals this CPU but for the active registers and the
    /// prefetched instructions.
    pub open spec fn same_but_pipeline(self, other: CPU) -> bool {
        &&& other.registers.registers_user == self.registers.registers_user
        &&& other.registers.registers_svc == self.registers.registers_svc
        &&& other.registers.registers_abt == self.registers.registers_abt
        &&& other.registers.registers_irq == self.registers.registers_irq
        &&& other.registers.registers_und == self.registers.registers_und
        &&& other.registers.current_mode == self.registers.current_mode
        &&& other.cpsr == self.cpsr
        &&& other.is_halted == self.is_halted
        &&& other.executed_instruction_hex == self.executed_instruction_hex
        &&& other.shifter_output == self.shifter_output
        &&& other.spsr == self.spsr
        &&& other.cycles == self.cycles
        &&& other.interrupt_triggered == self.interrupt_triggered
        &&& other.instruction_count == self.instruction_count
        &&& other.show_executed_instructions == self.show_executed_instructions
    }

    /// The size of an instruction in the current state: 4 bytes in ARM
    /// state, 2 in THUMB state.
    pub open spec fn step(self) -> u32 {
        match self.cpsr.spec_instruction_mode() {
            InstructionMode::ARM => 4,
            InstructionMode::THUMB => 2,
        }
    }

    /// Whether an instruction of the current state can be fetched at
    /// `address`.
    pub open spec fn can_fetch_at(self, memory: GBAMemory, address: u32) -> bool {
        memory.fits(address as usize, self.step() as usize)
    }

    /// The instruction that a fetch at `address` reads.
    pub open spec fn fetch_at(self, memory: GBAMemory, address: u32) -> u32 {
        match self.cpsr.spec_instruction_mode() {
            InstructionMode::ARM => memory.load32(address as usize),
            InstructionMode::THUMB => memory.load16(address as usize) as u32,
        }
    }

    /// The cycles that a fetch at `address` takes.
    pub open spec fn fetch_cycles_at(self, address: u32) -> u8 {
        match self.cpsr.spec_instruction_mode() {
            InstructionMode::ARM => wait32(region_of(address as usize)),
            InstructionMode::THUMB => wait16(region_of(address as usize)),
        }
    }

    /// The program counter after one instruction, with bit 0 cleared.
    pub open spec fn next_pc(self) -> u32 {
        self.reg(15).wrapping_add(self.step()) & 0xFFFF_FFFEu32
    }

    /// Whether the pipeline can be refilled: the instructions at the program
    /// counter and after it can be fetched.
    pub open spec fn can_flush(self, memory: GBAMemory) -> bool {
        &&& self.can_fetch_at(memory, self.pc())
        &&& self.can_fetch_at(memory, self.next_pc())
    }

    /// `next` is this CPU after the pipeline was refilled from `memory`: the
    /// program counter two instructions on, the instruction at the old
    /// program counter about to execute and the one after it prefetched.
    pub open spec fn flushed(self, memory: GBAMemory, next: CPU) -> bool {
        &&& next.wf()
        &&& next.registers.active_registers@ == self.registers.active_registers@.update(
            15,
            self.reg(15).wrapping_add(self.step()).wrapping_add(self.step()),
        )
        &&& next.prefetch@ == seq![Some(self.fetch_at(memory, self.next_pc())), Some(self.fetch_at(memory, self.pc()))]
        &&& self.same_but_pipeline(next)
    }

    /// Whether a jump to `target` can refill the pipeline in the current
    /// state.
    pub open spec fn jump_fetch_ok(self, memory: GBAMemory, target: u32) -> bool {
        &&& memory.fits((target & 0xFFFF_FFFEu32) as usize, self.step() as usize)
        &&& memory.fits((target.wrapping_add(self.step()) & 0xFFFF_FFFEu32) as usize, self.step() as usize)
    }

    /// `next` is this CPU after a jump to `target`: the PC written and the
    /// pipeline refilled from `memory`.
    pub open spec fn jumped(self, memory: GBAMemory, target: u32, next: CPU) -> bool {
        exists|written: CPU|
            {
                &&& written.wf()
                &&& written.registers.active_registers@ == self.registers.active_registers@.update(15, target)
                &&& self.same_but_active(written)
                &&& #[trigger] written.flushed(memory, next)
            }
    }

    /// The cycles that refilling the pipeline after a jump to `target` takes.
    pub open spec fn jump_cycles(self, target: u32) -> u8 {
        (self.fetch_cycles_at(target & 0xFFFF_FFFEu32) + self.fetch_cycles_at(target.wrapping_add(self.step()) & 0xFFFF_FFFEu32)) as u8
    }

    /// Writes the PC and refills the pipeline from the new address.
    pub fn jump_to(&mut self, memory: &mut GBAMemory, target: u32) -> (r: CYCLES)
        requires
            old(self).wf(),
            old(self).jump_fetch_ok(*old(memory), target),
        ensures
            final(self).wf(),
            old(self).jumped(*old(memory), target, *final(self)),
            r == old(self).jump_cycles(target),
            *final(memory) == *old(memory),
    {
        self.set_register(15, target);
        let ghost written = *self;
        let r = self.flush_pipeline(memory);
        proof {
            assert(written.pc() == target & 0xFFFF_FFFEu32);
            assert(written.flushed(*old(memory), *self));
        }
        r
    }

    /// Sets the PC (bit 0 cleared) and refills the pipeline from it.
    pub fn branch_to(&mut self, memory: &mut GBAMemory, destination: u32) -> (r: CYCLES)
        requires
            old(self).wf(),
            old(self).jump_fetch_ok(*old(memory), destination & 0xFFFF_FFFEu32),
        ensures
            final(self).wf(),
            old(self).jumped(*old(memory), destination & 0xFFFF_FFFEu32, *final(self)),
            r == old(self).jump_cycles(destination & 0xFFFF_FFFEu32),
            *final(memory) == *old(memory),
    {
        self.set_pc(destination);
        let ghost written = *self;
        proof {
            crate::bits::lemma_word_align(destination);
        }
        let r = self.flush_pipeline(memory);
        proof {
            assert(written.flushed(*old(memory), *self));
        }
        r
    }

    /// The cycles that refilling the pipeline takes.
    pub open spec fn flush_cycles(self) -> u8 {
        (self.fetch_cycles_at(self.pc()) + self.fetch_cycles_at(self.next_pc())) as u8
    }

    /// A CPU after reset: every register zero, supervisor mode, ARM state,
    /// interrupts masked.
    /// The state after reset: every register zero, supervisor mode, ARM
    /// state, interrupts masked, the pipeline empty and the counters zero.
    pub open spec fn reset_state(self) -> bool {
        &&& self.wf()
        &&& self.cpsr.0 == 0b1101_0011u32
        &&& self.registers.zeroed()
        &&& forall|i: int| 0 <= i < 5 ==> #[trigger] self.spsr@[i].0 == 0
        &&& self.prefetch@ == seq![None::<u32>, None::<u32>]
        &&& self.shifter_output == 0
        &&& self.cycles == 0
        &&& !self.is_halted
        &&& !self.interrupt_triggered
        &&& self.executed_instruction_hex == 0
        &&& self.instruction_count == 0
        &&& !self.show_executed_instructions
    }

    pub fn new() -> (r: CPU)
        ensures
            r.reset_state(),
            r.wf(),
            r.cpsr.0 == 0b1101_0011u32,
            forall|i: int| 0 <= i < 16 ==> r.reg(i) == 0,
            forall|i: int| 0 <= i < 5 ==> #[trigger] r.spsr@[i].0 == 0,
            r.registers.zeroed(),
            r.prefetch@ == seq![None::<u32>, None::<u32>],
            r.shifter_output == 0,
            r.cycles == 0,
            !r.is_halted,
            !r.interrupt_triggered,
            r.executed_instruction_hex == 0,
            r.instruction_count == 0,
            !r.show_executed_instructions,
    {
        let cpu = CPU {
            registers: Registers::new(),
            executed_instruction_hex: 0,
            prefetch: [None; 2],
            cpsr: PSR::new_cpsr(),
            spsr: [PSR::new_spsr(); 5],
            shifter_output: 0,
            cycles: 0,
            is_halted: false,
            interrupt_triggered: false,
            instruction_count: 0,
            show_executed_instructions: false,
        };
        assert(cpu.prefetch@ =~= seq![None::<u32>, None::<u32>]);
        cpu
    }

    /// Puts the CPU back in its state after reset.
    pub fn reset(&mut self)
        ensures
            final(self).wf(),
            final(self).cpsr.0 == 0b1101_0011u32,
            forall|i: int| 0 <= i < 16 ==> final(self).reg(i) == 0,
            forall|i: int| 0 <= i < 5 ==> #[trigger] final(self).spsr@[i].0 == 0,
            final(self).registers.zeroed(),
            final(self).prefetch@ == seq![None::<u32>, None::<u32>],
            final(self).shifter_output == 0,
            final(self).cycles == 0,
            !final(self).is_halted,
            !final(self).interrupt_triggered,
            final(self).executed_instruction_hex == 0,
            final(self).instruction_count == 0,
            !final(self).show_executed_instructions,
    {
        let new_cpu = CPU::new();
        *self = new_cpu;
    }

    pub fn get_pc(&self) -> (r: u32)
        ensures
            r == self.pc(),
    {
        self.registers.active_registers[PC_REGISTER] & 0xFFFF_FFFE
    }

    /// Writes the program counter with bit 0 cleared.
    pub fn set_pc(&mut self, address: WORD)
        requires
            old(self).wf(),
        ensures
            final(self).wf(),
            final(self).registers.active_registers@ == old(self).registers.active_registers@.update(15, address & !1u32),
            old(self).same_but_active(*final(self)),
    {
        self.registers.active_registers[PC_REGISTER] = address & !1u32;
    }

    pub fn get_register(&self, register_num: REGISTER) -> (r: WORD)
        requires
            register_num < 16,
        ensures
            r == self.reg(register_num as int),
    {
        self.registers.get_register(register_num as usize)
    }

    pub fn set_register(&mut self, register_num: REGISTER, value: WORD)
        requires
            old(self).wf(),
            register_num < 16,
        ensures
            final(self).wf(),
            final(self).registers.active_registers@ == old(self).registers.active_registers@.update(
                register_num as int,
                value,
            ),
            old(self).same_but_active(*final(self)),
    {
        self.registers.set_register(register_num as usize, value);
    }

    pub fn set_sp(&mut self, address: WORD)
        requires
            old(self).wf(),
        ensures
            final(self).wf(),
            final(self).registers.active_registers@ == old(self).registers.active_registers@.update(13, address),
            old(self).same_but_active(*final(self)),
    {
        self.set_register(13, address);
    }

    pub fn get_sp(&self) -> (r: u32)
        ensures
            r == self.reg(13),
    {
        self.get_register(13)
    }

    pub fn get_cpsr(&self) -> (r: PSR)
        ensures
            r == self.cpsr,
    {
        self.cpsr
    }

    /// Replaces the CPSR and switches the register banks to its mode.
    pub fn set_cpsr(&mut self, cpsr: PSR)
        requires
            old(self).wf(),
            cpsr.has_valid_mode(),
            is_banked_mode(cpsr.spec_mode()),
        ensures
            final(self).wf(),
            final(self).cpsr == cpsr,
            old(self).registers.switched_to(cpsr.spec_mode(), final(self).registers),
            final(self).spsr == old(self).spsr,
            final(self).shifter_output == old(self).shifter_output,
            final(self).prefetch == old(self).prefetch,
            final(self).is_halted == old(self).is_halted,
            final(self).cycles == old(self).cycles,
            final(self).executed_instruction_hex == old(self).executed_instruction_hex,
            final(self).interrupt_triggered == old(self).interrupt_triggered,
            final(self).instruction_count == old(self).instruction_count,
            final(self).show_executed_instructions == old(self).show_executed_instructions,
    {
        self.cpsr = cpsr;
        let mode = self.cpsr.mode();
        self.registers.update_registers(mode);
    }

    pub fn disable_irq(&mut self)
        requires
            old(self).wf(),
        ensures
            final(self).wf(),
            final(self).cpsr.0 == old(self).cpsr.0 | (1u32 << 7u32),
            old(self).same_but_cpsr(*final(self)),
    {
        self.cpsr.set_irq(false);
        proof {
            crate::bits::lemma_high_bit_keeps_low_bits(old(self).cpsr.0, 7);
        }
    }

    pub fn disable_fiq(&mut self)
        requires
            old(self).wf(),
        ensures
            final(self).wf(),
            final(self).cpsr.0 == old(self).cpsr.0 | (1u32 << 6u32),
            old(self).same_but_cpsr(*final(self)),
    {
        self.cpsr.set_fiq(false);
        proof {
            crate::bits::lemma_high_bit_keeps_low_bits(old(self).cpsr.0, 6);
        }
    }

    /// The SPSR of the current mode, if it has one.
    pub fn get_current_spsr(&self) -> (r: Option<PSR>)
        requires
            self.wf(),
        ensures
            r == self.current_spsr(),
    {
        match self.get_cpu_mode() {
            CPUMode::FIQ => Some(self.spsr[0]),
            CPUMode::SVC => Some(self.spsr[1]),
            CPUMode::ABT => Some(self.spsr[2]),
            CPUMode::IRQ => Some(self.spsr[3]),
            CPUMode::UND => Some(self.spsr[4]),
            _ => None,
        }
    }

    /// Writes the SPSR of the current mode; a mode without one ignores it.
    pub fn set_current_spsr(&mut self, psr: PSR)
        requires
            old(self).wf(),
        ensures
            final(self).wf(),
            final(self).spsr@ == match spsr_index(old(self).cpsr.spec_mode()) {
                Some(i) => old(self).spsr@.update(i, psr),
                None => old(self).spsr@,
            },
            final(self).registers == old(self).registers,
            final(self).cpsr == old(self).cpsr,
            final(self).shifter_output == old(self).shifter_output,
            final(self).prefetch == old(self).prefetch,
            final(self).is_halted == old(self).is_halted,
            final(self).cycles == old(self).cycles,
            final(self).executed_instruction_hex == old(self).executed_instruction_hex,
            final(self).interrupt_triggered == old(self).interrupt_triggered,
            final(self).instruction_count == old(self).instruction_count,
            final(self).show_executed_instructions == old(self).show_executed_instructions,
    {
        match self.get_cpu_mode() {
            CPUMode::FIQ => self.spsr[0] = psr,
            CPUMode::SVC => self.spsr[1] = psr,
            CPUMode::ABT => self.spsr[2] = psr,
            CPUMode::IRQ => self.spsr[3] = psr,
            CPUMode::UND => self.spsr[4] = psr,
            _ => {},
        }
    }

    /// Whether the current mode's SPSR, if it has one, holds a mode that the
    /// register file can enter.
    pub open spec fn spsr_restorable(self) -> bool {
        self.current_spsr() matches Some(s) ==> s.has_valid_mode() && is_banked_mode(s.spec_mode())
    }

    /// The CPSR after the current mode's SPSR is restored into it.
    pub open spec fn restored_cpsr(self) -> PSR {
        match self.current_spsr() {
            Some(s) => s,
            None => self.cpsr,
        }
    }

    /// `next` is this CPU with the CPSR restored from the current mode's SPSR
    /// and the register banks switched to its mode; without an SPSR nothing
    /// changes.
    pub open spec fn spsr_restored(self, next: CPU) -> bool {
        &&& next.wf()
        &&& match self.current_spsr() {
            Some(s) => next.cpsr == s && self.registers.switched_to(s.spec_mode(), next.registers),
            None => next.cpsr == self.cpsr && next.registers == self.registers,
        }
        &&& next.is_halted == self.is_halted
        &&& next.prefetch == self.prefetch
        &&& next.executed_instruction_hex == self.executed_instruction_hex
        &&& next.shifter_output == self.shifter_output
        &&& next.spsr == self.spsr
        &&& next.cycles == self.cycles
        &&& next.interrupt_triggered == self.interrupt_triggered
        &&& next.instruction_count == self.instruction_count
        &&& next.show_executed_instructions == self.show_executed_instructions
    }

    /// Restores the CPSR from the current mode's SPSR, if it has one.
    pub fn pop_spsr(&mut self)
        requires
            old(self).wf(),
            old(self).spsr_restorable(),
        ensures
            old(self).spsr_restored(*final(self)),
    {
        if let Some(spsr) = self.get_current_spsr() {
            self.cpsr = spsr;
            let mode = self.cpsr.mode();
            self.registers.update_registers(mode);
        }
    }

    /// Advances the program counter by one instruction: 4 bytes in ARM
    /// state, 2 in THUMB state (wrapping).
    pub fn increment_pc(&mut self)
        requires
            old(self).wf(),
        ensures
            final(self).wf(),
            final(self).registers.active_registers@ == old(self).registers.active_registers@.update(
                15,
                match old(self).cpsr.spec_instruction_mode() {
                    InstructionMode::ARM => old(self).reg(15).wrapping_add(4),
                    InstructionMode::THUMB => old(self).reg(15).wrapping_add(2),
                },
            ),
            old(self).same_but_active(*final(self)),
    {
        let pc = self.registers.active_registers[PC_REGISTER];
        match self.get_instruction_mode() {
            InstructionMode::ARM => self.registers.active_registers[PC_REGISTER] = pc.wrapping_add(4),
            InstructionMode::THUMB => self.registers.active_registers[PC_REGISTER] = pc.wrapping_add(2),
        }
    }

    /// Fetches the instruction at the program counter into the first
    /// prefetch slot and advances the program counter.
    pub fn fetch_instruction(&mut self, memory: &mut GBAMemory) -> (r: CYCLES)
        requires
            old(self).wf(),
            old(self).can_fetch_at(*old(memory), old(self).pc()),
        ensures
            final(self).wf(),
            final(self).registers.active_registers@ == old(self).registers.active_registers@.update(
                15,
                old(self).reg(15).wrapping_add(old(self).step()),
            ),
            final(self).prefetch@ == old(self).prefetch@.update(0, Some(old(self).fetch_at(*old(memory), old(self).pc()))),
            r == old(self).fetch_cycles_at(old(self).pc()),
            old(self).same_but_pipeline(*final(self)),
            *final(memory) == *old(memory),
    {
        let pc = self.get_pc();
        let memory_fetch = match self.get_instruction_mode() {
            InstructionMode::ARM => memory.readu32(pc as usize),
            InstructionMode::THUMB => {
                let fetch = memory.readu16(pc as usize);
                MemoryFetch { cycles: fetch.cycles, data: fetch.data as u32 }
            },
        };
        self.prefetch[0] = Some(memory_fetch.data);
        self.increment_pc();
        memory_fetch.cycles
    }

    /// `next` is this CPU after the pipeline advanced by one instruction
    /// from `memory`.
    pub open spec fn advanced(self, memory: GBAMemory, next: CPU) -> bool {
        &&& next.wf()
        &&& next.registers.active_registers@ == self.registers.active_registers@.update(
            15,
            self.reg(15).wrapping_add(self.step()),
        )
        &&& next.prefetch@ == seq![Some(self.fetch_at(memory, self.pc())), self.prefetch@[0]]
        &&& self.same_but_pipeline(next)
    }

    /// Moves the first prefetched instruction to the second slot and fetches
    /// the next one.
    pub fn advance_pipeline(&mut self, memory: &mut GBAMemory) -> (r: CYCLES)
        requires
            old(self).wf(),
            old(self).can_fetch_at(*old(memory), old(self).pc()),
        ensures
            final(self).wf(),
            old(self).advanced(*old(memory), *final(self)),
            final(self).registers.active_registers@ == old(self).registers.active_registers@.update(
                15,
                old(self).reg(15).wrapping_add(old(self).step()),
            ),
            final(self).prefetch@ == seq![Some(old(self).fetch_at(*old(memory), old(self).pc())), old(self).prefetch@[0]],
            r == old(self).fetch_cycles_at(old(self).pc()),
            old(self).same_but_pipeline(*final(self)),
            *final(memory) == *old(memory),
    {
        self.prefetch[1] = self.prefetch[0];
        let cycles = self.fetch_instruction(memory);
        assert(self.prefetch@ =~= seq![Some(old(self).fetch_at(*old(memory), old(self).pc())), old(self).prefetch@[0]]);
        cycles
    }

    /// Whether the pipeline can be refilled from `memory`: the instructions
    /// at the program counter and after it can be fetched.
    pub fn can_refill(&self, memory: &GBAMemory) -> (r: bool)
        ensures
            r == self.can_flush(*memory),
    {
        let step: usize = match self.get_instruction_mode() {
            InstructionMode::ARM => 4,
            InstructionMode::THUMB => 2,
        };
        let pc = self.get_pc();
        let next = self.registers.active_registers[PC_REGISTER].wrapping_add(step as u32) & 0xFFFF_FFFE;
        memory.can_access(pc as usize, step) && memory.can_access(next as usize, step)
    }

    /// Refills the pipeline from the program counter on.
    pub fn flush_pipeline(&mut self, memory: &mut GBAMemory) -> (r: CYCLES)
        requires
            old(self).wf(),
            old(self).can_flush(*old(memory)),
        ensures
            old(self).flushed(*old(memory), *final(self)),
            r == old(self).flush_cycles(),
            *final(memory) == *old(memory),
    {
        let first = self.advance_pipeline(memory);
        let ghost middle = *self;
        assert(middle.pc() == old(self).next_pc());
        let second = self.advance_pipeline(memory);
        proof {
            assert(first <= 8 && second <= 8);
            assert(self.prefetch@ =~= seq![Some(old(self).fetch_at(*old(memory), old(self).next_pc())), Some(old(self).fetch_at(*old(memory), old(self).pc()))]);
            assert(self.registers.active_registers@ =~= old(self).registers.active_registers@.update(
                15,
                old(self).reg(15).wrapping_add(old(self).step()).wrapping_add(old(self).step()),
            ));
        }
        first + second
    }

    /// Sets or clears a flag.
    pub fn set_flag_to(&mut self, flag: FlagsRegister, value: bool)
        requires
            old(self).wf(),
        ensures
            final(self).wf(),
            final(self).cpsr.0 == psr_with(old(self).cpsr.0, flag, value),
            old(self).same_but_cpsr(*final(self)),
    {
        if value {
            self.cpsr.set_flag(flag);
        } else {
            self.cpsr.reset_flag(flag);
        }
        proof {
            lemma_psr_with(old(self).cpsr.0, flag, value);
        }
    }

    pub fn set_flag(&mut self, flag: FlagsRegister)
        requires
            old(self).wf(),
        ensures
            final(self).wf(),
            final(self).cpsr.0 == psr_with(old(self).cpsr.0, flag, true),
            old(self).same_but_cpsr(*final(self)),
    {
        self.set_flag_to(flag, true);
    }

    pub fn reset_flag(&mut self, flag: FlagsRegister)
        requires
            old(self).wf(),
        ensures
            final(self).wf(),
            final(self).cpsr.0 == psr_with(old(self).cpsr.0, flag, false),
            old(self).same_but_cpsr(*final(self)),
    {
        self.set_flag_to(flag, false);
    }

    /// A flag as 1 (set) or 0 (clear).
    pub fn get_flag(&self, flag: FlagsRegister) -> (r: WORD)
        ensures
            r == if self.flag(flag) { 1u32 } else { 0u32 },
    {
        if self.cpsr.get_flag(flag) {
            1
        } else {
            0
        }
    }

    pub fn set_instruction_mode(&mut self, instruction_mode: InstructionMode)
        requires
            old(self).wf(),
        ensures
            final(self).wf(),
            final(self).cpsr.spec_instruction_mode() == instruction_mode,
            forall|f: FlagsRegister| #[trigger] final(self).flag(f) == old(self).flag(f),
            final(self).cpsr.0 == match instruction_mode {
                InstructionMode::ARM => old(self).cpsr.0 & !(1u32 << 5u32),
                InstructionMode::THUMB => old(self).cpsr.0 | (1u32 << 5u32),
            },
            old(self).same_but_cpsr(*final(self)),
    {
        self.cpsr.set_instruction_mode(instruction_mode);
        proof {
            assert forall|f: FlagsRegister| #[trigger] self.flag(f) == old(self).flag(f) by {
                lemma_instruction_mode_round_trip(old(self).cpsr.0, f);
            }
            lemma_instruction_mode_round_trip(old(self).cpsr.0, FlagsRegister::N);
        }
    }

    pub fn get_instruction_mode(&self) -> (r: InstructionMode)
        ensures
            r == self.cpsr.spec_instruction_mode(),
    {
        self.cpsr.instruction_mode()
    }

    /// Switches to `mode`: the CPSR's mode bits and the register banks.
    pub fn set_mode(&mut self, mode: CPUMode)
        requires
            old(self).wf(),
            is_banked_mode(mode),
        ensures
            final(self).wf(),
            final(self).cpsr.0 == (old(self).cpsr.0 & !SYS_BITS) | mode_bits(mode),
            final(self).cpsr.spec_mode() == mode,
            old(self).registers.switched_to(mode, final(self).registers),
            final(self).spsr == old(self).spsr,
            final(self).shifter_output == old(self).shifter_output,
            final(self).prefetch == old(self).prefetch,
            final(self).is_halted == old(self).is_halted,
            final(self).cycles == old(self).cycles,
            final(self).executed_instruction_hex == old(self).executed_instruction_hex,
            final(self).interrupt_triggered == old(self).interrupt_triggered,
            final(self).instruction_count == old(self).instruction_count,
            final(self).show_executed_instructions == old(self).show_executed_instructions,
    {
        self.cpsr.set_mode(mode);
        proof {
            lemma_set_mode_then_mode(old(self).cpsr.0, mode, FlagsRegister::N);
        }
        self.registers.update_registers(mode);
    }

    pub fn get_cpu_mode(&self) -> (r: CPUMode)
        requires
            self.wf(),
        ensures
            r == self.cpsr.spec_mode(),
    {
        self.cpsr.mode()
    }

    /// Clears a flag when `bit` is 0 and sets it otherwise.
    pub fn set_flag_from_bit(&mut self, flag: FlagsRegister, bit: u8)
        requires
            old(self).wf(),
        ensures
            final(self).wf(),
            final(self).cpsr.0 == psr_with(old(self).cpsr.0, flag, bit != 0),
            old(self).same_but_cpsr(*final(self)),
    {
        if bit == 0 {
            self.reset_flag(flag);
            return;
        }
        self.set_flag(flag);
    }

    /// Stops execution until an interrupt arrives.
    pub fn halt(&mut self)
        ensures
            *final(self) == (CPU { is_halted: true, ..*old(self) }),
    {
        self.is_halted = true;
    }

    /// Whether the condition field (bits 28-31) of an ARM instruction holds.
    /// The reserved field value 15 is refused.
    pub fn condition_passed(&self, instruction: ARMByteCode) -> (r: bool)
        requires
            (instruction & 0xF000_0000u32) >> 28u32 != 15,
        ensures
            r == spec_condition_passed((instruction & 0xF000_0000u32) >> 28u32, self.cpsr),
    {
        let condition = (instruction & 0xF000_0000u32) >> 28u32;
        proof {
            crate::bits::lemma_word_fields(instruction);
        }
        condition_holds(condition, self)
    }
}

/// Whether condition code `condition` holds for the CPU's flags.
pub fn condition_holds(condition: u32, cpu: &CPU) -> (r: bool)
    requires
        condition < 15,
    ensures
        r == spec_condition_passed(condition, cpu.cpsr),
{
    let n = cpu.get_flag(FlagsRegister::N);
    let z = cpu.get_flag(FlagsRegister::Z);
    let c = cpu.get_flag(FlagsRegister::C);
    let v = cpu.get_flag(FlagsRegister::V);
    if condition == 0 {
        z == 1
    } else if condition == 1 {
        z == 0
    } else if condition == 2 {
        c == 1
    } else if condition == 3 {
        c == 0
    } else if condition == 4 {
        n == 1
    } else if condition == 5 {
        n == 0
    } else if condition == 6 {
        v == 1
    } else if condition == 7 {
        v == 0
    } else if condition == 8 {
        c == 1 && z == 0
    } else if condition == 9 {
        c == 0 || z == 1
    } else if condition == 10 {
        n == v
    } else if condition == 11 {
        n != v
    } else if condition == 12 {
        z == 0 && n == v
    } else if condition == 13 {
        z == 1 || n != v
    } else {
        true
    }
}


impl CPU {
    /// This CPU with its cycle counter set to `cycles`.
    pub open spec fn with_cycles(self, cycles: u64) -> CPU {
        CPU { cycles: cycles, ..self }
    }

    /// `next` is this CPU after the interrupt check that starts a cycle: a
    /// pending interrupt request is taken when IRQs are enabled, and the
    /// request is cleared either way.
    pub open spec fn irq_checked(self, memory: GBAMemory, next: CPU) -> bool {
        if self.interrupt_triggered {
            &&& !next.interrupt_triggered
            &&& if self.cpsr.spec_irq_enabled() {
                self.exception_taken(memory, Exceptions::IRQ, CPU { interrupt_triggered: true, ..next })
            } else {
                next == CPU { interrupt_triggered: false, ..self }
            }
        } else {
            next == self
        }
    }

    /// `next` is this CPU with the instruction of the second pipeline slot
    /// taken out to run: the slot is emptied and the instruction is recorded as
    /// the one executed.
    pub open spec fn staged(self, next: CPU) -> bool {
        &&& next.prefetch@ == self.prefetch@.update(1, None)
        &&& next.executed_instruction_hex == self.prefetch@[1]->0
        &&& next.registers == self.registers
        &&& next.cpsr == self.cpsr
        &&& next.is_halted == self.is_halted
        &&& next.shifter_output == self.shifter_output
        &&& next.spsr == self.spsr
        &&& next.cycles == self.cycles
        &&& next.interrupt_triggered == self.interrupt_triggered
        &&& next.instruction_count == self.instruction_count
        &&& next.show_executed_instructions == self.show_executed_instructions
    }

    /// Whether the end of a cycle can run from this state, the instruction
    /// having taken `c` cycles: with an empty second slot the pipeline
    /// advances, which needs the next fetch to be possible.
    pub open spec fn tail_ok(self, memory: GBAMemory) -> bool {
        &&& self.wf()
        &&& self.prefetch@[1] is None ==> self.can_fetch_at(memory, self.pc()) && self.cycles + 510 <= u64::MAX
    }

    /// `next` is this CPU after the end of a cycle in which the instruction
    /// took `c` cycles: with an empty second slot the pipeline advances and
    /// the counter grows by the instruction's and the fetch's cycles;
    /// otherwise nothing more happens. `r` is the cycles the cycle took.
    pub open spec fn tail_ran(self, memory: GBAMemory, c: u8, next: CPU, next_memory: GBAMemory, r: u8) -> bool {
        &&& next_memory == memory
        &&& if self.prefetch@[1] is None {
            let total = c + self.fetch_cycles_at(self.pc());
            &&& exists|advanced: CPU|
                #[trigger] self.advanced(memory, advanced) && next == advanced.with_cycles((self.cycles + total) as u64)
            &&& r == total as u8
        } else {
            next == self && r == c
        }
    }

    /// Whether the rest of a cycle can run once the interrupt check is done.
    pub open spec fn stage_ok(self, memory: GBAMemory) -> bool {
        &&& self.wf()
        &&& self.is_halted ==> self.cycles < u64::MAX
        &&& !self.is_halted && self.prefetch@[1] is Some ==> {
            &&& decodable(self.prefetch@[1]->0, self.cpsr)
            &&& forall|staged: CPU|
                #[trigger] self.staged(staged) ==> {
                    &&& spec_decode(self.prefetch@[1]->0, self.cpsr).can_run(staged, memory)
                    &&& forall|after: CPU, after_memory: GBAMemory, c: u8|
                        #[trigger] spec_decode(self.prefetch@[1]->0, self.cpsr).ran(staged, memory, after, after_memory, c)
                            ==> after.tail_ok(after_memory)
                }
        }
        &&& !self.is_halted && self.prefetch@[1] is None ==> self.tail_ok(memory)
    }

    /// `next` is this CPU after the rest of a cycle: a halted CPU only
    /// counts one cycle; otherwise the instruction in the second slot, if
    /// any, is decoded and run, and the cycle ends as `tail_ran` says.
    pub open spec fn stage_ran(self, memory: GBAMemory, next: CPU, next_memory: GBAMemory, r: u8) -> bool {
        if self.is_halted {
            next == self.with_cycles((self.cycles + 1) as u64) && next_memory == memory && r == 1
        } else if self.prefetch@[1] is Some {
            exists|staged: CPU, after: CPU, after_memory: GBAMemory, c: u8|
                {
                    &&& self.staged(staged)
                    &&& #[trigger] spec_decode(self.prefetch@[1]->0, self.cpsr).ran(staged, memory, after, after_memory, c)
                    &&& after.tail_ran(after_memory, c, next, next_memory, r)
                }
        } else {
            self.tail_ran(memory, 0, next, next_memory, r)
        }
    }

    /// Whether a whole cycle can run: the CPU is well formed, a pending
    /// interrupt can be taken, and the rest of the cycle can run from every
    /// state the interrupt check leads to.
    pub open spec fn can_cycle(self, memory: GBAMemory) -> bool {
        &&& self.wf()
        &&& self.interrupt_triggered ==> self.can_raise(memory, Exceptions::IRQ)
        &&& forall|checked: CPU| #[trigger] self.irq_checked(memory, checked) ==> checked.stage_ok(memory)
    }

    /// `next` and `next_memory` are the CPU and the memory after one cycle,
    /// which took `r` cycles.
    pub open spec fn cycle_ran(self, memory: GBAMemory, next: CPU, next_memory: GBAMemory, r: u8) -> bool {
        exists|checked: CPU|
            #[trigger] self.irq_checked(memory, checked) && checked.stage_ran(memory, next, next_memory, r)
    }

    /// Runs one CPU cycle: takes a pending interrupt, then (unless halted)
    /// runs the instruction in the second pipeline slot and advances the
    /// pipeline when that slot is left empty.
    pub fn execute_cpu_cycle(&mut self, memory: &mut GBAMemory) -> (r: CYCLES)
        requires
            old(self).can_cycle(*old(memory)),
        ensures
            old(self).cycle_ran(*old(memory), *final(self), *final(memory), r),
    {
        if self.interrupt_triggered {
            self.raise_irq(memory);
            self.interrupt_triggered = false;
        }
        let ghost checked = *self;
        assert(old(self).irq_checked(*old(memory), checked));
        if self.is_halted {
            self.cycles = self.cycles + 1;
            return 1;
        }
        let ghost start = *memory;
        let mut execution_cycles: u64 = 0;
        let ghost mut c: u8 = 0;
        if let Some(value) = self.prefetch[1] {
            let decoded = self.decode_instruction(value);
            self.prefetch[1] = None;
            self.executed_instruction_hex = value;
            let ghost staged = *self;
            assert(checked.staged(staged));
            let cycles = decoded.execute(self, memory);
            assert(spec_decode(checked.prefetch@[1]->0, checked.cpsr).ran(staged, start, *self, *memory, cycles));
            execution_cycles = cycles as u64;
            proof {
                c = cycles;
            }
        }
        let ghost after = *self;
        let ghost after_memory = *memory;
        if self.prefetch[1].is_none() {
            let fetched = self.advance_pipeline(memory);
            let ghost advanced = *self;
            assert(after.advanced(after_memory, advanced));
            execution_cycles = execution_cycles + fetched as u64;
            self.cycles = self.cycles + execution_cycles;
        }
        assert(after.tail_ran(after_memory, c, *self, *memory, execution_cycles as u8));
        execution_cycles as u8
    }
}

} // verus!
