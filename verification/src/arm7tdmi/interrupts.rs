use vstd::prelude::*;

use crate::arm7tdmi::cpsr::{
    lemma_instruction_mode_round_trip, lemma_set_mode_then_mode, mode_bits, CPUMode, FlagsRegister, InstructionMode,
    PSR, SYS_BITS,
};
use crate::arm7tdmi::cpu::{spsr_index, CPU};
use crate::arm7tdmi::registers::{lemma_switch_keeps_general_registers, Registers};
use crate::memory::memory::{region_of, wait32, GBAMemory};
use crate::types::CYCLES;

verus! {

/// The exceptions that the core raises.
#[derive(Debug, Clone, Copy, PartialEq, Eq, Structural)]
pub enum Exceptions {
    Reset,
    Undefined,
    Software,
    IRQ,
}

/// The mode that an exception enters.
pub open spec fn exception_mode(exception: Exceptions) -> CPUMode {
    match exception {
        Exceptions::Reset => CPUMode::SVC,
        Exceptions::Undefined => CPUMode::UND,
        Exceptions::Software => CPUMode::SVC,
        Exceptions::IRQ => CPUMode::IRQ,
    }
}

impl From<Exceptions> for CPUMode {
    fn from(exception: Exceptions) -> (r: CPUMode) {
        match exception {
            Exceptions::Reset => CPUMode::SVC,
            Exceptions::Undefined => CPUMode::UND,
            Exceptions::Software => CPUMode::SVC,
            Exceptions::IRQ => CPUMode::IRQ,
        }
    }
}

impl vstd::std_specs::convert::FromSpecImpl<Exceptions> for CPUMode {
    open spec fn obeys_from_spec() -> bool {
        true
    }

    open spec fn from_spec(exception: Exceptions) -> CPUMode {
        exception_mode(exception)
    }
}

/// The address of an exception's handler in the vector table.
pub open spec fn exception_vector(exception: Exceptions) -> u32 {
    match exception {
        Exceptions::Reset => 0x00,
        Exceptions::Undefined => 0x04,
        Exceptions::Software => 0x08,
        Exceptions::IRQ => 0x18,
    }
}

/// The CPSR on entry to the handler: the exception's mode, ARM state, IRQs
/// masked, and FIQs masked too on reset; the flags are kept.
pub open spec fn exception_cpsr(p: u32, exception: Exceptions) -> u32 {
    let entered = ((p & !SYS_BITS) | mode_bits(exception_mode(exception))) & !(1u32 << 5u32);
    let masked = entered | (1u32 << 7u32);
    if exception == Exceptions::Reset {
        masked | (1u32 << 6u32)
    } else {
        masked
    }
}

/// What is subtracted from the PC to form the return address: 4 in ARM
/// state and nothing in THUMB state.
pub open spec fn return_offset(p: PSR) -> u32 {
    match p.spec_instruction_mode() {
        InstructionMode::ARM => 4,
        InstructionMode::THUMB => 0,
    }
}

impl CPU {
    /// Whether the handler of `exception` can be fetched in ARM state.
    pub open spec fn can_raise(self, memory: GBAMemory, exception: Exceptions) -> bool {
        &&& memory.fits(exception_vector(exception) as usize, 4)
        &&& memory.fits((exception_vector(exception) + 4) as usize, 4)
    }

    /// `next` is this CPU after it took `exception`: in the exception's mode
    /// with the register banks switched, the old CPSR saved in the mode's
    /// SPSR, the return address in the link register, and the pipeline
    /// refilled from the exception's vector in ARM state.
    pub open spec fn exception_taken(self, memory: GBAMemory, exception: Exceptions, next: CPU) -> bool {
        let vector = exception_vector(exception);
        &&& next.wf()
        &&& !next.is_halted
        &&& next.cpsr.0 == exception_cpsr(self.cpsr.0, exception)
        &&& next.spsr@ == self.spsr@.update(spsr_index(exception_mode(exception))->0, self.cpsr)
        &&& exists|switched: Registers|
            {
                &&& #[trigger] self.registers.switched_to(exception_mode(exception), switched)
                &&& next.registers.active_registers@ == switched.active_registers@.update(
                    14,
                    self.pc().wrapping_sub(return_offset(self.cpsr)),
                ).update(15, (vector + 8) as u32)
                &&& next.registers.registers_user == switched.registers_user
                &&& next.registers.registers_svc == switched.registers_svc
                &&& next.registers.registers_abt == switched.registers_abt
                &&& next.registers.registers_irq == switched.registers_irq
                &&& next.registers.registers_und == switched.registers_und
                &&& next.registers.current_mode == switched.current_mode
            }
        &&& next.prefetch@ == seq![Some(memory.load32((vector + 4) as usize)), Some(memory.load32(vector as usize))]
        &&& next.shifter_output == self.shifter_output
        &&& next.cycles == self.cycles
        &&& next.executed_instruction_hex == self.executed_instruction_hex
        &&& next.interrupt_triggered == self.interrupt_triggered
        &&& next.instruction_count == self.instruction_count
        &&& next.show_executed_instructions == self.show_executed_instructions
    }

    /// Takes an exception and returns the cycles that refilling the pipeline
    /// took.
    pub fn raise_exception(&mut self, exception: Exceptions, memory: &mut GBAMemory) -> (r: CYCLES)
        requires
            old(self).wf(),
            old(self).can_raise(*old(memory), exception),
        ensures
            old(self).exception_taken(*old(memory), exception, *final(self)),
            r == (wait32(region_of(exception_vector(exception) as usize)) + wait32(
                region_of((exception_vector(exception) + 4) as usize),
            )) as u8,
            *final(memory) == *old(memory),
    {
        self.is_halted = false;
        let instruction_size: u32 = match self.get_instruction_mode() {
            InstructionMode::ARM => 4,
            InstructionMode::THUMB => 0,
        };
        let cpsr = self.get_cpsr();
        let mode: CPUMode = CPUMode::from(exception);
        self.set_mode(mode);
        let ghost switched = self.registers;
        proof {
            lemma_switch_keeps_general_registers(old(self).registers, mode, switched, 15);
        }
        let link = self.get_pc().wrapping_sub(instruction_size);
        self.set_register(14, link);
        self.set_current_spsr(cpsr);
        self.set_instruction_mode(InstructionMode::ARM);
        let exception_vector: u32 = match exception {
            Exceptions::Reset => {
                self.disable_irq();
                self.disable_fiq();
                0x00
            },
            Exceptions::Undefined => {
                self.disable_irq();
                0x04
            },
            Exceptions::Software => {
                self.disable_irq();
                0x08
            },
            Exceptions::IRQ => {
                self.disable_irq();
                0x18
            },
        };
        self.set_pc(exception_vector);
        let ghost before_flush = *self;
        proof {
            lemma_set_mode_then_mode(old(self).cpsr.0, mode, FlagsRegister::N);
            let c1 = (old(self).cpsr.0 & !SYS_BITS) | mode_bits(mode);
            lemma_instruction_mode_round_trip(c1, FlagsRegister::N);
            let c2 = c1 & !(1u32 << 5u32);
            crate::bits::lemma_word_bits(c1, 5, 0);
            crate::bits::lemma_high_bit_keeps_low_bits(c2, 7);
            crate::bits::lemma_high_bit_keeps_low_bits(c2 | (1u32 << 7u32), 6);
            crate::bits::lemma_word_bits(c2, 7, 5);
            crate::bits::lemma_word_bits(c2 | (1u32 << 7u32), 6, 5);
            assert(before_flush.step() == 4);
            lemma_vector_constants();
            assert(before_flush.pc() == exception_vector);
            assert(before_flush.next_pc() == exception_vector + 4);
        }
        let cycles = self.flush_pipeline(memory);
        proof {
            assert(self.registers.active_registers@ =~= switched.active_registers@.update(
                14,
                old(self).pc().wrapping_sub(return_offset(old(self).cpsr)),
            ).update(15, (exception_vector + 8) as u32));
        }
        cycles
    }

    /// Raises an interrupt request when IRQs are not masked.
    pub fn raise_irq(&mut self, memory: &mut GBAMemory)
        requires
            old(self).wf(),
            old(self).can_raise(*old(memory), Exceptions::IRQ),
        ensures
            if old(self).cpsr.spec_irq_enabled() {
                old(self).exception_taken(*old(memory), Exceptions::IRQ, *final(self))
            } else {
                *final(self) == *old(self)
            },
            *final(memory) == *old(memory),
    {
        if self.get_cpsr().irq_enabled() {
            self.raise_exception(Exceptions::IRQ, memory);
        }
    }
}

/// Taking an exception saves the CPSR in the SPSR of the exception's mode,
/// which is the mode the CPU is then in: restoring the SPSR on return gives
/// the interrupted CPSR back.
pub proof fn lemma_exception_return_restores_cpsr(cpu: CPU, memory: GBAMemory, exception: Exceptions, next: CPU)
    requires
        cpu.exception_taken(memory, exception, next),
    ensures
        next.cpsr.spec_mode() == exception_mode(exception),
        next.current_spsr() == Some(cpu.cpsr),
        next.restored_cpsr() == cpu.cpsr,
{
    let switched = choose|switched: Registers| #[trigger]
        cpu.registers.switched_to(exception_mode(exception), switched) && next.registers.current_mode
            == switched.current_mode;
    assert(next.registers.current_mode == exception_mode(exception));
}

/// The exception vectors are word aligned, and so is the address after
/// each.
proof fn lemma_vector_constants()
    by (bit_vector)
    ensures
        (0u32 & !1u32) == 0 && (0u32 & 0xFFFF_FFFEu32) == 0 && (4u32 & 0xFFFF_FFFEu32) == 4,
        (4u32 & !1u32) == 4 && (4u32 & 0xFFFF_FFFEu32) == 4 && (8u32 & 0xFFFF_FFFEu32) == 8,
        (8u32 & !1u32) == 8 && (8u32 & 0xFFFF_FFFEu32) == 8 && (12u32 & 0xFFFF_FFFEu32) == 12,
        (0x18u32 & !1u32) == 0x18 && (0x18u32 & 0xFFFF_FFFEu32) == 0x18 && (0x1Cu32 & 0xFFFF_FFFEu32) == 0x1C,
{
}

} // verus!
