use vstd::prelude::*;

use crate::arm7tdmi::arm::alu::DataProcessingInstruction;
use crate::arm7tdmi::arm::branch::{BranchAndExchangeInstruction, BranchInstruction, SWI};
use crate::arm7tdmi::arm::data_transfer_instructions::{BlockDTInstruction, SdtInstruction, SignedAndHwDtInstruction};
use crate::arm7tdmi::arm::multiply::MultiplyInstruction;
use crate::arm7tdmi::arm::swap_instruction::SwapInstruction;
use crate::arm7tdmi::cpu::CPU;
use crate::arm7tdmi::thumb::alu::{
    ThumbALUOperation, ThumbAddToSp, ThumbAdr, ThumbArithmeticImmInstruction, ThumbBx, ThumbFullAdder,
    ThumbHiRegInstruction, ThumbMoveShiftedRegister,
};
use crate::arm7tdmi::thumb::data_transfer_instructions::{
    LdrPCRelative, ThumbBlockDT, ThumbPushPop, ThumbSdtHwImmOffset, ThumbSdtImmOffset, ThumbSdtRegisterOffset,
    ThumbSdtSpImm,
};
use crate::arm7tdmi::thumb::jumps_and_calls::{
    ThumbConditionalBranch, ThumbLongBranchWithLink, ThumbSetLinkRegister, ThumbUnconditionalBranch,
};
use crate::memory::memory::GBAMemory;
use crate::types::{CYCLES, REGISTER};

verus! {

/// An operand: a register number or an immediate value.
#[derive(Debug, Clone, Copy, PartialEq, Eq, Structural)]
pub enum Operand {
    Register(REGISTER),
    Immediate(u32),
}

/// The assembler suffix of a condition code; the reserved code 15 is
/// refused.
pub fn condition_code_as_str(condition_code: u32) -> (r: &'static str)
    requires
        condition_code < 15,
    ensures
        condition_code == 0 ==> r@ == "eq"@,
        condition_code == 1 ==> r@ == "ne"@,
        condition_code == 2 ==> r@ == "cs"@,
        condition_code == 3 ==> r@ == "cc"@,
        condition_code == 4 ==> r@ == "mi"@,
        condition_code == 5 ==> r@ == "pl"@,
        condition_code == 6 ==> r@ == "vs"@,
        condition_code == 7 ==> r@ == "vc"@,
        condition_code == 8 ==> r@ == "hi"@,
        condition_code == 9 ==> r@ == "ls"@,
        condition_code == 10 ==> r@ == "ge"@,
        condition_code == 11 ==> r@ == "lt"@,
        condition_code == 12 ==> r@ == "gt"@,
        condition_code == 13 ==> r@ == "le"@,
        condition_code == 14 ==> r@ == ""@,
{
    if condition_code == 0 {
        "eq"
    } else if condition_code == 1 {
        "ne"
    } else if condition_code == 2 {
        "cs"
    } else if condition_code == 3 {
        "cc"
    } else if condition_code == 4 {
        "mi"
    } else if condition_code == 5 {
        "pl"
    } else if condition_code == 6 {
        "vs"
    } else if condition_code == 7 {
        "vc"
    } else if condition_code == 8 {
        "hi"
    } else if condition_code == 9 {
        "ls"
    } else if condition_code == 10 {
        "ge"
    } else if condition_code == 11 {
        "lt"
    } else if condition_code == 12 {
        "gt"
    } else if condition_code == 13 {
        "le"
    } else {
        ""
    }
}

/// A decoded instruction, ready to run. The data-processing forms (`ALU`,
/// `MSR`, `MRS`) all carry a decoded [`DataProcessingInstruction`].
pub enum Instruction {
    ALUInstruction(DataProcessingInstruction),
    MSR(DataProcessingInstruction),
    MRS(DataProcessingInstruction),
    ThumbFullAdder(ThumbFullAdder),
    ThumbAluInstruction(ThumbALUOperation),
    ThumbMoveShiftedRegister(ThumbMoveShiftedRegister),
    ThumbArithmeticImmInstruction(ThumbArithmeticImmInstruction),
    ThumbHiRegisterInstruction(ThumbHiRegInstruction),
    ThumbBx(ThumbBx),
    ThumbAdr(ThumbAdr),
    ThumbAddToSp(ThumbAddToSp),
    SdtInstruction(SdtInstruction),
    SignedAndHwDtInstruction(SignedAndHwDtInstruction),
    BlockDT(BlockDTInstruction),
    Branch(BranchInstruction),
    BranchAndExchange(BranchAndExchangeInstruction),
    Swap(SwapInstruction),
    SWI(SWI),
    Multiply(MultiplyInstruction),
    LdrPcRelative(LdrPCRelative),
    ThumbSdtOffset(ThumbSdtRegisterOffset),
    ThumbSdtImmOffset(ThumbSdtImmOffset),
    ThumbSdtHwImmOffset(ThumbSdtHwImmOffset),
    ThumbSdtSpImm(ThumbSdtSpImm),
    ThumbPushPop(ThumbPushPop),
    ThumbBlockDT(ThumbBlockDT),
    ThumbConditionalBranch(ThumbConditionalBranch),
    ThumbUnconditionalBranch(ThumbUnconditionalBranch),
    ThumbSetLinkRegister(ThumbSetLinkRegister),
    ThumbLongBranchWithLink(ThumbLongBranchWithLink),
    NotImplemented(u32),
    Nop,
}

impl Instruction {
    /// Whether the instruction can run from `cpu` and `memory`: an
    /// instruction that is not implemented never can.
    pub open spec fn can_run(self, cpu: CPU, memory: GBAMemory) -> bool {
        match self {
            Instruction::ALUInstruction(i) => i.can_run(cpu, memory),
            Instruction::MSR(i) => i.can_run(cpu, memory),
            Instruction::MRS(i) => i.can_run(cpu, memory),
            Instruction::ThumbFullAdder(i) => i.can_run(cpu, memory),
            Instruction::ThumbAluInstruction(i) => i.can_run(cpu, memory),
            Instruction::ThumbMoveShiftedRegister(i) => i.can_run(cpu, memory),
            Instruction::ThumbArithmeticImmInstruction(i) => i.can_run(cpu, memory),
            Instruction::ThumbHiRegisterInstruction(i) => i.can_run(cpu, memory),
            Instruction::ThumbBx(i) => i.can_run(cpu, memory),
            Instruction::ThumbAdr(i) => i.can_run(cpu, memory),
            Instruction::ThumbAddToSp(i) => i.can_run(cpu, memory),
            Instruction::SdtInstruction(i) => i.can_run(cpu, memory),
            Instruction::SignedAndHwDtInstruction(i) => i.can_run(cpu, memory),
            Instruction::BlockDT(i) => i.can_run(cpu, memory),
            Instruction::Branch(i) => i.can_run(cpu, memory),
            Instruction::BranchAndExchange(i) => i.can_run(cpu, memory),
            Instruction::Swap(i) => i.can_run(cpu, memory),
            Instruction::SWI(i) => i.can_run(cpu, memory),
            Instruction::Multiply(i) => i.can_run(cpu, memory),
            Instruction::LdrPcRelative(i) => i.can_run(cpu, memory),
            Instruction::ThumbSdtOffset(i) => i.can_run(cpu, memory),
            Instruction::ThumbSdtImmOffset(i) => i.can_run(cpu, memory),
            Instruction::ThumbSdtHwImmOffset(i) => i.can_run(cpu, memory),
            Instruction::ThumbSdtSpImm(i) => i.can_run(cpu, memory),
            Instruction::ThumbPushPop(i) => i.can_run(cpu, memory),
            Instruction::ThumbBlockDT(i) => i.can_run(cpu, memory),
            Instruction::ThumbConditionalBranch(i) => i.can_run(cpu, memory),
            Instruction::ThumbUnconditionalBranch(i) => i.can_run(cpu, memory),
            Instruction::ThumbSetLinkRegister(i) => i.can_run(cpu, memory),
            Instruction::ThumbLongBranchWithLink(i) => i.can_run(cpu, memory),
            Instruction::NotImplemented(_) => false,
            Instruction::Nop => true,
        }
    }

    /// `next` and `next_memory` are `cpu` and `memory` after the instruction
    /// ran, taking `r` cycles; a `Nop` changes nothing and takes none.
    pub open spec fn ran(self, cpu: CPU, memory: GBAMemory, next: CPU, next_memory: GBAMemory, r: u8) -> bool {
        match self {
            Instruction::ALUInstruction(i) => i.ran(cpu, memory, next, next_memory, r),
            Instruction::MSR(i) => i.ran(cpu, memory, next, next_memory, r),
            Instruction::MRS(i) => i.ran(cpu, memory, next, next_memory, r),
            Instruction::ThumbFullAdder(i) => i.ran(cpu, memory, next, next_memory, r),
            Instruction::ThumbAluInstruction(i) => i.ran(cpu, memory, next, next_memory, r),
            Instruction::ThumbMoveShiftedRegister(i) => i.ran(cpu, memory, next, next_memory, r),
            Instruction::ThumbArithmeticImmInstruction(i) => i.ran(cpu, memory, next, next_memory, r),
            Instruction::ThumbHiRegisterInstruction(i) => i.ran(cpu, memory, next, next_memory, r),
            Instruction::ThumbBx(i) => i.ran(cpu, memory, next, next_memory, r),
            Instruction::ThumbAdr(i) => i.ran(cpu, memory, next, next_memory, r),
            Instruction::ThumbAddToSp(i) => i.ran(cpu, memory, next, next_memory, r),
            Instruction::SdtInstruction(i) => i.ran(cpu, memory, next, next_memory, r),
            Instruction::SignedAndHwDtInstruction(i) => i.ran(cpu, memory, next, next_memory, r),
            Instruction::BlockDT(i) => i.ran(cpu, memory, next, next_memory, r),
            Instruction::Branch(i) => i.ran(cpu, memory, next, next_memory, r),
            Instruction::BranchAndExchange(i) => i.ran(cpu, memory, next, next_memory, r),
            Instruction::Swap(i) => i.ran(cpu, memory, next, next_memory, r),
            Instruction::SWI(i) => i.ran(cpu, memory, next, next_memory, r),
            Instruction::Multiply(i) => i.ran(cpu, memory, next, next_memory, r),
            Instruction::LdrPcRelative(i) => i.ran(cpu, memory, next, next_memory, r),
            Instruction::ThumbSdtOffset(i) => i.ran(cpu, memory, next, next_memory, r),
            Instruction::ThumbSdtImmOffset(i) => i.ran(cpu, memory, next, next_memory, r),
            Instruction::ThumbSdtHwImmOffset(i) => i.ran(cpu, memory, next, next_memory, r),
            Instruction::ThumbSdtSpImm(i) => i.ran(cpu, memory, next, next_memory, r),
            Instruction::ThumbPushPop(i) => i.ran(cpu, memory, next, next_memory, r),
            Instruction::ThumbBlockDT(i) => i.ran(cpu, memory, next, next_memory, r),
            Instruction::ThumbConditionalBranch(i) => i.ran(cpu, memory, next, next_memory, r),
            Instruction::ThumbUnconditionalBranch(i) => i.ran(cpu, memory, next, next_memory, r),
            Instruction::ThumbSetLinkRegister(i) => i.ran(cpu, memory, next, next_memory, r),
            Instruction::ThumbLongBranchWithLink(i) => i.ran(cpu, memory, next, next_memory, r),
            Instruction::NotImplemented(_) => false,
            Instruction::Nop => next == cpu && next_memory == memory && r == 0,
        }
    }

    /// Runs the instruction on `cpu` and `memory`, returning the cycles
    /// it took.
    pub fn execute(self, cpu: &mut CPU, memory: &mut GBAMemory) -> (r: CYCLES)
        requires
            self.can_run(*old(cpu), *old(memory)),
        ensures
            self.ran(*old(cpu), *old(memory), *final(cpu), *final(memory), r),
    {
        match self {
            Instruction::ALUInstruction(i) => i.execute(cpu, memory),
            Instruction::MSR(i) => i.execute(cpu, memory),
            Instruction::MRS(i) => i.execute(cpu, memory),
            Instruction::ThumbFullAdder(i) => i.execute(cpu, memory),
            Instruction::ThumbAluInstruction(i) => i.execute(cpu, memory),
            Instruction::ThumbMoveShiftedRegister(i) => i.execute(cpu, memory),
            Instruction::ThumbArithmeticImmInstruction(i) => i.execute(cpu, memory),
            Instruction::ThumbHiRegisterInstruction(i) => i.execute(cpu, memory),
            Instruction::ThumbBx(i) => i.execute(cpu, memory),
            Instruction::ThumbAdr(i) => i.execute(cpu, memory),
            Instruction::ThumbAddToSp(i) => i.execute(cpu, memory),
            Instruction::SdtInstruction(i) => i.execute(cpu, memory),
            Instruction::SignedAndHwDtInstruction(i) => i.execute(cpu, memory),
            Instruction::BlockDT(i) => i.execute(cpu, memory),
            Instruction::Branch(i) => i.execute(cpu, memory),
            Instruction::BranchAndExchange(i) => i.execute(cpu, memory),
            Instruction::Swap(i) => i.execute(cpu, memory),
            Instruction::SWI(i) => i.execute(cpu, memory),
            Instruction::Multiply(i) => i.execute(cpu, memory),
            Instruction::LdrPcRelative(i) => i.execute(cpu, memory),
            Instruction::ThumbSdtOffset(i) => i.execute(cpu, memory),
            Instruction::ThumbSdtImmOffset(i) => i.execute(cpu, memory),
            Instruction::ThumbSdtHwImmOffset(i) => i.execute(cpu, memory),
            Instruction::ThumbSdtSpImm(i) => i.execute(cpu, memory),
            Instruction::ThumbPushPop(i) => i.execute(cpu, memory),
            Instruction::ThumbBlockDT(i) => i.execute(cpu, memory),
            Instruction::ThumbConditionalBranch(i) => i.execute(cpu, memory),
            Instruction::ThumbUnconditionalBranch(i) => i.execute(cpu, memory),
            Instruction::ThumbSetLinkRegister(i) => i.execute(cpu, memory),
            Instruction::ThumbLongBranchWithLink(i) => i.execute(cpu, memory),
            Instruction::NotImplemented(_) => {
                // `can_run` is false for it, so this arm is never reached.
                proof {
                    assert(false);
                }
                0
            },
            Instruction::Nop => 0,
        }
    }
}

} // verus!
