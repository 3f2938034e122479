pub mod arm_decoders;
pub mod thumb_decoders;

use vstd::prelude::*;

use crate::arm7tdmi::arm::alu::spec_decode_data_processing;
use crate::arm7tdmi::arm::branch::{BranchAndExchangeInstruction, BranchInstruction, SWI};
use crate::arm7tdmi::arm::data_transfer_instructions::{BlockDTInstruction, SdtInstruction, SignedAndHwDtInstruction};
use crate::arm7tdmi::arm::multiply::MultiplyInstruction;
use crate::arm7tdmi::arm::swap_instruction::SwapInstruction;
use crate::arm7tdmi::cpsr::{InstructionMode, PSR};
use crate::arm7tdmi::cpu::{spec_condition_passed, CPU};
use crate::arm7tdmi::decoder::arm_decoders::{
    is_multiply_instruction_spec, is_multiply_instruction, is_branch_instruction_spec, is_branch_instruction, is_single_data_swap_spec, is_single_data_swap, is_software_interrupt_spec, is_software_interrupt, is_block_data_transfer_spec, is_block_data_transfer, is_load_or_store_register_unsigned_spec, is_load_or_store_register_unsigned, is_msr_spec, is_msr, is_mrs_spec, is_mrs, is_data_processing_spec, is_data_processing, is_hw_or_signed_data_transfer_spec, is_hw_or_signed_data_transfer, is_branch_and_exchange_instruction_spec, is_branch_and_exchange_instruction,
};
use crate::arm7tdmi::decoder::thumb_decoders::{
    is_add_or_subtract_instruction_spec, is_add_or_subtract_instruction, is_move_shifted_register_spec, is_move_shifted_register, is_move_compare_add_subtract_immediate_spec, is_move_compare_add_subtract_immediate, is_alu_operation_spec, is_alu_operation, is_thumb_hi_reg_operation_spec, is_thumb_hi_reg_operation, is_thumb_bx_spec, is_thumb_bx, is_load_pc_relative_spec, is_load_pc_relative, is_sdt_register_offset_spec, is_sdt_register_offset, is_sdt_imm_offset_spec, is_sdt_imm_offset, is_sdt_halfword_spec, is_sdt_halfword, is_sdt_sp_imm_spec, is_sdt_sp_imm, is_get_relative_address_spec, is_get_relative_address, is_add_offset_to_sp_spec, is_add_offset_to_sp, is_push_pop_spec, is_push_pop, is_thumb_block_dt_spec, is_thumb_block_dt, is_conditional_branch_spec, is_conditional_branch, is_unconditional_branch_spec, is_unconditional_branch, is_set_link_register_spec, is_set_link_register, is_long_branch_with_link_spec, is_long_branch_with_link, is_thumb_swi_spec, is_thumb_swi,
};
use crate::arm7tdmi::instruction_table::Instruction;
use crate::arm7tdmi::thumb::alu::{
    ThumbALUOperation, ThumbAddToSp, ThumbAdr, ThumbArithmeticImmInstruction, ThumbBx, ThumbFullAdder,
    ThumbHiRegInstruction, ThumbMoveShiftedRegister,
};
use crate::arm7tdmi::thumb::data_transfer_instructions::{
    LdrPCRelative, ThumbBlockDT, ThumbPushPop, ThumbSdtHwImmOffset, ThumbSdtImmOffset, ThumbSdtRegisterOffset,
    ThumbSdtSpImm,
};
use crate::arm7tdmi::thumb::jumps_and_calls::{
    ThumbConditionalBranch, ThumbLongBranchWithLink, ThumbSetLinkRegister, ThumbUnconditionalBranch,
};
use crate::types::{ARMByteCode, WORD};

verus! {

/// The meaning of an ARM instruction under the flags of `cpsr`: an
/// instruction whose condition fails does nothing; otherwise the first
/// encoding class that matches, in a fixed order, decides. A swap is told
/// apart before the half word transfers, whose encoding it shares but for
/// bits 5-6 (both clear in a swap).
pub open spec fn spec_decode_arm(instruction: u32, cpsr: PSR) -> Instruction {
    if !spec_condition_passed((instruction & 0xF000_0000u32) >> 28u32, cpsr) {
        Instruction::Nop
    } else if instruction == 0 {
        Instruction::Nop
    } else if is_multiply_instruction_spec(instruction) {
        Instruction::Multiply(MultiplyInstruction(instruction))
    } else if is_block_data_transfer_spec(instruction) {
        Instruction::BlockDT(BlockDTInstruction(instruction))
    } else if is_single_data_swap_spec(instruction) {
        Instruction::Swap(SwapInstruction(instruction))
    } else if is_hw_or_signed_data_transfer_spec(instruction) {
        Instruction::SignedAndHwDtInstruction(SignedAndHwDtInstruction(instruction))
    } else if is_branch_and_exchange_instruction_spec(instruction) {
        Instruction::BranchAndExchange(BranchAndExchangeInstruction(instruction))
    } else if is_mrs_spec(instruction) {
        Instruction::MRS(spec_decode_data_processing(instruction))
    } else if is_msr_spec(instruction) {
        Instruction::MSR(spec_decode_data_processing(instruction))
    } else if is_data_processing_spec(instruction) {
        Instruction::ALUInstruction(spec_decode_data_processing(instruction))
    } else if is_branch_instruction_spec(instruction) {
        Instruction::Branch(BranchInstruction(instruction))
    } else if is_load_or_store_register_unsigned_spec(instruction) {
        Instruction::SdtInstruction(SdtInstruction(instruction))
    } else if is_software_interrupt_spec(instruction) {
        Instruction::SWI(SWI(instruction))
    } else {
        Instruction::NotImplemented(instruction)
    }
}

/// The meaning of a THUMB instruction: the first encoding class that
/// matches, in a fixed order, decides.
pub open spec fn spec_decode_thumb(instruction: u32) -> Instruction {
    if is_add_or_subtract_instruction_spec(instruction) {
        Instruction::ThumbFullAdder(ThumbFullAdder(instruction))
    } else if is_move_shifted_register_spec(instruction) {
        Instruction::ThumbMoveShiftedRegister(ThumbMoveShiftedRegister(instruction))
    } else if is_move_compare_add_subtract_immediate_spec(instruction) {
        Instruction::ThumbArithmeticImmInstruction(ThumbArithmeticImmInstruction(instruction))
    } else if is_alu_operation_spec(instruction) {
        Instruction::ThumbAluInstruction(ThumbALUOperation(instruction))
    } else if is_thumb_bx_spec(instruction) {
        Instruction::ThumbBx(ThumbBx(instruction))
    } else if is_thumb_hi_reg_operation_spec(instruction) {
        Instruction::ThumbHiRegisterInstruction(ThumbHiRegInstruction(instruction))
    } else if is_load_pc_relative_spec(instruction) {
        Instruction::LdrPcRelative(LdrPCRelative(instruction))
    } else if is_sdt_register_offset_spec(instruction) {
        Instruction::ThumbSdtOffset(ThumbSdtRegisterOffset(instruction))
    } else if is_thumb_swi_spec(instruction) {
        Instruction::SWI(SWI(instruction))
    } else if is_sdt_imm_offset_spec(instruction) {
        Instruction::ThumbSdtImmOffset(ThumbSdtImmOffset(instruction))
    } else if is_sdt_halfword_spec(instruction) {
        Instruction::ThumbSdtHwImmOffset(ThumbSdtHwImmOffset(instruction))
    } else if is_sdt_sp_imm_spec(instruction) {
        Instruction::ThumbSdtSpImm(ThumbSdtSpImm(instruction))
    } else if is_get_relative_address_spec(instruction) {
        Instruction::ThumbAdr(ThumbAdr(instruction))
    } else if is_add_offset_to_sp_spec(instruction) {
        Instruction::ThumbAddToSp(ThumbAddToSp(instruction))
    } else if is_push_pop_spec(instruction) {
        Instruction::ThumbPushPop(ThumbPushPop(instruction))
    } else if is_thumb_block_dt_spec(instruction) {
        Instruction::ThumbBlockDT(ThumbBlockDT(instruction))
    } else if is_conditional_branch_spec(instruction) {
        Instruction::ThumbConditionalBranch(ThumbConditionalBranch(instruction))
    } else if is_unconditional_branch_spec(instruction) {
        Instruction::ThumbUnconditionalBranch(ThumbUnconditionalBranch(instruction))
    } else if is_set_link_register_spec(instruction) {
        Instruction::ThumbSetLinkRegister(ThumbSetLinkRegister(instruction))
    } else if is_long_branch_with_link_spec(instruction) {
        Instruction::ThumbLongBranchWithLink(ThumbLongBranchWithLink(instruction))
    } else {
        Instruction::NotImplemented(instruction)
    }
}

/// Whether an instruction can be decoded in the current state: in ARM
/// state the condition field must not hold the reserved value 15.
pub open spec fn decodable(instruction: u32, cpsr: PSR) -> bool {
    cpsr.spec_instruction_mode() == InstructionMode::ARM ==> (instruction & 0xF000_0000u32) >> 28u32 != 15
}

/// The meaning of `instruction` in the CPU's current instruction set.
pub open spec fn spec_decode(instruction: u32, cpsr: PSR) -> Instruction {
    match cpsr.spec_instruction_mode() {
        InstructionMode::ARM => spec_decode_arm(instruction, cpsr),
        InstructionMode::THUMB => spec_decode_thumb(instruction),
    }
}

impl CPU {
    /// Decodes `instruction` in the CPU's current instruction set.
    pub fn decode_instruction(&self, instruction: WORD) -> (r: Instruction)
        requires
            decodable(instruction, self.cpsr),
        ensures
            r == spec_decode(instruction, self.cpsr),
    {
        match self.get_instruction_mode() {
            InstructionMode::ARM => self.decode_arm_instruction(instruction),
            InstructionMode::THUMB => CPU::decode_thumb_instruction(instruction),
        }
    }

    /// Decodes an ARM instruction; one whose condition fails decodes to
    /// `Nop`.
    pub fn decode_arm_instruction(&self, instruction: ARMByteCode) -> (r: Instruction)
        requires
            (instruction & 0xF000_0000u32) >> 28u32 != 15,
        ensures
            r == spec_decode_arm(instruction, self.cpsr),
    {
        if !self.condition_passed(instruction) {
            Instruction::Nop
        } else if instruction == 0 {
            Instruction::Nop
        } else if is_multiply_instruction(instruction) {
            Instruction::Multiply(MultiplyInstruction(instruction))
        } else if is_block_data_transfer(instruction) {
            Instruction::BlockDT(BlockDTInstruction(instruction))
        } else if is_single_data_swap(instruction) {
            Instruction::Swap(SwapInstruction(instruction))
        } else if is_hw_or_signed_data_transfer(instruction) {
            Instruction::SignedAndHwDtInstruction(SignedAndHwDtInstruction(instruction))
        } else if is_branch_and_exchange_instruction(instruction) {
            Instruction::BranchAndExchange(BranchAndExchangeInstruction(instruction))
        } else if is_mrs(instruction) {
            Instruction::MRS(CPU::decode_data_processing_instruction(instruction))
        } else if is_msr(instruction) {
            Instruction::MSR(CPU::decode_data_processing_instruction(instruction))
        } else if is_data_processing(instruction) {
            Instruction::ALUInstruction(CPU::decode_data_processing_instruction(instruction))
        } else if is_branch_instruction(instruction) {
            Instruction::Branch(BranchInstruction(instruction))
        } else if is_load_or_store_register_unsigned(instruction) {
            Instruction::SdtInstruction(SdtInstruction(instruction))
        } else if is_software_interrupt(instruction) {
            Instruction::SWI(SWI(instruction))
        } else {
            Instruction::NotImplemented(instruction)
        }
    }

    /// Decodes a THUMB instruction.
    pub fn decode_thumb_instruction(instruction: ARMByteCode) -> (r: Instruction)
        ensures
            r == spec_decode_thumb(instruction),
    {
        if is_add_or_subtract_instruction(instruction) {
            Instruction::ThumbFullAdder(ThumbFullAdder(instruction))
        } else if is_move_shifted_register(instruction) {
            Instruction::ThumbMoveShiftedRegister(ThumbMoveShiftedRegister(instruction))
        } else if is_move_compare_add_subtract_immediate(instruction) {
            Instruction::ThumbArithmeticImmInstruction(ThumbArithmeticImmInstruction(instruction))
        } else if is_alu_operation(instruction) {
            Instruction::ThumbAluInstruction(ThumbALUOperation(instruction))
        } else if is_thumb_bx(instruction) {
            Instruction::ThumbBx(ThumbBx(instruction))
        } else if is_thumb_hi_reg_operation(instruction) {
            Instruction::ThumbHiRegisterInstruction(ThumbHiRegInstruction(instruction))
        } else if is_load_pc_relative(instruction) {
            Instruction::LdrPcRelative(LdrPCRelative(instruction))
        } else if is_sdt_register_offset(instruction) {
            Instruction::ThumbSdtOffset(ThumbSdtRegisterOffset(instruction))
        } else if is_thumb_swi(instruction) {
            Instruction::SWI(SWI(instruction))
        } else if is_sdt_imm_offset(instruction) {
            Instruction::ThumbSdtImmOffset(ThumbSdtImmOffset(instruction))
        } else if is_sdt_halfword(instruction) {
            Instruction::ThumbSdtHwImmOffset(ThumbSdtHwImmOffset(instruction))
        } else if is_sdt_sp_imm(instruction) {
            Instruction::ThumbSdtSpImm(ThumbSdtSpImm(instruction))
        } else if is_get_relative_address(instruction) {
            Instruction::ThumbAdr(ThumbAdr(instruction))
        } else if is_add_offset_to_sp(instruction) {
            Instruction::ThumbAddToSp(ThumbAddToSp(instruction))
        } else if is_push_pop(instruction) {
            Instruction::ThumbPushPop(ThumbPushPop(instruction))
        } else if is_thumb_block_dt(instruction) {
            Instruction::ThumbBlockDT(ThumbBlockDT(instruction))
        } else if is_conditional_branch(instruction) {
            Instruction::ThumbConditionalBranch(ThumbConditionalBranch(instruction))
        } else if is_unconditional_branch(instruction) {
            Instruction::ThumbUnconditionalBranch(ThumbUnconditionalBranch(instruction))
        } else if is_set_link_register(instruction) {
            Instruction::ThumbSetLinkRegister(ThumbSetLinkRegister(instruction))
        } else if is_long_branch_with_link(instruction) {
            Instruction::ThumbLongBranchWithLink(ThumbLongBranchWithLink(instruction))
        } else {
            Instruction::NotImplemented(instruction)
        }
    }
}

} // verus!
