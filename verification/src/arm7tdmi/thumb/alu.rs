use vstd::prelude::*;

use crate::arm7tdmi::arm::alu::{
    add3, arithmetic_flags, barrel_shift, lemma_wrapping_add3, lemma_wrapping_forms, logical_flags, spec_asr,
    spec_register_shift, ShiftType,
};
use crate::arm7tdmi::arm::branch::fetch_ok_with;
use crate::arm7tdmi::cpsr::InstructionMode;
use crate::arm7tdmi::arm::multiply::mul_cycles;
use crate::arm7tdmi::cpsr::FlagsRegister;
use crate::arm7tdmi::cpu::{psr_with, CPU};
use crate::arm7tdmi::instruction_table::Operand;
use crate::bits::{bit_is_set, bit_of, get_bit, lemma_register_fields};
use crate::memory::memory::GBAMemory;
use crate::types::{CYCLES, REGISTER};

verus! {

/// THUMB `ADD` and `SUB` of a register and a register or 3-bit immediate.
pub struct ThumbFullAdder(pub u32);

#[derive(Debug, Clone, Copy, PartialEq, Eq, Structural)]
pub enum ThumbFullAdderOperations {
    Add,
    Sub,
}

impl ThumbFullAdder {
    /// The operation and the second operand: bits 9-10 pick add or subtract
    /// of the register or the immediate in bits 6-8.
    pub open spec fn spec_operation(self) -> (ThumbFullAdderOperations, Operand) {
        let opcode = (self.0 & 0x0600u32) >> 9u32;
        let operand2 = (self.0 & 0x01C0u32) >> 6u32;
        if opcode == 0 {
            (ThumbFullAdderOperations::Add, Operand::Register(operand2))
        } else if opcode == 1 {
            (ThumbFullAdderOperations::Sub, Operand::Register(operand2))
        } else if opcode == 2 {
            (ThumbFullAdderOperations::Add, Operand::Immediate(operand2))
        } else {
            (ThumbFullAdderOperations::Sub, Operand::Immediate(operand2))
        }
    }

    pub fn full_adder_operation(&self) -> (r: (ThumbFullAdderOperations, Operand))
        ensures
            r == self.spec_operation(),
            r.1 matches Operand::Register(reg) ==> reg < 8,
    {
        proof {
            lemma_register_fields(self.0);
        }
        let v = self.0;
        let opcode = (v & 0x0600) >> 9;
        proof {
            crate::bits::lemma_word_fields(v);
        }
        let operand2 = (v & 0x01C0) >> 6;
        if opcode == 0 {
            (ThumbFullAdderOperations::Add, Operand::Register(operand2))
        } else if opcode == 1 {
            (ThumbFullAdderOperations::Sub, Operand::Register(operand2))
        } else if opcode == 2 {
            (ThumbFullAdderOperations::Add, Operand::Immediate(operand2))
        } else {
            (ThumbFullAdderOperations::Sub, Operand::Immediate(operand2))
        }
    }

    pub fn rd(&self) -> (r: REGISTER)
        ensures
            r == self.0 & 0x0007u32,
            r < 8,
    {
        proof {
            lemma_register_fields(self.0);
        }
        self.0 & 0x0007
    }

    pub fn rs(&self) -> (r: REGISTER)
        ensures
            r == (self.0 & 0x0038u32) >> 3u32,
            r < 8,
    {
        proof {
            lemma_register_fields(self.0);
        }
        (self.0 & 0x0038) >> 3
    }

    /// The addition `x + y + carry` that the instruction performs.
    pub open spec fn operands(self, cpu: CPU) -> (u32, u32, u32) {
        let rs_val = cpu.reg(((self.0 & 0x0038u32) >> 3u32) as int);
        let op2 = match self.spec_operation().1 {
            Operand::Register(r) => cpu.reg(r as int),
            Operand::Immediate(imm) => imm,
        };
        match self.spec_operation().0 {
            ThumbFullAdderOperations::Add => (rs_val, op2, 0),
            ThumbFullAdderOperations::Sub => (rs_val, !op2, 1),
        }
    }

    /// Whether the instruction can run from `cpu` and `memory`.
    pub open spec fn can_run(self, cpu: CPU, memory: GBAMemory) -> bool {
        &&& cpu.wf()
    }

    /// `next` and `next_memory` are `cpu` and `memory` after the instruction
    /// ran, taking `r` cycles.
    pub open spec fn ran(self, cpu: CPU, memory: GBAMemory, next: CPU, next_memory: GBAMemory, r: u8) -> bool {
        &&& r == 0
        &&& cpu.written_with_flags(
            Some(self.0 & 0x0007u32),
            add3(self.operands(cpu).0, self.operands(cpu).1, self.operands(cpu).2),
            arithmetic_flags(
                cpu.cpsr.0,
                add3(self.operands(cpu).0, self.operands(cpu).1, self.operands(cpu).2),
                self.operands(cpu).0,
                self.operands(cpu).1,
                self.operands(cpu).2,
            ),
            next,
        )
    }

    /// Adds or subtracts, setting every flag, into `rd`.
    pub fn execute(self, cpu: &mut CPU, _memory: &mut GBAMemory) -> (r: CYCLES)
        requires
            self.can_run(*old(cpu), *old(_memory)),
        ensures
            self.ran(*old(cpu), *old(_memory), *final(cpu), *final(_memory), r),
    {
        let rs_val = cpu.get_register(self.rs());
        let (operation, op2) = self.full_adder_operation();
        let op2 = match op2 {
            Operand::Register(reg) => cpu.get_register(reg),
            Operand::Immediate(imm) => imm,
        };
        proof {
            lemma_wrapping_forms(rs_val, op2, 0);
        }
        let result = match operation {
            ThumbFullAdderOperations::Add => {
                let result = rs_val.wrapping_add(op2);
                cpu.set_arithmetic_flags(result, rs_val, op2, 0, true);
                result
            },
            ThumbFullAdderOperations::Sub => {
                let result = rs_val.wrapping_sub(op2);
                cpu.set_arithmetic_flags(result, rs_val, !op2, 1, true);
                result
            },
        };
        cpu.set_register(self.rd(), result);
        0
    }
}

#[derive(Debug, Clone, Copy, PartialEq, Eq, Structural)]
pub enum ThumbALUInstruction {
    Logical(ThumbLogicalInstruction),
    Arithmetic(ThumbArithmeticInstruction),
    Shift(ThumbShiftInstruction),
}

#[derive(Debug, Clone, Copy, PartialEq, Eq, Structural)]
pub enum ThumbArithmeticInstruction {
    Adc,
    Sbc,
    Neg,
    Cmp,
    Cmn,
    Mul,
}

#[derive(Debug, Clone, Copy, PartialEq, Eq, Structural)]
pub enum ThumbLogicalInstruction {
    And,
    Eor,
    Tst,
    Orr,
    Bic,
    Mvn,
}

#[derive(Debug, Clone, Copy, PartialEq, Eq, Structural)]
pub enum ThumbShiftInstruction {
    Lsl,
    Lsr,
    Asr,
    Ror,
}

/// The THUMB ALU operations on two low registers.
pub struct ThumbALUOperation(pub u32);

/// The ALU operation that the four-bit field `op` names.
pub open spec fn thumb_alu_opcode(op: u32) -> ThumbALUInstruction {
    if op == 0x0 {
        ThumbALUInstruction::Logical(ThumbLogicalInstruction::And)
    } else if op == 0x1 {
        ThumbALUInstruction::Logical(ThumbLogicalInstruction::Eor)
    } else if op == 0x2 {
        ThumbALUInstruction::Shift(ThumbShiftInstruction::Lsl)
    } else if op == 0x3 {
        ThumbALUInstruction::Shift(ThumbShiftInstruction::Lsr)
    } else if op == 0x4 {
        ThumbALUInstruction::Shift(ThumbShiftInstruction::Asr)
    } else if op == 0x5 {
        ThumbALUInstruction::Arithmetic(ThumbArithmeticInstruction::Adc)
    } else if op == 0x6 {
        ThumbALUInstruction::Arithmetic(ThumbArithmeticInstruction::Sbc)
    } else if op == 0x7 {
        ThumbALUInstruction::Shift(ThumbShiftInstruction::Ror)
    } else if op == 0x8 {
        ThumbALUInstruction::Logical(ThumbLogicalInstruction::Tst)
    } else if op == 0x9 {
        ThumbALUInstruction::Arithmetic(ThumbArithmeticInstruction::Neg)
    } else if op == 0xa {
        ThumbALUInstruction::Arithmetic(ThumbArithmeticInstruction::Cmp)
    } else if op == 0xb {
        ThumbALUInstruction::Arithmetic(ThumbArithmeticInstruction::Cmn)
    } else if op == 0xc {
        ThumbALUInstruction::Logical(ThumbLogicalInstruction::Orr)
    } else if op == 0xd {
        ThumbALUInstruction::Arithmetic(ThumbArithmeticInstruction::Mul)
    } else if op == 0xe {
        ThumbALUInstruction::Logical(ThumbLogicalInstruction::Bic)
    } else {
        ThumbALUInstruction::Logical(ThumbLogicalInstruction::Mvn)
    }
}

impl ThumbALUOperation {
    pub fn rd(&self) -> (r: REGISTER)
        ensures
            r == self.0 & 0x0007u32,
            r < 8,
    {
        proof {
            lemma_register_fields(self.0);
        }
        self.0 & 0x0007
    }

    pub fn rs(&self) -> (r: REGISTER)
        ensures
            r == (self.0 & 0x0038u32) >> 3u32,
            r < 8,
    {
        proof {
            lemma_register_fields(self.0);
        }
        (self.0 & 0x0038) >> 3
    }

    pub fn opcode(&self) -> (r: ThumbALUInstruction)
        ensures
            r == thumb_alu_opcode((self.0 & 0x03C0u32) >> 6u32),
    {
        let op = (self.0 & 0x03C0) >> 6;
        if op == 0x0 {
            ThumbALUInstruction::Logical(ThumbLogicalInstruction::And)
        } else if op == 0x1 {
            ThumbALUInstruction::Logical(ThumbLogicalInstruction::Eor)
        } else if op == 0x2 {
            ThumbALUInstruction::Shift(ThumbShiftInstruction::Lsl)
        } else if op == 0x3 {
            ThumbALUInstruction::Shift(ThumbShiftInstruction::Lsr)
        } else if op == 0x4 {
            ThumbALUInstruction::Shift(ThumbShiftInstruction::Asr)
        } else if op == 0x5 {
            ThumbALUInstruction::Arithmetic(ThumbArithmeticInstruction::Adc)
        } else if op == 0x6 {
            ThumbALUInstruction::Arithmetic(ThumbArithmeticInstruction::Sbc)
        } else if op == 0x7 {
            ThumbALUInstruction::Shift(ThumbShiftInstruction::Ror)
        } else if op == 0x8 {
            ThumbALUInstruction::Logical(ThumbLogicalInstruction::Tst)
        } else if op == 0x9 {
            ThumbALUInstruction::Arithmetic(ThumbArithmeticInstruction::Neg)
        } else if op == 0xa {
            ThumbALUInstruction::Arithmetic(ThumbArithmeticInstruction::Cmp)
        } else if op == 0xb {
            ThumbALUInstruction::Arithmetic(ThumbArithmeticInstruction::Cmn)
        } else if op == 0xc {
            ThumbALUInstruction::Logical(ThumbLogicalInstruction::Orr)
        } else if op == 0xd {
            ThumbALUInstruction::Arithmetic(ThumbArithmeticInstruction::Mul)
        } else if op == 0xe {
            ThumbALUInstruction::Logical(ThumbLogicalInstruction::Bic)
        } else {
            ThumbALUInstruction::Logical(ThumbLogicalInstruction::Mvn)
        }
    }
}

/// What an arithmetic THUMB ALU operation on `rd_val` and `rs_val` does,
/// with C flag `c`: the value written to `rd` (none for the compares) and
/// the addition `x + y + carry` whose flags it sets. `MUL` is apart.
pub open spec fn thumb_arith_operands(op: ThumbArithmeticInstruction, rd_val: u32, rs_val: u32, c: u32) -> (u32, u32, u32) {
    match op {
        ThumbArithmeticInstruction::Adc => (rd_val, rs_val, c),
        ThumbArithmeticInstruction::Sbc => (rd_val, !rs_val, c),
        ThumbArithmeticInstruction::Neg => (0, !rs_val, 1),
        ThumbArithmeticInstruction::Cmp => (rd_val, !rs_val, 1),
        ThumbArithmeticInstruction::Cmn => (rd_val, rs_val, 0),
        ThumbArithmeticInstruction::Mul => (0, 0, 0),
    }
}

/// The flags after a THUMB `MUL` with result `result`: N and Z follow it.
pub open spec fn thumb_mul_flags(p: u32, result: u32) -> u32 {
    psr_with(psr_with(p, FlagsRegister::N, bit_of(result, 31)), FlagsRegister::Z, result == 0)
}

impl CPU {
    /// Executes an arithmetic THUMB ALU operation on `rd` and `rs`.
    pub fn execute_thumb_arithmetic_instruction(
        &mut self,
        instruction: ThumbArithmeticInstruction,
        rd: REGISTER,
        rs: REGISTER,
    ) -> (r: CYCLES)
        requires
            old(self).wf(),
            rd < 16,
            rs < 16,
        ensures
            old(self).thumb_arithmetic_done(instruction, rd, rs, *final(self), r),
    {
        let rs_val = self.get_register(rs);
        let rd_val = self.get_register(rd);
        let carry = self.get_flag(FlagsRegister::C);
        proof {
            lemma_wrapping_forms(rd_val, rs_val, carry);
            lemma_wrapping_forms(0, rs_val, 0);
        }
        match instruction {
            ThumbArithmeticInstruction::Adc => {
                let result = rd_val.wrapping_add(rs_val).wrapping_add(carry);
                self.set_arithmetic_flags(result, rd_val, rs_val, carry, true);
                self.set_register(rd, result);
                0
            },
            ThumbArithmeticInstruction::Sbc => {
                let result = rd_val.wrapping_sub(rs_val).wrapping_add(carry).wrapping_sub(1);
                self.set_arithmetic_flags(result, rd_val, !rs_val, carry, true);
                self.set_register(rd, result);
                0
            },
            ThumbArithmeticInstruction::Neg => {
                let result = 0u32.wrapping_sub(rs_val);
                self.set_arithmetic_flags(result, 0, !rs_val, 1, true);
                self.set_register(rd, result);
                0
            },
            ThumbArithmeticInstruction::Cmp => {
                let result = rd_val.wrapping_sub(rs_val);
                self.set_arithmetic_flags(result, rd_val, !rs_val, 1, true);
                0
            },
            ThumbArithmeticInstruction::Cmn => {
                let result = rd_val.wrapping_add(rs_val);
                self.set_arithmetic_flags(result, rd_val, rs_val, 0, true);
                0
            },
            ThumbArithmeticInstruction::Mul => {
                let multiplier = self.get_register(rd);
                let cycles = crate::arm7tdmi::arm::multiply::multiply_cycles(multiplier);
                self.thumb_mul(rd, rd_val, rs_val, true);
                cycles
            },
        }
    }

    /// Multiplies into `rd`; with `set_flags` N and Z follow the result.
    pub fn thumb_mul(&mut self, rd: REGISTER, operand1: u32, operand2: u32, set_flags: bool)
        requires
            old(self).wf(),
            rd < 16,
        ensures
            old(self).written_with_flags(
                Some(rd),
                operand1.wrapping_mul(operand2),
                if set_flags {
                    thumb_mul_flags(old(self).cpsr.0, operand1.wrapping_mul(operand2))
                } else {
                    old(self).cpsr.0
                },
                *final(self),
            ),
    {
        let result = operand1.wrapping_mul(operand2);
        if set_flags {
            self.set_flag_from_bit(FlagsRegister::N, get_bit(result, 31) as u8);
            if result == 0 {
                self.set_flag(FlagsRegister::Z);
            } else {
                self.reset_flag(FlagsRegister::Z);
            }
        }
        self.set_register(rd, result);
    }

    /// Executes a logical THUMB ALU operation on `rd` and `rs`; N and Z
    /// follow the result, which `TST` does not write.
    pub fn execute_thumb_logical_instruction(&mut self, instruction: ThumbLogicalInstruction, rd: REGISTER, rs: REGISTER) -> (r: CYCLES)
        requires
            old(self).wf(),
            rd < 16,
            rs < 16,
        ensures
            old(self).thumb_logical_done(instruction, rd, rs, *final(self), r),
    {
        let rs_val = self.get_register(rs);
        let rd_val = self.get_register(rd);
        let result = match instruction {
            ThumbLogicalInstruction::And => {
                let result = rd_val & rs_val;
                self.set_register(rd, result);
                result
            },
            ThumbLogicalInstruction::Eor => {
                let result = rd_val ^ rs_val;
                self.set_register(rd, result);
                result
            },
            ThumbLogicalInstruction::Tst => rd_val & rs_val,
            ThumbLogicalInstruction::Orr => {
                let result = rd_val | rs_val;
                self.set_register(rd, result);
                result
            },
            ThumbLogicalInstruction::Bic => {
                let result = rd_val & !rs_val;
                self.set_register(rd, result);
                result
            },
            ThumbLogicalInstruction::Mvn => {
                let result = !rs_val;
                self.set_register(rd, result);
                result
            },
        };
        self.set_logical_flags(result, true);
        0
    }
}

/// The result of a logical THUMB ALU operation.
pub open spec fn thumb_logical_result(op: ThumbLogicalInstruction, rd_val: u32, rs_val: u32) -> u32 {
    match op {
        ThumbLogicalInstruction::And => rd_val & rs_val,
        ThumbLogicalInstruction::Eor => rd_val ^ rs_val,
        ThumbLogicalInstruction::Tst => rd_val & rs_val,
        ThumbLogicalInstruction::Orr => rd_val | rs_val,
        ThumbLogicalInstruction::Bic => rd_val & !rs_val,
        ThumbLogicalInstruction::Mvn => !rs_val,
    }
}

/// The barrel shifter type of a THUMB shift.
pub open spec fn thumb_shift_type(op: ThumbShiftInstruction) -> ShiftType {
    match op {
        ThumbShiftInstruction::Lsl => ShiftType::LSL,
        ThumbShiftInstruction::Lsr => ShiftType::LSR,
        ThumbShiftInstruction::Asr => ShiftType::ASR,
        ThumbShiftInstruction::Ror => ShiftType::ROR,
    }
}

impl CPU {
    /// The value shifted and the amount of a THUMB shift by register: the low
    /// byte of `rs`; the PC reads 2 further on in either role.
    pub open spec fn thumb_shift_inputs(self, rd: REGISTER, rs: REGISTER) -> (u32, u32) {
        (
            if rd == 15 {
                self.reg(rd as int).wrapping_add(2)
            } else {
                self.reg(rd as int)
            },
            if rs == 15 {
                ((self.reg(rs as int) & 0xFFu32) + 2) as u32
            } else {
                self.reg(rs as int) & 0xFFu32
            },
        )
    }

    /// Shifts `rd` by the low byte of `rs` through the barrel shifter; N, Z
    /// and C follow the result and the shifter's carry out.
    pub fn execute_thumb_shift_instruction(&mut self, instruction: ThumbShiftInstruction, rd: REGISTER, rs: REGISTER) -> (r: CYCLES)
        requires
            old(self).wf(),
            rd < 16,
            rs < 16,
        ensures
            old(self).thumb_shift_done(instruction, rd, rs, *final(self), r),
    {
        let rs_val = self.get_register(rs);
        let mut shift_amount = rs_val & 0xFF;
        let mut rd_val = self.get_register(rd);
        if rs == 15 {
            proof {
                crate::bits::lemma_word_fields(rs_val);
            }
            shift_amount = shift_amount + 2;
        }
        if rd == 15 {
            rd_val = rd_val.wrapping_add(2);
        }
        let carry = self.get_flag(FlagsRegister::C);
        let shift_type = match instruction {
            ThumbShiftInstruction::Lsl => ShiftType::LSL,
            ThumbShiftInstruction::Lsr => ShiftType::LSR,
            ThumbShiftInstruction::Asr => ShiftType::ASR,
            ThumbShiftInstruction::Ror => ShiftType::ROR,
        };
        let (result, carry_out) = barrel_shift(shift_type, Operand::Register(rs), rd_val, shift_amount, carry);
        self.shifter_output = carry_out;
        self.set_register(rd, result);
        self.set_arm_logical_flags(result, true);
        1
    }
}

impl CPU {
    /// `next` is this CPU after the arithmetic THUMB ALU operation on `rd`
    /// and `rs`, which took `cycles`.
    pub open spec fn thumb_arithmetic_done(self, instruction: ThumbArithmeticInstruction, rd: REGISTER, rs: REGISTER, next: CPU, cycles: u8) -> bool {
        if instruction == ThumbArithmeticInstruction::Mul {
            let result = self.reg(rd as int).wrapping_mul(self.reg(rs as int));
            &&& self.written_with_flags(Some(rd), result, thumb_mul_flags(self.cpsr.0, result), next)
            &&& cycles == mul_cycles(self.reg(rd as int))
        } else {
            let t = thumb_arith_operands(instruction, self.reg(rd as int), self.reg(rs as int), self.carry_bit());
            &&& self.written_with_flags(
                if instruction == ThumbArithmeticInstruction::Cmp || instruction == ThumbArithmeticInstruction::Cmn {
                    None
                } else {
                    Some(rd)
                },
                add3(t.0, t.1, t.2),
                arithmetic_flags(self.cpsr.0, add3(t.0, t.1, t.2), t.0, t.1, t.2),
                next,
            )
            &&& cycles == 0
        }
    }

    /// `next` is this CPU after the logical THUMB ALU operation on `rd` and
    /// `rs`: N and Z follow the result, which `TST` does not write.
    pub open spec fn thumb_logical_done(self, instruction: ThumbLogicalInstruction, rd: REGISTER, rs: REGISTER, next: CPU, cycles: u8) -> bool {
        &&& cycles == 0
        &&& self.written_with_flags(
            if instruction == ThumbLogicalInstruction::Tst {
                None
            } else {
                Some(rd)
            },
            thumb_logical_result(instruction, self.reg(rd as int), self.reg(rs as int)),
            logical_flags(self.cpsr.0, thumb_logical_result(instruction, self.reg(rd as int), self.reg(rs as int))),
            next,
        )
    }

    /// `next` is this CPU after `rd` was shifted by the low byte of `rs`
    /// through the barrel shifter; N, Z and C follow the result and the
    /// shifter's carry out.
    pub open spec fn thumb_shift_done(self, instruction: ThumbShiftInstruction, rd: REGISTER, rs: REGISTER, next: CPU, cycles: u8) -> bool {
        let inputs = self.thumb_shift_inputs(rd, rs);
        let shifted = spec_register_shift(thumb_shift_type(instruction), Operand::Register(rs), inputs.0, inputs.1, self.carry_bit());
        &&& cycles == 1
        &&& next.wf()
        &&& next.registers.active_registers@ == self.registers.active_registers@.update(rd as int, shifted.0)
        &&& next.shifter_output == shifted.1
        &&& next.cpsr.0 == psr_with(logical_flags(self.cpsr.0, shifted.0), FlagsRegister::C, shifted.1 > 0)
        &&& self.same_but_result(next)
    }
}

impl ThumbALUOperation {
    /// `next` is `cpu` after the operation that bits 6-9 name.
    pub open spec fn done(self, cpu: CPU, next: CPU, cycles: u8) -> bool {
        let rd = self.0 & 0x0007u32;
        let rs = (self.0 & 0x0038u32) >> 3u32;
        match thumb_alu_opcode((self.0 & 0x03C0u32) >> 6u32) {
            ThumbALUInstruction::Arithmetic(op) => cpu.thumb_arithmetic_done(op, rd, rs, next, cycles),
            ThumbALUInstruction::Logical(op) => cpu.thumb_logical_done(op, rd, rs, next, cycles),
            ThumbALUInstruction::Shift(op) => cpu.thumb_shift_done(op, rd, rs, next, cycles),
        }
    }

    /// Whether the instruction can run from `cpu` and `memory`.
    pub open spec fn can_run(self, cpu: CPU, memory: GBAMemory) -> bool {
        &&& cpu.wf()
    }

    /// `next` and `next_memory` are `cpu` and `memory` after the instruction
    /// ran, taking `r` cycles.
    pub open spec fn ran(self, cpu: CPU, memory: GBAMemory, next: CPU, next_memory: GBAMemory, r: u8) -> bool {
        &&& next.wf()
        &&& self.done(cpu, next, r)
    }

    /// Executes the operation that bits 6-9 name on `rd` and `rs`.
    pub fn execute(self, cpu: &mut CPU, _memory: &mut GBAMemory) -> (r: CYCLES)
        requires
            self.can_run(*old(cpu), *old(_memory)),
        ensures
            self.ran(*old(cpu), *old(_memory), *final(cpu), *final(_memory), r),
    {
        match self.opcode() {
            ThumbALUInstruction::Arithmetic(thumb_arithmetic_instruction) => cpu.execute_thumb_arithmetic_instruction(
                thumb_arithmetic_instruction,
                self.rd(),
                self.rs(),
            ),
            ThumbALUInstruction::Logical(thumb_logical_instruction) => cpu.execute_thumb_logical_instruction(
                thumb_logical_instruction,
                self.rd(),
                self.rs(),
            ),
            ThumbALUInstruction::Shift(thumb_shift_instruction) => cpu.execute_thumb_shift_instruction(
                thumb_shift_instruction,
                self.rd(),
                self.rs(),
            ),
        }
    }
}

/// The flags after a THUMB shift by an immediate with result `result`: C
/// from the last bit shifted out when `carry` is given, then Z and N from
/// the result.
pub open spec fn shift_imm_flags(p: u32, carry: Option<bool>, result: u32) -> u32 {
    let with_c = match carry {
        Some(c) => psr_with(p, FlagsRegister::C, c),
        None => p,
    };
    psr_with(psr_with(with_c, FlagsRegister::Z, result == 0), FlagsRegister::N, bit_of(result, 31))
}

impl CPU {
    /// `rd = rs_val << offset`; with `set_flags`, C from the last bit shifted
    /// out (kept for a shift by 0), Z and N from the result.
    pub fn thumb_lsl(&mut self, rd: REGISTER, rs_val: u32, offset: u32, set_flags: bool)
        requires
            old(self).wf(),
            rd < 16,
            offset & 0xFFu32 < 32,
        ensures
            old(self).written_with_flags(
                Some(rd),
                rs_val << (offset & 0xFFu32),
                if set_flags {
                    shift_imm_flags(
                        old(self).cpsr.0,
                        if offset & 0xFFu32 > 0 {
                            Some(bit_of(rs_val, (32 - (offset & 0xFFu32)) as u32))
                        } else {
                            None
                        },
                        rs_val << (offset & 0xFFu32),
                    )
                } else {
                    old(self).cpsr.0
                },
                *final(self),
            ),
    {
        let offset = offset & 0xFF;
        let result = rs_val << offset;
        self.set_register(rd, result);
        if set_flags {
            if offset > 0 {
                let c = bit_is_set(rs_val, 32 - offset);
                self.set_flag_to(FlagsRegister::C, c);
            }
            self.set_flag_to(FlagsRegister::Z, result == 0);
            self.set_flag_to(FlagsRegister::N, bit_is_set(result, 31));
        }
    }

    /// `rd = rs_val >> offset`, where an offset of 0 means 32 (the result is
    /// 0 and C takes bit 31); with `set_flags`, C from the last bit shifted
    /// out, Z and N from the result.
    pub fn thumb_lsr(&mut self, rd: REGISTER, rs_val: u32, offset: u32, set_flags: bool)
        requires
            old(self).wf(),
            rd < 16,
            offset & 0xFFu32 < 32,
        ensures
            offset & 0xFFu32 == 0 ==> old(self).written_with_flags(
                Some(rd),
                0,
                if set_flags {
                    psr_with(
                        psr_with(psr_with(old(self).cpsr.0, FlagsRegister::Z, true), FlagsRegister::N, false),
                        FlagsRegister::C,
                        bit_of(rs_val, 31),
                    )
                } else {
                    old(self).cpsr.0
                },
                *final(self),
            ),
            offset & 0xFFu32 != 0 ==> old(self).written_with_flags(
                Some(rd),
                rs_val >> (offset & 0xFFu32),
                if set_flags {
                    shift_imm_flags(
                        old(self).cpsr.0,
                        Some(bit_of(rs_val, ((offset & 0xFFu32) - 1) as u32)),
                        rs_val >> (offset & 0xFFu32),
                    )
                } else {
                    old(self).cpsr.0
                },
                *final(self),
            ),
    {
        let offset = offset & 0xFF;
        if offset == 0 {
            if set_flags {
                self.set_flag(FlagsRegister::Z);
                self.reset_flag(FlagsRegister::N);
                self.set_flag_from_bit(FlagsRegister::C, get_bit(rs_val, 31) as u8);
            }
            self.set_register(rd, 0);
            return;
        }
        let result = rs_val >> offset;
        if set_flags {
            self.set_flag_to(FlagsRegister::C, bit_is_set(rs_val, offset - 1));
            self.set_flag_to(FlagsRegister::Z, result == 0);
            self.set_flag_to(FlagsRegister::N, bit_is_set(result, 31));
        }
        self.set_register(rd, result);
    }

    /// `rd = rs_val` shifted right arithmetically by `offset`, where an
    /// offset of 0 means 32 (every bit becomes the sign); with `set_flags`,
    /// C from the last bit shifted out, Z and N from the result.
    pub fn thumb_asr(&mut self, rd: REGISTER, rs_val: u32, offset: u32, set_flags: bool)
        requires
            old(self).wf(),
            rd < 16,
            offset & 0xFFu32 < 32,
        ensures
            offset & 0xFFu32 == 0 && bit_of(rs_val, 31) ==> old(self).written_with_flags(
                Some(rd),
                0xFFFF_FFFFu32,
                if set_flags {
                    psr_with(
                        psr_with(psr_with(old(self).cpsr.0, FlagsRegister::C, true), FlagsRegister::N, true),
                        FlagsRegister::Z,
                        false,
                    )
                } else {
                    old(self).cpsr.0
                },
                *final(self),
            ),
            offset & 0xFFu32 == 0 && !bit_of(rs_val, 31) ==> old(self).written_with_flags(
                Some(rd),
                0,
                if set_flags {
                    psr_with(
                        psr_with(psr_with(old(self).cpsr.0, FlagsRegister::C, false), FlagsRegister::Z, true),
                        FlagsRegister::N,
                        false,
                    )
                } else {
                    old(self).cpsr.0
                },
                *final(self),
            ),
            offset & 0xFFu32 != 0 ==> old(self).written_with_flags(
                Some(rd),
                spec_asr(rs_val, offset & 0xFFu32),
                if set_flags {
                    shift_imm_flags(
                        old(self).cpsr.0,
                        Some(bit_of(rs_val, ((offset & 0xFFu32) - 1) as u32)),
                        spec_asr(rs_val, offset & 0xFFu32),
                    )
                } else {
                    old(self).cpsr.0
                },
                *final(self),
            ),
    {
        let offset = offset & 0xFF;
        if offset == 0 {
            if bit_is_set(rs_val, 31) {
                if set_flags {
                    self.set_flag(FlagsRegister::C);
                    self.set_flag(FlagsRegister::N);
                    self.reset_flag(FlagsRegister::Z);
                }
                self.set_register(rd, u32::MAX);
            } else {
                if set_flags {
                    self.reset_flag(FlagsRegister::C);
                    self.set_flag(FlagsRegister::Z);
                    self.reset_flag(FlagsRegister::N);
                }
                self.set_register(rd, 0);
            }
            return;
        }
        let result = if bit_is_set(rs_val, 31) {
            (rs_val >> offset) | !(0xFFFF_FFFFu32 >> offset)
        } else {
            rs_val >> offset
        };
        if set_flags {
            self.set_flag_to(FlagsRegister::C, bit_is_set(rs_val, offset - 1));
            self.set_flag_to(FlagsRegister::Z, result == 0);
            self.set_flag_to(FlagsRegister::N, bit_is_set(result, 31));
        }
        self.set_register(rd, result);
    }
}

/// THUMB `LSL`, `LSR` and `ASR` of a register by a 5-bit immediate.
pub struct ThumbMoveShiftedRegister(pub u32);

#[derive(Debug, Clone, Copy, PartialEq, Eq, Structural)]
pub enum ThumbMoveShiftedRegisterOperations {
    LSL,
    LSR,
    ASR,
}

impl ThumbMoveShiftedRegister {
    /// Whether bits 11-12 name a shift; the value 3 is refused.
    pub open spec fn has_opcode(self) -> bool {
        (self.0 & 0x1800u32) >> 11u32 != 3
    }

    pub fn opcode(&self) -> (r: ThumbMoveShiftedRegisterOperations)
        requires
            self.has_opcode(),
        ensures
            (self.0 & 0x1800u32) >> 11u32 == 0 <==> r == ThumbMoveShiftedRegisterOperations::LSL,
            (self.0 & 0x1800u32) >> 11u32 == 1 <==> r == ThumbMoveShiftedRegisterOperations::LSR,
            (self.0 & 0x1800u32) >> 11u32 == 2 <==> r == ThumbMoveShiftedRegisterOperations::ASR,
    {
        let v = self.0;
        proof {
            crate::bits::lemma_word_fields(v);
        }
        let op = (self.0 & 0x1800) >> 11;
        if op == 0 {
            ThumbMoveShiftedRegisterOperations::LSL
        } else if op == 1 {
            ThumbMoveShiftedRegisterOperations::LSR
        } else {
            ThumbMoveShiftedRegisterOperations::ASR
        }
    }

    pub fn rs(&self) -> (r: REGISTER)
        ensures
            r == (self.0 & 0x0038u32) >> 3u32,
            r < 8,
    {
        proof {
            lemma_register_fields(self.0);
        }
        (self.0 & 0x0038) >> 3
    }

    pub fn rd(&self) -> (r: REGISTER)
        ensures
            r == self.0 & 0x0007u32,
            r < 8,
    {
        proof {
            lemma_register_fields(self.0);
        }
        self.0 & 0x0007
    }

    /// The shift amount in bits 6-10.
    pub fn offset(&self) -> (r: u32)
        ensures
            r == (self.0 & 0x07C0u32) >> 6u32,
            r < 32,
            r & 0xFFu32 == r,
    {
        let v = self.0;
        proof {
            crate::bits::lemma_word_fields(v);
        }
        (v & 0x07C0) >> 6
    }

    /// The flags after the shift, as `thumb_lsl`, `thumb_lsr` and
    /// `thumb_asr` set them.
    pub open spec fn flags_after(self, cpu: CPU) -> u32 {
        let v = cpu.reg(((self.0 & 0x0038u32) >> 3u32) as int);
        let n = (self.0 & 0x07C0u32) >> 6u32;
        let p = cpu.cpsr.0;
        if (self.0 & 0x1800u32) >> 11u32 == 0 {
            shift_imm_flags(p, if n > 0 { Some(bit_of(v, (32 - n) as u32)) } else { None }, v << n)
        } else if (self.0 & 0x1800u32) >> 11u32 == 1 {
            if n == 0 {
                psr_with(psr_with(psr_with(p, FlagsRegister::Z, true), FlagsRegister::N, false), FlagsRegister::C, bit_of(v, 31))
            } else {
                shift_imm_flags(p, Some(bit_of(v, (n - 1) as u32)), v >> n)
            }
        } else {
            if n == 0 {
                if bit_of(v, 31) {
                    psr_with(psr_with(psr_with(p, FlagsRegister::C, true), FlagsRegister::N, true), FlagsRegister::Z, false)
                } else {
                    psr_with(psr_with(psr_with(p, FlagsRegister::C, false), FlagsRegister::Z, true), FlagsRegister::N, false)
                }
            } else {
                shift_imm_flags(p, Some(bit_of(v, (n - 1) as u32)), spec_asr(v, n))
            }
        }
    }

    /// Whether the instruction can run from `cpu` and `memory`.
    pub open spec fn can_run(self, cpu: CPU, memory: GBAMemory) -> bool {
        &&& cpu.wf()
        &&& self.has_opcode()
    }

    /// `next` and `next_memory` are `cpu` and `memory` after the instruction
    /// ran, taking `r` cycles.
    pub open spec fn ran(self, cpu: CPU, memory: GBAMemory, next: CPU, next_memory: GBAMemory, r: u8) -> bool {
        &&& r == 0
        &&& next.wf()
        &&& cpu.same_but_result(next)
        &&& next.shifter_output == cpu.shifter_output
        &&& next.cpsr.0 == self.flags_after(cpu)
        &&& (self.0 & 0x1800u32) >> 11u32 == 0 ==> next.registers.active_registers@ == cpu.registers.active_registers@.update(
            (self.0 & 0x0007u32) as int,
            cpu.reg(((self.0 & 0x0038u32) >> 3u32) as int) << ((self.0 & 0x07C0u32) >> 6u32),
        )
        &&& (self.0 & 0x1800u32) >> 11u32 == 1 ==> next.registers.active_registers@ == cpu.registers.active_registers@.update(
            (self.0 & 0x0007u32) as int,
            if (self.0 & 0x07C0u32) >> 6u32 == 0 {
                0
            } else {
                cpu.reg(((self.0 & 0x0038u32) >> 3u32) as int) >> ((self.0 & 0x07C0u32) >> 6u32)
            },
        )
        &&& (self.0 & 0x1800u32) >> 11u32 == 2 ==> next.registers.active_registers@ == cpu.registers.active_registers@.update(
            (self.0 & 0x0007u32) as int,
            if (self.0 & 0x07C0u32) >> 6u32 == 0 {
                if bit_of(cpu.reg(((self.0 & 0x0038u32) >> 3u32) as int), 31) {
                    0xFFFF_FFFFu32
                } else {
                    0
                }
            } else {
                spec_asr(cpu.reg(((self.0 & 0x0038u32) >> 3u32) as int), (self.0 & 0x07C0u32) >> 6u32)
            },
        )
    }

    /// Shifts `rs` into `rd`, setting the flags; see `thumb_lsl`,
    /// `thumb_lsr` and `thumb_asr`.
    pub fn execute(self, cpu: &mut CPU, _memory: &mut GBAMemory) -> (r: CYCLES)
        requires
            self.can_run(*old(cpu), *old(_memory)),
        ensures
            self.ran(*old(cpu), *old(_memory), *final(cpu), *final(_memory), r),
    {
        let rs_val = cpu.get_register(self.rs());
        let offset = self.offset();
        let rd = self.rd();
        let ghost p = old(cpu).cpsr.0;
        match self.opcode() {
            ThumbMoveShiftedRegisterOperations::LSL => {
                cpu.thumb_lsl(rd, rs_val, offset, true);
                assert((self.0 & 0x1800u32) >> 11u32 == 0);
            },
            ThumbMoveShiftedRegisterOperations::LSR => {
                cpu.thumb_lsr(rd, rs_val, offset, true);
                assert((self.0 & 0x1800u32) >> 11u32 == 1);
            },
            ThumbMoveShiftedRegisterOperations::ASR => {
                cpu.thumb_asr(rd, rs_val, offset, true);
                assert((self.0 & 0x1800u32) >> 11u32 == 2);
            },
        }
        0
    }
}

/// THUMB `MOV`, `CMP`, `ADD` and `SUB` of a low register and an 8-bit
/// immediate.
pub struct ThumbArithmeticImmInstruction(pub u32);

#[derive(Debug, Clone, Copy, PartialEq, Eq, Structural)]
pub enum ThumbArithmeticImmOperations {
    Mov,
    Cmp,
    Add,
    Sub,
}

impl ThumbArithmeticImmInstruction {
    pub open spec fn spec_opcode(self) -> ThumbArithmeticImmOperations {
        let op = (self.0 & 0x1800u32) >> 11u32;
        if op == 0 {
            ThumbArithmeticImmOperations::Mov
        } else if op == 1 {
            ThumbArithmeticImmOperations::Cmp
        } else if op == 2 {
            ThumbArithmeticImmOperations::Add
        } else {
            ThumbArithmeticImmOperations::Sub
        }
    }

    pub fn opcode(&self) -> (r: ThumbArithmeticImmOperations)
        ensures
            r == self.spec_opcode(),
    {
        let op = (self.0 & 0x1800) >> 11;
        if op == 0 {
            ThumbArithmeticImmOperations::Mov
        } else if op == 1 {
            ThumbArithmeticImmOperations::Cmp
        } else if op == 2 {
            ThumbArithmeticImmOperations::Add
        } else {
            ThumbArithmeticImmOperations::Sub
        }
    }

    pub fn rd(&self) -> (r: u32)
        ensures
            r == (self.0 & 0x0700u32) >> 8u32,
            r < 8,
    {
        proof {
            lemma_register_fields(self.0);
        }
        (self.0 & 0x0700) >> 8
    }

    pub fn imm(&self) -> (r: u32)
        ensures
            r == self.0 & 0x00FFu32,
    {
        self.0 & 0x00FF
    }

    /// Whether the instruction can run from `cpu` and `memory`.
    pub open spec fn can_run(self, cpu: CPU, memory: GBAMemory) -> bool {
        &&& cpu.wf()
    }

    /// `next` and `next_memory` are `cpu` and `memory` after the instruction
    /// ran, taking `r` cycles.
    pub open spec fn ran(self, cpu: CPU, memory: GBAMemory, next: CPU, next_memory: GBAMemory, r: u8) -> bool {
        &&& r == 0
        &&& ({
            let rd = (self.0 & 0x0700u32) >> 8u32;
            let imm = self.0 & 0x00FFu32;
            let rd_val = cpu.reg32(rd);
            match self.spec_opcode() {
                ThumbArithmeticImmOperations::Mov => cpu.written_with_flags(
                    Some(rd),
                    imm,
                    psr_with(psr_with(cpu.cpsr.0, FlagsRegister::N, false), FlagsRegister::Z, imm == 0),
                    next,
                ),
                ThumbArithmeticImmOperations::Cmp => cpu.written_with_flags(
                    None,
                    add3(rd_val, !imm, 1),
                    arithmetic_flags(cpu.cpsr.0, add3(rd_val, !imm, 1), rd_val, !imm, 1),
                    next,
                ),
                ThumbArithmeticImmOperations::Add => cpu.written_with_flags(
                    Some(rd),
                    add3(rd_val, imm, 0),
                    arithmetic_flags(cpu.cpsr.0, add3(rd_val, imm, 0), rd_val, imm, 0),
                    next,
                ),
                ThumbArithmeticImmOperations::Sub => cpu.written_with_flags(
                    Some(rd),
                    add3(rd_val, !imm, 1),
                    arithmetic_flags(cpu.cpsr.0, add3(rd_val, !imm, 1), rd_val, !imm, 1),
                    next,
                ),
            }
        })
    }

    /// Executes the operation on `rd` and the immediate.
    pub fn execute(self, cpu: &mut CPU, _memory: &mut GBAMemory) -> (r: CYCLES)
        requires
            self.can_run(*old(cpu), *old(_memory)),
        ensures
            self.ran(*old(cpu), *old(_memory), *final(cpu), *final(_memory), r),
    {
        let rd = self.rd();
        let imm = self.imm();
        match self.opcode() {
            ThumbArithmeticImmOperations::Mov => cpu.thumb_move_imm(rd, imm),
            ThumbArithmeticImmOperations::Add => cpu.thumb_add_imm(rd, imm),
            ThumbArithmeticImmOperations::Cmp => cpu.thumb_cmp_imm(rd, imm),
            ThumbArithmeticImmOperations::Sub => cpu.thumb_sub_imm(rd, imm),
        }
        0
    }
}

impl CPU {
    /// `rd = imm`; N is cleared and Z follows the value.
    pub fn thumb_move_imm(&mut self, rd: REGISTER, imm: u32)
        requires
            old(self).wf(),
            rd < 16,
        ensures
            old(self).written_with_flags(
                Some(rd),
                imm,
                psr_with(psr_with(old(self).cpsr.0, FlagsRegister::N, false), FlagsRegister::Z, imm == 0),
                *final(self),
            ),
    {
        self.reset_flag(FlagsRegister::N);
        if imm == 0 {
            self.set_flag(FlagsRegister::Z);
        } else {
            self.reset_flag(FlagsRegister::Z);
        }
        self.set_register(rd, imm);
    }

    /// Sets the flags of `rd - imm`.
    pub fn thumb_cmp_imm(&mut self, rd: REGISTER, imm: u32)
        requires
            old(self).wf(),
            rd < 16,
        ensures
            old(self).written_with_flags(
                None,
                add3(old(self).reg32(rd), !imm, 1),
                arithmetic_flags(old(self).cpsr.0, add3(old(self).reg32(rd), !imm, 1), old(self).reg32(rd), !imm, 1),
                *final(self),
            ),
    {
        let minuend = self.get_register(rd);
        let result = minuend.wrapping_sub(imm);
        proof {
            lemma_wrapping_forms(minuend, imm, 0);
        }
        self.set_arithmetic_flags(result, minuend, !imm, 1, true);
    }

    /// `rd = rd + imm`, setting every flag.
    pub fn thumb_add_imm(&mut self, rd: REGISTER, imm: u32)
        requires
            old(self).wf(),
            rd < 16,
        ensures
            old(self).written_with_flags(
                Some(rd),
                add3(old(self).reg32(rd), imm, 0),
                arithmetic_flags(old(self).cpsr.0, add3(old(self).reg32(rd), imm, 0), old(self).reg32(rd), imm, 0),
                *final(self),
            ),
    {
        let addend1 = self.get_register(rd);
        let result = addend1.wrapping_add(imm);
        proof {
            lemma_wrapping_add3(addend1, imm, 0);
        }
        self.set_arithmetic_flags(result, addend1, imm, 0, true);
        self.set_register(rd, result);
    }

    /// `rd = rd - imm`, computed as `rd + !imm + 1`, setting every flag.
    pub fn thumb_sub_imm(&mut self, rd: REGISTER, imm: u32)
        requires
            old(self).wf(),
            rd < 16,
        ensures
            old(self).written_with_flags(
                Some(rd),
                add3(old(self).reg32(rd), !imm, 1),
                arithmetic_flags(old(self).cpsr.0, add3(old(self).reg32(rd), !imm, 1), old(self).reg32(rd), !imm, 1),
                *final(self),
            ),
    {
        let minuend = self.get_register(rd);
        let imm = !imm;
        let result = minuend.wrapping_add(imm).wrapping_add(1);
        proof {
            lemma_wrapping_add3(minuend, imm, 1);
        }
        self.set_arithmetic_flags(result, minuend, imm, 1, true);
        self.set_register(rd, result);
    }
}

/// THUMB `ADD`, `CMP` and `MOV` on registers of which one may be high.
pub struct ThumbHiRegInstruction(pub u32);

#[derive(Debug, Clone, Copy, PartialEq, Eq, Structural)]
pub enum ThumbHiRegOperations {
    Add,
    Cmp,
    Mov,
}

/// The 4-bit register field made of bit `high` and the three bits at
/// `low_shift`.
pub open spec fn hi_register(v: u32, high: u32, low_mask: u32, low_shift: u32) -> u32 {
    (((v >> high) & 1u32) << 3u32) | ((v & low_mask) >> low_shift)
}

impl ThumbHiRegInstruction {
    /// Whether bits 8-9 name an operation; the value 3 is refused.
    pub open spec fn has_opcode(self) -> bool {
        (self.0 & 0x0300u32) >> 8u32 != 3
    }

    pub open spec fn spec_opcode(self) -> ThumbHiRegOperations {
        let op = (self.0 & 0x0300u32) >> 8u32;
        if op == 0 {
            ThumbHiRegOperations::Add
        } else if op == 1 {
            ThumbHiRegOperations::Cmp
        } else {
            ThumbHiRegOperations::Mov
        }
    }

    pub open spec fn spec_rd(self) -> u32 {
        hi_register(self.0, 7, 0x0007u32, 0)
    }

    pub open spec fn spec_rs(self) -> u32 {
        hi_register(self.0, 6, 0x0038u32, 3)
    }

    pub fn opcode(&self) -> (r: ThumbHiRegOperations)
        requires
            self.has_opcode(),
        ensures
            r == self.spec_opcode(),
    {
        let op = (self.0 & 0x0300) >> 8;
        if op == 0 {
            ThumbHiRegOperations::Add
        } else if op == 1 {
            ThumbHiRegOperations::Cmp
        } else {
            ThumbHiRegOperations::Mov
        }
    }

    pub fn rd(&self) -> (r: REGISTER)
        ensures
            r == self.spec_rd(),
            r < 16,
    {
        let v = self.0;
        proof {
            crate::bits::lemma_word_fields(v);
        }
        (get_bit(v, 7) << 3u32) | ((v & 0x0007) >> 0u32)
    }

    pub fn rs(&self) -> (r: REGISTER)
        ensures
            r == self.spec_rs(),
            r < 16,
    {
        let v = self.0;
        proof {
            crate::bits::lemma_word_fields(v);
        }
        (get_bit(v, 6) << 3u32) | ((v & 0x0038) >> 3u32)
    }

    /// The value the instruction leaves in `rd` (a compare leaves it) and
    /// the flags it leaves: only the compare sets them.
    pub open spec fn outcome(self, cpu: CPU) -> (u32, u32) {
        let a = cpu.reg32(self.spec_rd());
        let b = cpu.reg32(self.spec_rs());
        match self.spec_opcode() {
            ThumbHiRegOperations::Add => (add3(a, b, 0), cpu.cpsr.0),
            ThumbHiRegOperations::Cmp => (a, arithmetic_flags(cpu.cpsr.0, add3(a, !b, 1), a, !b, 1)),
            ThumbHiRegOperations::Mov => (b, cpu.cpsr.0),
        }
    }

    /// The register written: none for the compare.
    pub open spec fn spec_destination(self) -> Option<u32> {
        if self.spec_opcode() == ThumbHiRegOperations::Cmp {
            None
        } else {
            Some(self.spec_rd())
        }
    }

    /// Whether a write to the PC can refill the pipeline.
    pub open spec fn can_execute(self, cpu: CPU, memory: GBAMemory) -> bool {
        &&& self.has_opcode()
        &&& self.spec_rd() == 15 ==> cpu.jump_fetch_ok(memory, self.outcome(cpu).0)
    }

    /// Whether the instruction can run from `cpu` and `memory`.
    pub open spec fn can_run(self, cpu: CPU, memory: GBAMemory) -> bool {
        &&& cpu.wf()
        &&& self.can_execute(cpu, memory)
    }

    /// `next` and `next_memory` are `cpu` and `memory` after the instruction
    /// ran, taking `r` cycles.
    pub open spec fn ran(self, cpu: CPU, memory: GBAMemory, next: CPU, next_memory: GBAMemory, r: u8) -> bool {
        &&& next.wf()
        &&& next_memory == memory
        &&& exists|written: CPU|
            {
                &&& #[trigger] cpu.written_with_flags(
                    self.spec_destination(),
                    self.outcome(cpu).0,
                    self.outcome(cpu).1,
                    written,
                )
                &&& if self.spec_rd() == 15 {
                    written.flushed(memory, next) && r == written.flush_cycles()
                } else {
                    next == written && r == 0
                }
            }
    }

    /// Executes the operation; an instruction whose destination is the PC
    /// refills the pipeline.
    pub fn execute(self, cpu: &mut CPU, memory: &mut GBAMemory) -> (r: CYCLES)
        requires
            self.can_run(*old(cpu), *old(memory)),
        ensures
            self.ran(*old(cpu), *old(memory), *final(cpu), *final(memory), r),
    {
        let rd = self.rd();
        let rs = self.rs();
        let rd_val = cpu.get_register(rd);
        let rs_val = cpu.get_register(rs);
        match self.opcode() {
            ThumbHiRegOperations::Add => cpu.arm_add(rd, rd_val, rs_val, false),
            ThumbHiRegOperations::Cmp => cpu.arm_cmp(rd, rd_val, rs_val, true),
            ThumbHiRegOperations::Mov => cpu.arm_mov(rd, rd_val, rs_val, false),
        }
        let ghost written = *cpu;
        assert(old(cpu).written_with_flags(self.spec_destination(), self.outcome(*old(cpu)).0, self.outcome(*old(cpu)).1, written));
        if rd == 15 {
            proof {
                crate::arm7tdmi::arm::alu::lemma_arithmetic_flags(old(cpu).cpsr.0, add3(rd_val, !rs_val, 1), rd_val, !rs_val, 1);
                assert(written.step() == old(cpu).step());
                assert(written.reg(15) == self.outcome(*old(cpu)).0);
            }
            let cycles = cpu.flush_pipeline(memory);
            proof {
                assert(written.flushed(*old(memory), *cpu));
            }
            cycles
        } else {
            0
        }
    }
}

/// THUMB `BX`: a branch to a register, switching state by its bit 0.
pub struct ThumbBx(pub u32);

impl ThumbBx {
    pub open spec fn spec_rs(self) -> u32 {
        hi_register(self.0, 6, 0x0038u32, 3)
    }

    pub fn rs(&self) -> (r: REGISTER)
        ensures
            r == self.spec_rs(),
            r < 16,
    {
        let v = self.0;
        proof {
            crate::bits::lemma_word_fields(v);
        }
        (get_bit(v, 6) << 3u32) | ((v & 0x0038) >> 3u32)
    }

    /// Whether the instruction can run from `cpu` and `memory`.
    pub open spec fn can_run(self, cpu: CPU, memory: GBAMemory) -> bool {
        &&& cpu.wf()
        &&& fetch_ok_with(
            memory,
            CPU::bx_target(cpu.reg32(self.spec_rs())),
            if bit_of(cpu.reg32(self.spec_rs()), 0) { 2u32 } else { 4u32 },
        )
    }

    /// `next` and `next_memory` are `cpu` and `memory` after the instruction
    /// ran, taking `r` cycles.
    pub open spec fn ran(self, cpu: CPU, memory: GBAMemory, next: CPU, next_memory: GBAMemory, r: u8) -> bool {
        &&& next.wf()
        &&& next_memory == memory
        &&& exists|switched: CPU|
            {
                &&& switched.wf()
                &&& switched.cpsr.spec_instruction_mode() == if bit_of(cpu.reg32(self.spec_rs()), 0) {
                    InstructionMode::THUMB
                } else {
                    InstructionMode::ARM
                }
                &&& forall|f| #[trigger] switched.flag(f) == cpu.flag(f)
                &&& switched.cpsr.spec_mode() == cpu.cpsr.spec_mode()
                &&& cpu.same_but_cpsr(switched)
                &&& #[trigger] switched.jumped(memory, CPU::bx_target(cpu.reg32(self.spec_rs())), next)
                &&& r == 1 + switched.jump_cycles(CPU::bx_target(cpu.reg32(self.spec_rs())))
            }
    }

    /// Switches to the state that bit 0 of `rs` selects and branches to it:
    /// bit 0 cleared for THUMB, bits 0 and 1 cleared for ARM.
    pub fn execute(self, cpu: &mut CPU, memory: &mut GBAMemory) -> (r: CYCLES)
        requires
            self.can_run(*old(cpu), *old(memory)),
        ensures
            self.ran(*old(cpu), *old(memory), *final(cpu), *final(memory), r),
    {
        let rs = self.rs();
        let mut destination = cpu.get_register(rs);
        if bit_is_set(destination, 0) {
            cpu.set_instruction_mode(InstructionMode::THUMB);
        } else {
            destination = destination & !2u32;
            cpu.set_instruction_mode(InstructionMode::ARM);
        }
        let ghost switched = *cpu;
        proof {
            crate::arm7tdmi::cpsr::lemma_instruction_mode_round_trip(old(cpu).cpsr.0, FlagsRegister::N);
            let d = destination;
            crate::bits::lemma_word_align(d);
            let o = old(cpu).reg32(rs);
            crate::bits::lemma_word_align(o);
        }
        let cycles = cpu.branch_to(memory, destination);
        proof {
            assert(switched.jumped(*old(memory), CPU::bx_target(old(cpu).reg32(rs)), *cpu));
        }
        1 + cycles
    }
}

/// THUMB `ADR` and `ADD rd, sp, #imm`: an address relative to the PC or SP.
pub struct ThumbAdr(pub u32);

#[derive(Debug, Clone, Copy, PartialEq, Eq, Structural)]
pub enum ThumbAdrRegister {
    PC,
    SP,
}

impl ThumbAdr {
    pub fn register(&self) -> (r: ThumbAdrRegister)
        ensures
            r == if bit_of(self.0, 11) { ThumbAdrRegister::SP } else { ThumbAdrRegister::PC },
    {
        if get_bit(self.0, 11) == 0 {
            ThumbAdrRegister::PC
        } else {
            ThumbAdrRegister::SP
        }
    }

    pub fn rd(&self) -> (r: REGISTER)
        ensures
            r == (self.0 & 0x0700u32) >> 8u32,
            r < 8,
    {
        proof {
            lemma_register_fields(self.0);
        }
        (self.0 & 0x0700) >> 8
    }

    /// The word offset in bits 0-7, in bytes.
    pub fn imm(&self) -> (r: u32)
        ensures
            r == (self.0 & 0x00FFu32) * 4,
    {
        let v = self.0;
        proof {
            crate::bits::lemma_word_fields(v);
        }
        (v & 0x00FF) * 4
    }

    /// Whether the instruction can run from `cpu` and `memory`.
    pub open spec fn can_run(self, cpu: CPU, memory: GBAMemory) -> bool {
        &&& cpu.wf()
    }

    /// `next` and `next_memory` are `cpu` and `memory` after the instruction
    /// ran, taking `r` cycles.
    pub open spec fn ran(self, cpu: CPU, memory: GBAMemory, next: CPU, next_memory: GBAMemory, r: u8) -> bool {
        &&& r == 0
        &&& next.wf()
        &&& next.registers.active_registers@ == cpu.registers.active_registers@.update(
            ((self.0 & 0x0700u32) >> 8u32) as int,
            (if bit_of(self.0, 11) { cpu.reg(13) } else { cpu.pc() & !2u32 }).wrapping_add(
                ((self.0 & 0x00FFu32) * 4) as u32,
            ),
        )
        &&& cpu.same_but_active(next)
    }

    /// `rd` = the PC with bit 1 cleared, or the SP, plus the offset.
    pub fn execute(self, cpu: &mut CPU, _memory: &mut GBAMemory) -> (r: CYCLES)
        requires
            self.can_run(*old(cpu), *old(_memory)),
        ensures
            self.ran(*old(cpu), *old(_memory), *final(cpu), *final(_memory), r),
    {
        let rd = self.rd();
        let imm = self.imm();
        let result = match self.register() {
            ThumbAdrRegister::PC => (cpu.get_pc() & !2u32).wrapping_add(imm),
            ThumbAdrRegister::SP => cpu.get_sp().wrapping_add(imm),
        };
        cpu.set_register(rd, result);
        0
    }
}

/// THUMB `ADD sp, #imm` and `SUB sp, #imm`.
pub struct ThumbAddToSp(pub u32);

#[derive(Debug, Clone, Copy, PartialEq, Eq, Structural)]
pub enum ThumbAddToSpOpcodes {
    Add,
    Sub,
}

impl ThumbAddToSp {
    pub fn opcode(&self) -> (r: ThumbAddToSpOpcodes)
        ensures
            r == if bit_of(self.0, 7) { ThumbAddToSpOpcodes::Sub } else { ThumbAddToSpOpcodes::Add },
    {
        if get_bit(self.0, 7) == 0 {
            ThumbAddToSpOpcodes::Add
        } else {
            ThumbAddToSpOpcodes::Sub
        }
    }

    /// The word offset in bits 0-6, in bytes.
    pub fn imm(&self) -> (r: u32)
        ensures
            r == (self.0 & 0x007Fu32) * 4,
    {
        let v = self.0;
        proof {
            crate::bits::lemma_word_fields(v);
        }
        (v & 0x007F) * 4
    }

    /// Whether the instruction can run from `cpu` and `memory`.
    pub open spec fn can_run(self, cpu: CPU, memory: GBAMemory) -> bool {
        &&& cpu.wf()
    }

    /// `next` and `next_memory` are `cpu` and `memory` after the instruction
    /// ran, taking `r` cycles.
    pub open spec fn ran(self, cpu: CPU, memory: GBAMemory, next: CPU, next_memory: GBAMemory, r: u8) -> bool {
        &&& r == 0
        &&& next.wf()
        &&& next.registers.active_registers@ == cpu.registers.active_registers@.update(
            13,
            if bit_of(self.0, 7) {
                cpu.reg(13).wrapping_sub(((self.0 & 0x007Fu32) * 4) as u32)
            } else {
                cpu.reg(13).wrapping_add(((self.0 & 0x007Fu32) * 4) as u32)
            },
        )
        &&& cpu.same_but_active(next)
    }

    /// Adds the offset to the SP, or subtracts it when bit 7 is set.
    pub fn execute(self, cpu: &mut CPU, _memory: &mut GBAMemory) -> (r: CYCLES)
        requires
            self.can_run(*old(cpu), *old(_memory)),
        ensures
            self.ran(*old(cpu), *old(_memory), *final(cpu), *final(_memory), r),
    {
        let imm = self.imm();
        let result = match self.opcode() {
            ThumbAddToSpOpcodes::Add => cpu.get_sp().wrapping_add(imm),
            ThumbAddToSpOpcodes::Sub => cpu.get_sp().wrapping_sub(imm),
        };
        cpu.set_sp(result);
        0
    }
}

} // verus!
