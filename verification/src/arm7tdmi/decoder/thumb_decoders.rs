use vstd::prelude::*;

verus! {

/// Whether `instruction` has the bit pattern of add or subtract with a register or a 3-bit immediate.
pub open spec fn is_add_or_subtract_instruction_spec(instruction: u32) -> bool {
    instruction & 0xF800u32 == 0x1800u32
}

/// Whether `instruction` has the bit pattern of add or subtract with a register or a 3-bit immediate.
pub fn is_add_or_subtract_instruction(instruction: u32) -> (r: bool)
    ensures
        r == is_add_or_subtract_instruction_spec(instruction),
{
    instruction & 0xF800u32 == 0x1800u32
}

/// Whether `instruction` has the bit pattern of move shifted register.
pub open spec fn is_move_shifted_register_spec(instruction: u32) -> bool {
    instruction & 0xE000u32 == 0x0000u32
}

/// Whether `instruction` has the bit pattern of move shifted register.
pub fn is_move_shifted_register(instruction: u32) -> (r: bool)
    ensures
        r == is_move_shifted_register_spec(instruction),
{
    instruction & 0xE000u32 == 0x0000u32
}

/// Whether `instruction` has the bit pattern of move, compare, add or subtract an 8-bit immediate.
pub open spec fn is_move_compare_add_subtract_immediate_spec(instruction: u32) -> bool {
    instruction & 0xE000u32 == 0x2000u32
}

/// Whether `instruction` has the bit pattern of move, compare, add or subtract an 8-bit immediate.
pub fn is_move_compare_add_subtract_immediate(instruction: u32) -> (r: bool)
    ensures
        r == is_move_compare_add_subtract_immediate_spec(instruction),
{
    instruction & 0xE000u32 == 0x2000u32
}

/// Whether `instruction` has the bit pattern of an ALU operation between low registers.
pub open spec fn is_alu_operation_spec(instruction: u32) -> bool {
    instruction & 0xFC00u32 == 0x4000u32
}

/// Whether `instruction` has the bit pattern of an ALU operation between low registers.
pub fn is_alu_operation(instruction: u32) -> (r: bool)
    ensures
        r == is_alu_operation_spec(instruction),
{
    instruction & 0xFC00u32 == 0x4000u32
}

/// Whether `instruction` has the bit pattern of an operation on high registers.
pub open spec fn is_thumb_hi_reg_operation_spec(instruction: u32) -> bool {
    instruction & 0xFC00u32 == 0x4400u32
}

/// Whether `instruction` has the bit pattern of an operation on high registers.
pub fn is_thumb_hi_reg_operation(instruction: u32) -> (r: bool)
    ensures
        r == is_thumb_hi_reg_operation_spec(instruction),
{
    instruction & 0xFC00u32 == 0x4400u32
}

/// Whether `instruction` has the bit pattern of `BX`.
pub open spec fn is_thumb_bx_spec(instruction: u32) -> bool {
    instruction & 0xFF00u32 == 0x4700u32
}

/// Whether `instruction` has the bit pattern of `BX`.
pub fn is_thumb_bx(instruction: u32) -> (r: bool)
    ensures
        r == is_thumb_bx_spec(instruction),
{
    instruction & 0xFF00u32 == 0x4700u32
}

/// Whether `instruction` has the bit pattern of a PC-relative load.
pub open spec fn is_load_pc_relative_spec(instruction: u32) -> bool {
    instruction & 0xF800u32 == 0x4800u32
}

/// Whether `instruction` has the bit pattern of a PC-relative load.
pub fn is_load_pc_relative(instruction: u32) -> (r: bool)
    ensures
        r == is_load_pc_relative_spec(instruction),
{
    instruction & 0xF800u32 == 0x4800u32
}

/// Whether `instruction` has the bit pattern of a load or store with a register offset.
pub open spec fn is_sdt_register_offset_spec(instruction: u32) -> bool {
    instruction & 0xF000u32 == 0x5000u32
}

/// Whether `instruction` has the bit pattern of a load or store with a register offset.
pub fn is_sdt_register_offset(instruction: u32) -> (r: bool)
    ensures
        r == is_sdt_register_offset_spec(instruction),
{
    instruction & 0xF000u32 == 0x5000u32
}

/// Whether `instruction` has the bit pattern of a load or store with an immediate offset.
pub open spec fn is_sdt_imm_offset_spec(instruction: u32) -> bool {
    instruction & 0xE000u32 == 0x6000u32
}

/// Whether `instruction` has the bit pattern of a load or store with an immediate offset.
pub fn is_sdt_imm_offset(instruction: u32) -> (r: bool)
    ensures
        r == is_sdt_imm_offset_spec(instruction),
{
    instruction & 0xE000u32 == 0x6000u32
}

/// Whether `instruction` has the bit pattern of a halfword load or store.
pub open spec fn is_sdt_halfword_spec(instruction: u32) -> bool {
    instruction & 0xF000u32 == 0x8000u32
}

/// Whether `instruction` has the bit pattern of a halfword load or store.
pub fn is_sdt_halfword(instruction: u32) -> (r: bool)
    ensures
        r == is_sdt_halfword_spec(instruction),
{
    instruction & 0xF000u32 == 0x8000u32
}

/// Whether `instruction` has the bit pattern of an SP-relative load or store.
pub open spec fn is_sdt_sp_imm_spec(instruction: u32) -> bool {
    instruction & 0xF000u32 == 0x9000u32
}

/// Whether `instruction` has the bit pattern of an SP-relative load or store.
pub fn is_sdt_sp_imm(instruction: u32) -> (r: bool)
    ensures
        r == is_sdt_sp_imm_spec(instruction),
{
    instruction & 0xF000u32 == 0x9000u32
}

/// Whether `instruction` has the bit pattern of a load address from PC or SP.
pub open spec fn is_get_relative_address_spec(instruction: u32) -> bool {
    instruction & 0xF000u32 == 0xA000u32
}

/// Whether `instruction` has the bit pattern of a load address from PC or SP.
pub fn is_get_relative_address(instruction: u32) -> (r: bool)
    ensures
        r == is_get_relative_address_spec(instruction),
{
    instruction & 0xF000u32 == 0xA000u32
}

/// Whether `instruction` has the bit pattern of an addition of an offset to SP.
pub open spec fn is_add_offset_to_sp_spec(instruction: u32) -> bool {
    instruction & 0xFF00u32 == 0xB000u32
}

/// Whether `instruction` has the bit pattern of an addition of an offset to SP.
pub fn is_add_offset_to_sp(instruction: u32) -> (r: bool)
    ensures
        r == is_add_offset_to_sp_spec(instruction),
{
    instruction & 0xFF00u32 == 0xB000u32
}

/// Whether `instruction` has the bit pattern of `PUSH` or `POP`.
pub open spec fn is_push_pop_spec(instruction: u32) -> bool {
    instruction & 0xF600u32 == 0xB400u32
}

/// Whether `instruction` has the bit pattern of `PUSH` or `POP`.
pub fn is_push_pop(instruction: u32) -> (r: bool)
    ensures
        r == is_push_pop_spec(instruction),
{
    instruction & 0xF600u32 == 0xB400u32
}

/// Whether `instruction` has the bit pattern of a multiple load or store.
pub open spec fn is_thumb_block_dt_spec(instruction: u32) -> bool {
    instruction & 0xF000u32 == 0xC000u32
}

/// Whether `instruction` has the bit pattern of a multiple load or store.
pub fn is_thumb_block_dt(instruction: u32) -> (r: bool)
    ensures
        r == is_thumb_block_dt_spec(instruction),
{
    instruction & 0xF000u32 == 0xC000u32
}

/// Whether `instruction` has the bit pattern of a conditional branch.
pub open spec fn is_conditional_branch_spec(instruction: u32) -> bool {
    instruction & 0xF000u32 == 0xD000u32
}

/// Whether `instruction` has the bit pattern of a conditional branch.
pub fn is_conditional_branch(instruction: u32) -> (r: bool)
    ensures
        r == is_conditional_branch_spec(instruction),
{
    instruction & 0xF000u32 == 0xD000u32
}

/// Whether `instruction` has the bit pattern of an unconditional branch.
pub open spec fn is_unconditional_branch_spec(instruction: u32) -> bool {
    instruction & 0xF800u32 == 0xE000u32
}

/// Whether `instruction` has the bit pattern of an unconditional branch.
pub fn is_unconditional_branch(instruction: u32) -> (r: bool)
    ensures
        r == is_unconditional_branch_spec(instruction),
{
    instruction & 0xF800u32 == 0xE000u32
}

/// Whether `instruction` has the bit pattern of the first half of a long branch with link.
pub open spec fn is_set_link_register_spec(instruction: u32) -> bool {
    instruction & 0xF800u32 == 0xF000u32
}

/// Whether `instruction` has the bit pattern of the first half of a long branch with link.
pub fn is_set_link_register(instruction: u32) -> (r: bool)
    ensures
        r == is_set_link_register_spec(instruction),
{
    instruction & 0xF800u32 == 0xF000u32
}

/// Whether `instruction` has the bit pattern of the second half of a long branch with link.
pub open spec fn is_long_branch_with_link_spec(instruction: u32) -> bool {
    instruction & 0xF800u32 == 0xF800u32
}

/// Whether `instruction` has the bit pattern of the second half of a long branch with link.
pub fn is_long_branch_with_link(instruction: u32) -> (r: bool)
    ensures
        r == is_long_branch_with_link_spec(instruction),
{
    instruction & 0xF800u32 == 0xF800u32
}

/// Whether `instruction` has the bit pattern of `SWI`.
pub open spec fn is_thumb_swi_spec(instruction: u32) -> bool {
    instruction & 0xFF00u32 == 0xDF00u32
}

/// Whether `instruction` has the bit pattern of `SWI`.
pub fn is_thumb_swi(instruction: u32) -> (r: bool)
    ensures
        r == is_thumb_swi_spec(instruction),
{
    instruction & 0xFF00u32 == 0xDF00u32
}

} // verus!
