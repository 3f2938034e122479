use vstd::prelude::*;

verus! {

/// Whether `instruction` has the bit pattern of `MUL` or `MLA`.
pub open spec fn is_multiply_instruction_spec(instruction: u32) -> bool {
    instruction & 0b0000_1111_1100_0000_0000_0000_1111_0000u32 == 0b0000_0000_0000_0000_0000_0000_1001_0000u32
}

/// Whether `instruction` has the bit pattern of `MUL` or `MLA`.
pub fn is_multiply_instruction(instruction: u32) -> (r: bool)
    ensures
        r == is_multiply_instruction_spec(instruction),
{
    instruction & 0b0000_1111_1100_0000_0000_0000_1111_0000u32 == 0b0000_0000_0000_0000_0000_0000_1001_0000u32
}

/// Whether `instruction` has the bit pattern of a long multiply.
pub open spec fn is_multiply_long_instruction_spec(instruction: u32) -> bool {
    instruction & 0b0000_1111_1000_0000_0000_0000_1111_0000u32 == 0x0080_0090u32
}

/// Whether `instruction` has the bit pattern of a long multiply.
pub fn is_multiply_long_instruction(instruction: u32) -> (r: bool)
    ensures
        r == is_multiply_long_instruction_spec(instruction),
{
    instruction & 0b0000_1111_1000_0000_0000_0000_1111_0000u32 == 0x0080_0090u32
}

/// The word `CMP lr, #0`, which the branch check also takes as a jump.
pub const JUMP_COMPARE: u32 = 0xE35E_0000;

/// Whether `instruction` has the bit pattern of `B` or `BL`, or is
/// `CMP lr, #0`. The decoder tries the data processing class first, so
/// that word still decodes as a compare.
pub open spec fn is_branch_instruction_spec(instruction: u32) -> bool {
    instruction & 0x0E00_0000u32 == 0x0A00_0000u32 || instruction == JUMP_COMPARE
}

/// Whether `instruction` has the bit pattern of `B` or `BL`, or is
/// `CMP lr, #0`.
pub fn is_branch_instruction(instruction: u32) -> (r: bool)
    ensures
        r == is_branch_instruction_spec(instruction),
{
    instruction & 0x0E00_0000u32 == 0x0A00_0000u32 || instruction == JUMP_COMPARE
}

/// Whether `instruction` has the bit pattern of `BL`.
pub open spec fn is_branch_and_link_instruction_spec(instruction: u32) -> bool {
    instruction & 0x0F00_0000u32 == 0x0B00_0000u32
}

/// Whether `instruction` has the bit pattern of `BL`.
pub fn is_branch_and_link_instruction(instruction: u32) -> (r: bool)
    ensures
        r == is_branch_and_link_instruction_spec(instruction),
{
    instruction & 0x0F00_0000u32 == 0x0B00_0000u32
}

/// Whether `instruction` has the bit pattern of `SWP` or `SWPB`.
pub open spec fn is_single_data_swap_spec(instruction: u32) -> bool {
    instruction & 0x0FB0_0FF0u32 == 0x0100_0090u32
}

/// Whether `instruction` has the bit pattern of `SWP` or `SWPB`.
pub fn is_single_data_swap(instruction: u32) -> (r: bool)
    ensures
        r == is_single_data_swap_spec(instruction),
{
    instruction & 0x0FB0_0FF0u32 == 0x0100_0090u32
}

/// Whether `instruction` has the bit pattern of `SWI`.
pub open spec fn is_software_interrupt_spec(instruction: u32) -> bool {
    instruction & 0x0F00_0000u32 == 0x0F00_0000u32
}

/// Whether `instruction` has the bit pattern of `SWI`.
pub fn is_software_interrupt(instruction: u32) -> (r: bool)
    ensures
        r == is_software_interrupt_spec(instruction),
{
    instruction & 0x0F00_0000u32 == 0x0F00_0000u32
}

/// Whether `instruction` has the bit pattern of `LDM` or `STM`.
pub open spec fn is_block_data_transfer_spec(instruction: u32) -> bool {
    instruction & 0x0E00_0000u32 == 0x0800_0000u32
}

/// Whether `instruction` has the bit pattern of `LDM` or `STM`.
pub fn is_block_data_transfer(instruction: u32) -> (r: bool)
    ensures
        r == is_block_data_transfer_spec(instruction),
{
    instruction & 0x0E00_0000u32 == 0x0800_0000u32
}

/// Whether `instruction` has the bit pattern of in the undefined instruction space.
pub open spec fn is_undefined_spec(instruction: u32) -> bool {
    instruction & 0x0E00_0010u32 == 0x0600_0010u32
}

/// Whether `instruction` has the bit pattern of in the undefined instruction space.
pub fn is_undefined(instruction: u32) -> (r: bool)
    ensures
        r == is_undefined_spec(instruction),
{
    instruction & 0x0E00_0010u32 == 0x0600_0010u32
}

/// Whether `instruction` has the bit pattern of `LDR`, `STR`, `LDRB` or `STRB`.
pub open spec fn is_load_or_store_register_unsigned_spec(instruction: u32) -> bool {
    instruction & 0x0C00_0000u32 == 0x0400_0000u32
}

/// Whether `instruction` has the bit pattern of `LDR`, `STR`, `LDRB` or `STRB`.
pub fn is_load_or_store_register_unsigned(instruction: u32) -> (r: bool)
    ensures
        r == is_load_or_store_register_unsigned_spec(instruction),
{
    instruction & 0x0C00_0000u32 == 0x0400_0000u32
}

/// Whether `instruction` has the bit pattern of `MSR`.
pub open spec fn is_msr_spec(instruction: u32) -> bool {
    instruction & 0x0DB0_0000u32 == 0x0120_0000u32
}

/// Whether `instruction` has the bit pattern of `MSR`.
pub fn is_msr(instruction: u32) -> (r: bool)
    ensures
        r == is_msr_spec(instruction),
{
    instruction & 0x0DB0_0000u32 == 0x0120_0000u32
}

/// Whether `instruction` has the bit pattern of `MRS`.
pub open spec fn is_mrs_spec(instruction: u32) -> bool {
    instruction & 0x0DB0_0000u32 == 0x0100_0000u32
}

/// Whether `instruction` has the bit pattern of `MRS`.
pub fn is_mrs(instruction: u32) -> (r: bool)
    ensures
        r == is_mrs_spec(instruction),
{
    instruction & 0x0DB0_0000u32 == 0x0100_0000u32
}

/// Whether `instruction` has the bit pattern of a data processing instruction.
pub open spec fn is_data_processing_spec(instruction: u32) -> bool {
    instruction & 0x0C00_0000u32 == 0x0000_0000u32
}

/// Whether `instruction` has the bit pattern of a data processing instruction.
pub fn is_data_processing(instruction: u32) -> (r: bool)
    ensures
        r == is_data_processing_spec(instruction),
{
    instruction & 0x0C00_0000u32 == 0x0000_0000u32
}

/// Whether `instruction` has the bit pattern of a halfword or signed data transfer.
pub open spec fn is_hw_or_signed_data_transfer_spec(instruction: u32) -> bool {
    instruction & 0x0E00_0090u32 == 0x0000_0090u32
}

/// Whether `instruction` has the bit pattern of a halfword or signed data transfer.
pub fn is_hw_or_signed_data_transfer(instruction: u32) -> (r: bool)
    ensures
        r == is_hw_or_signed_data_transfer_spec(instruction),
{
    instruction & 0x0E00_0090u32 == 0x0000_0090u32
}

/// Whether `instruction` has the bit pattern of `BX`.
pub open spec fn is_branch_and_exchange_instruction_spec(instruction: u32) -> bool {
    instruction & 0x0FFF_FF00u32 == 0x012F_FF00u32
}

/// Whether `instruction` has the bit pattern of `BX`.
pub fn is_branch_and_exchange_instruction(instruction: u32) -> (r: bool)
    ensures
        r == is_branch_and_exchange_instruction_spec(instruction),
{
    instruction & 0x0FFF_FF00u32 == 0x012F_FF00u32
}

} // verus!
