pub mod alu;
pub mod branch;
pub mod multiply;
pub mod swap_instruction;
pub mod data_transfer_instructions;
pub mod instructions;
