pub mod alu;
pub mod data_transfer_instructions;
pub mod jumps_and_calls;
