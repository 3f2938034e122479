pub mod cpsr;
pub mod registers;
pub mod arm;
pub mod decoder;
pub mod cpu;
pub mod instruction_table;
pub mod interrupts;
pub mod thumb;
