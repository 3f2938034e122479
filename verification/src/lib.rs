pub mod arm7tdmi;
pub mod bits;
pub mod gba;
pub mod graphics;
pub mod io;
pub mod memory;
pub mod types;
