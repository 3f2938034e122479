use vstd::prelude::*;

verus! {

/// A 32-bit machine word.
pub type WORD = u32;
/// A 16-bit half word.
pub type HWORD = u16;
/// A single byte.
pub type BYTE = u8;
/// A register number as it is encoded in an instruction.
pub type REGISTER = u32;
/// A count of bus cycles.
pub type CYCLES = u8;
/// A raw ARM or THUMB instruction.
pub type ARMByteCode = u32;

} // verus!
