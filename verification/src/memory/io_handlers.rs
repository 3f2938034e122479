use vstd::prelude::*;

use crate::io::timers::Timer;
use crate::memory::memory::{io_stored, view_io, CPUCallbacks, GBAMemory, MemoryError, MemoryView};

verus! {

/// The start of the I/O registers in the address map, and the offsets of
/// the registers that the library reads or writes.
pub const IO_BASE: usize = 0x4000000;
pub const DISPCNT: usize = 0x000;
pub const DISPSTAT: usize = 0x004;
pub const VCOUNT: usize = 0x006;
pub const BG0CNT: usize = 0x008;
pub const BG1CNT: usize = 0x00A;
pub const BG2CNT: usize = 0x00C;
pub const BG3CNT: usize = 0x00E;
pub const WINOUT: usize = 0x04A;
pub const BLDCNT: usize = 0x050;
pub const BLDALPHA: usize = 0x052;
pub const BLDY: usize = 0x054;
pub const DMA0CNT_H: usize = 0x0BA;
pub const TM0CNT_L: usize = 0x100;
pub const TM0CNT_H: usize = 0x102;
pub const TM1CNT_L: usize = 0x104;
pub const TM1CNT_H: usize = 0x106;
pub const TM2CNT_L: usize = 0x108;
pub const TM2CNT_H: usize = 0x10A;
pub const TM3CNT_L: usize = 0x10C;
pub const TM3CNT_H: usize = 0x10E;
pub const KEYINPUT: usize = 0x130;
pub const SOUNDBIAS: usize = 0x088;
pub const IME: usize = 0x208;
pub const IE: usize = 0x200;
pub const IF: usize = 0x202;
pub const POSTFLG: usize = 0x300;
pub const HALTCNT: usize = 0x301;

/// The number of offsets that the register table covers.
pub const IO_TABLE_SIZE: usize = 0x412;

/// The bits of a register that reads and that writes keep: the first mask
/// is the read mask, the second the write mask.
#[derive(Clone, Copy, PartialEq, Eq, Structural)]
pub enum BitMask {
    EIGHT(u8, u8),
    SIXTEEN(u16, u16),
    THIRTYTWO(u32, u32),
}

/// What a write to a register sets off after the store.
#[derive(Clone, Copy, PartialEq, Eq, Structural)]
pub enum IOCallback {
    Dispstat,
    CheckInterrupts,
    Halt,
}

/// How a register behaves: its masks, whether reads and writes of it are
/// handled apart, and what a write sets off.
#[derive(Clone, Copy, PartialEq, Eq, Structural)]
pub struct IORegisterDefinition {
    pub mask: BitMask,
    pub needs_special_handling: bool,
    pub callback: Option<IOCallback>,
}

/// The register table: the definition of the register at `offset`, if one
/// starts there.
#[verifier::opaque]
pub open spec fn io_table(offset: usize) -> Option<IORegisterDefinition> {
    if offset == 0x000 {
        Some(IORegisterDefinition { mask: BitMask::SIXTEEN(0xFFFFu16, 0xFFFFu16), needs_special_handling: false, callback: None })
    } else if offset == 0x004 {
        Some(IORegisterDefinition { mask: BitMask::SIXTEEN(0xFF3Fu16, 0xFF38u16), needs_special_handling: false, callback: Some(IOCallback::Dispstat) })
    } else if offset == 0x006 {
        Some(IORegisterDefinition { mask: BitMask::SIXTEEN(0x00FFu16, 0x0000u16), needs_special_handling: false, callback: None })
    } else if offset == 0x008 {
        Some(IORegisterDefinition { mask: BitMask::SIXTEEN(0xFFFFu16, 0xFFFFu16), needs_special_handling: false, callback: None })
    } else if offset == 0x00A {
        Some(IORegisterDefinition { mask: BitMask::SIXTEEN(0xFFFFu16, 0xFFFFu16), needs_special_handling: false, callback: None })
    } else if offset == 0x00C {
        Some(IORegisterDefinition { mask: BitMask::SIXTEEN(0xFFFFu16, 0xFFFFu16), needs_special_handling: false, callback: None })
    } else if offset == 0x00E {
        Some(IORegisterDefinition { mask: BitMask::SIXTEEN(0xFFFFu16, 0xFFFFu16), needs_special_handling: false, callback: None })
    } else if offset == 0x010 {
        Some(IORegisterDefinition { mask: BitMask::SIXTEEN(0x0000u16, 0x01FFu16), needs_special_handling: false, callback: None })
    } else if offset == 0x012 {
        Some(IORegisterDefinition { mask: BitMask::SIXTEEN(0x0000u16, 0x01FFu16), needs_special_handling: false, callback: None })
    } else if offset == 0x014 {
        Some(IORegisterDefinition { mask: BitMask::SIXTEEN(0x0000u16, 0x01FFu16), needs_special_handling: false, callback: None })
    } else if offset == 0x016 {
        Some(IORegisterDefinition { mask: BitMask::SIXTEEN(0x0000u16, 0x01FFu16), needs_special_handling: false, callback: None })
    } else if offset == 0x018 {
        Some(IORegisterDefinition { mask: BitMask::SIXTEEN(0x0000u16, 0x01FFu16), needs_special_handling: false, callback: None })
    } else if offset == 0x01A {
        Some(IORegisterDefinition { mask: BitMask::SIXTEEN(0x0000u16, 0x01FFu16), needs_special_handling: false, callback: None })
    } else if offset == 0x01C {
        Some(IORegisterDefinition { mask: BitMask::SIXTEEN(0x0000u16, 0x01FFu16), needs_special_handling: false, callback: None })
    } else if offset == 0x01E {
        Some(IORegisterDefinition { mask: BitMask::SIXTEEN(0x0000u16, 0x01FFu16), needs_special_handling: false, callback: None })
    } else if offset == 0x020 {
        Some(IORegisterDefinition { mask: BitMask::SIXTEEN(0x0000u16, 0xFFFFu16), needs_special_handling: false, callback: None })
    } else if offset == 0x022 {
        Some(IORegisterDefinition { mask: BitMask::SIXTEEN(0x0000u16, 0xFFFFu16), needs_special_handling: false, callback: None })
    } else if offset == 0x024 {
        Some(IORegisterDefinition { mask: BitMask::SIXTEEN(0x0000u16, 0xFFFFu16), needs_special_handling: false, callback: None })
    } else if offset == 0x026 {
        Some(IORegisterDefinition { mask: BitMask::SIXTEEN(0x0000u16, 0xFFFFu16), needs_special_handling: false, callback: None })
    } else if offset == 0x028 {
        Some(IORegisterDefinition { mask: BitMask::SIXTEEN(0x0000u16, 0xFFFFu16), needs_special_handling: false, callback: None })
    } else if offset == 0x02A {
        Some(IORegisterDefinition { mask: BitMask::SIXTEEN(0x0000u16, 0x0FFFu16), needs_special_handling: false, callback: None })
    } else if offset == 0x02C {
        Some(IORegisterDefinition { mask: BitMask::SIXTEEN(0x0000u16, 0xFFFFu16), needs_special_handling: false, callback: None })
    } else if offset == 0x02E {
        Some(IORegisterDefinition { mask: BitMask::SIXTEEN(0x0000u16, 0x0FFFu16), needs_special_handling: false, callback: None })
    } else if offset == 0x030 {
        Some(IORegisterDefinition { mask: BitMask::SIXTEEN(0x0000u16, 0xFFFFu16), needs_special_handling: false, callback: None })
    } else if offset == 0x032 {
        Some(IORegisterDefinition { mask: BitMask::SIXTEEN(0x0000u16, 0xFFFFu16), needs_special_handling: false, callback: None })
    } else if offset == 0x034 {
        Some(IORegisterDefinition { mask: BitMask::SIXTEEN(0x0000u16, 0xFFFFu16), needs_special_handling: false, callback: None })
    } else if offset == 0x036 {
        Some(IORegisterDefinition { mask: BitMask::SIXTEEN(0x0000u16, 0xFFFFu16), needs_special_handling: false, callback: None })
    } else if offset == 0x038 {
        Some(IORegisterDefinition { mask: BitMask::SIXTEEN(0x0000u16, 0xFFFFu16), needs_special_handling: false, callback: None })
    } else if offset == 0x03A {
        Some(IORegisterDefinition { mask: BitMask::SIXTEEN(0x0000u16, 0x0FFFu16), needs_special_handling: false, callback: None })
    } else if offset == 0x03C {
        Some(IORegisterDefinition { mask: BitMask::SIXTEEN(0x0000u16, 0xFFFFu16), needs_special_handling: false, callback: None })
    } else if offset == 0x03E {
        Some(IORegisterDefinition { mask: BitMask::SIXTEEN(0x0000u16, 0x0FFFu16), needs_special_handling: false, callback: None })
    } else if offset == 0x040 {
        Some(IORegisterDefinition { mask: BitMask::SIXTEEN(0x0000u16, 0xFFFFu16), needs_special_handling: false, callback: None })
    } else if offset == 0x042 {
        Some(IORegisterDefinition { mask: BitMask::SIXTEEN(0x0000u16, 0xFFFFu16), needs_special_handling: false, callback: None })
    } else if offset == 0x044 {
        Some(IORegisterDefinition { mask: BitMask::SIXTEEN(0x0000u16, 0xFFFFu16), needs_special_handling: false, callback: None })
    } else if offset == 0x046 {
        Some(IORegisterDefinition { mask: BitMask::SIXTEEN(0x0000u16, 0xFFFFu16), needs_special_handling: false, callback: None })
    } else if offset == 0x048 {
        Some(IORegisterDefinition { mask: BitMask::SIXTEEN(0x3F3Fu16, 0x3F3Fu16), needs_special_handling: false, callback: None })
    } else if offset == 0x04A {
        Some(IORegisterDefinition { mask: BitMask::SIXTEEN(0x3F3Fu16, 0x3F3Fu16), needs_special_handling: false, callback: None })
    } else if offset == 0x04C {
        Some(IORegisterDefinition { mask: BitMask::SIXTEEN(0xFFFFu16, 0xFFFFu16), needs_special_handling: false, callback: None })
    } else if offset == 0x04E {
        Some(IORegisterDefinition { mask: BitMask::SIXTEEN(0x0000u16, 0x0000u16), needs_special_handling: false, callback: None })
    } else if offset == 0x050 {
        Some(IORegisterDefinition { mask: BitMask::SIXTEEN(0x3FFFu16, 0x3FFFu16), needs_special_handling: false, callback: None })
    } else if offset == 0x052 {
        Some(IORegisterDefinition { mask: BitMask::SIXTEEN(0x3FFFu16, 0x3FFFu16), needs_special_handling: false, callback: None })
    } else if offset == 0x054 {
        Some(IORegisterDefinition { mask: BitMask::SIXTEEN(0x001Fu16, 0x001Fu16), needs_special_handling: false, callback: None })
    } else if offset == 0x056 {
        Some(IORegisterDefinition { mask: BitMask::SIXTEEN(0x0000u16, 0x0000u16), needs_special_handling: false, callback: None })
    } else if offset == 0x058 {
        Some(IORegisterDefinition { mask: BitMask::SIXTEEN(0x0000u16, 0x0000u16), needs_special_handling: false, callback: None })
    } else if offset == 0x05A {
        Some(IORegisterDefinition { mask: BitMask::SIXTEEN(0x0000u16, 0x0000u16), needs_special_handling: false, callback: None })
    } else if offset == 0x05C {
        Some(IORegisterDefinition { mask: BitMask::SIXTEEN(0x0000u16, 0x0000u16), needs_special_handling: false, callback: None })
    } else if offset == 0x05E {
        Some(IORegisterDefinition { mask: BitMask::SIXTEEN(0x0000u16, 0x0000u16), needs_special_handling: false, callback: None })
    } else if offset == 0x088 {
        Some(IORegisterDefinition { mask: BitMask::SIXTEEN(0xC3FEu16, 0xC3FEu16), needs_special_handling: false, callback: None })
    } else if offset == 0x0B0 {
        Some(IORegisterDefinition { mask: BitMask::THIRTYTWO(0u32, 0x07FFFFFFu32), needs_special_handling: false, callback: None })
    } else if offset == 0x0B4 {
        Some(IORegisterDefinition { mask: BitMask::THIRTYTWO(0u32, 0x07FFFFFFu32), needs_special_handling: false, callback: None })
    } else if offset == 0x0B8 {
        Some(IORegisterDefinition { mask: BitMask::SIXTEEN(0u16, 0x3FFFu16), needs_special_handling: false, callback: None })
    } else if offset == 0x0BA {
        Some(IORegisterDefinition { mask: BitMask::SIXTEEN(0xFFFFu16, 0xFFFFu16), needs_special_handling: false, callback: None })
    } else if offset == 0x0BC {
        Some(IORegisterDefinition { mask: BitMask::THIRTYTWO(0u32, 0x07FFFFFFu32), needs_special_handling: false, callback: None })
    } else if offset == 0x0C0 {
        Some(IORegisterDefinition { mask: BitMask::THIRTYTWO(0u32, 0x07FFFFFFu32), needs_special_handling: false, callback: None })
    } else if offset == 0x0C4 {
        Some(IORegisterDefinition { mask: BitMask::SIXTEEN(0u16, 0x3FFFu16), needs_special_handling: false, callback: None })
    } else if offset == 0x0C6 {
        Some(IORegisterDefinition { mask: BitMask::SIXTEEN(0xFFFFu16, 0xFFFFu16), needs_special_handling: false, callback: None })
    } else if offset == 0x0C8 {
        Some(IORegisterDefinition { mask: BitMask::THIRTYTWO(0u32, 0x07FFFFFFu32), needs_special_handling: false, callback: None })
    } else if offset == 0x0CC {
        Some(IORegisterDefinition { mask: BitMask::THIRTYTWO(0u32, 0x07FFFFFFu32), needs_special_handling: false, callback: None })
    } else if offset == 0x0D0 {
        Some(IORegisterDefinition { mask: BitMask::SIXTEEN(0u16, 0x3FFFu16), needs_special_handling: false, callback: None })
    } else if offset == 0x0D2 {
        Some(IORegisterDefinition { mask: BitMask::SIXTEEN(0xFFFFu16, 0xFFFFu16), needs_special_handling: false, callback: None })
    } else if offset == 0x0D4 {
        Some(IORegisterDefinition { mask: BitMask::THIRTYTWO(0u32, 0x0FFFFFFFu32), needs_special_handling: false, callback: None })
    } else if offset == 0x0D8 {
        Some(IORegisterDefinition { mask: BitMask::THIRTYTWO(0u32, 0x0FFFFFFFu32), needs_special_handling: false, callback: None })
    } else if offset == 0x0DC {
        Some(IORegisterDefinition { mask: BitMask::SIXTEEN(0u16, 0xFFFFu16), needs_special_handling: false, callback: None })
    } else if offset == 0x0DE {
        Some(IORegisterDefinition { mask: BitMask::SIXTEEN(0xFFFFu16, 0xFFFFu16), needs_special_handling: false, callback: None })
    } else if offset == 0x0E0 {
        Some(IORegisterDefinition { mask: BitMask::SIXTEEN(0x0000u16, 0x0000u16), needs_special_handling: false, callback: None })
    } else if offset == 0x0E2 {
        Some(IORegisterDefinition { mask: BitMask::SIXTEEN(0x0000u16, 0x0000u16), needs_special_handling: false, callback: None })
    } else if offset == 0x0E4 {
        Some(IORegisterDefinition { mask: BitMask::SIXTEEN(0x0000u16, 0x0000u16), needs_special_handling: false, callback: None })
    } else if offset == 0x0E6 {
        Some(IORegisterDefinition { mask: BitMask::SIXTEEN(0x0000u16, 0x0000u16), needs_special_handling: false, callback: None })
    } else if offset == 0x0E8 {
        Some(IORegisterDefinition { mask: BitMask::SIXTEEN(0x0000u16, 0x0000u16), needs_special_handling: false, callback: None })
    } else if offset == 0x0EA {
        Some(IORegisterDefinition { mask: BitMask::SIXTEEN(0x0000u16, 0x0000u16), needs_special_handling: false, callback: None })
    } else if offset == 0x0EC {
        Some(IORegisterDefinition { mask: BitMask::SIXTEEN(0x0000u16, 0x0000u16), needs_special_handling: false, callback: None })
    } else if offset == 0x0EE {
        Some(IORegisterDefinition { mask: BitMask::SIXTEEN(0x0000u16, 0x0000u16), needs_special_handling: false, callback: None })
    } else if offset == 0x0F0 {
        Some(IORegisterDefinition { mask: BitMask::SIXTEEN(0x0000u16, 0x0000u16), needs_special_handling: false, callback: None })
    } else if offset == 0x0F2 {
        Some(IORegisterDefinition { mask: BitMask::SIXTEEN(0x0000u16, 0x0000u16), needs_special_handling: false, callback: None })
    } else if offset == 0x0F4 {
        Some(IORegisterDefinition { mask: BitMask::SIXTEEN(0x0000u16, 0x0000u16), needs_special_handling: false, callback: None })
    } else if offset == 0x0F6 {
        Some(IORegisterDefinition { mask: BitMask::SIXTEEN(0x0000u16, 0x0000u16), needs_special_handling: false, callback: None })
    } else if offset == 0x0F8 {
        Some(IORegisterDefinition { mask: BitMask::SIXTEEN(0x0000u16, 0x0000u16), needs_special_handling: false, callback: None })
    } else if offset == 0x0FA {
        Some(IORegisterDefinition { mask: BitMask::SIXTEEN(0x0000u16, 0x0000u16), needs_special_handling: false, callback: None })
    } else if offset == 0x0FC {
        Some(IORegisterDefinition { mask: BitMask::SIXTEEN(0x0000u16, 0x0000u16), needs_special_handling: false, callback: None })
    } else if offset == 0x0FE {
        Some(IORegisterDefinition { mask: BitMask::SIXTEEN(0x0000u16, 0x0000u16), needs_special_handling: false, callback: None })
    } else if offset == 0x100 {
        Some(IORegisterDefinition { mask: BitMask::SIXTEEN(0xFFFFu16, 0xFFFFu16), needs_special_handling: true, callback: None })
    } else if offset == 0x102 {
        Some(IORegisterDefinition { mask: BitMask::SIXTEEN(0x00FBu16, 0x00FBu16), needs_special_handling: true, callback: None })
    } else if offset == 0x104 {
        Some(IORegisterDefinition { mask: BitMask::SIXTEEN(0xFFFFu16, 0xFFFFu16), needs_special_handling: true, callback: None })
    } else if offset == 0x106 {
        Some(IORegisterDefinition { mask: BitMask::SIXTEEN(0x00FFu16, 0x00FFu16), needs_special_handling: true, callback: None })
    } else if offset == 0x108 {
        Some(IORegisterDefinition { mask: BitMask::SIXTEEN(0xFFFFu16, 0xFFFFu16), needs_special_handling: true, callback: None })
    } else if offset == 0x10A {
        Some(IORegisterDefinition { mask: BitMask::SIXTEEN(0x00FFu16, 0x00FFu16), needs_special_handling: true, callback: None })
    } else if offset == 0x10C {
        Some(IORegisterDefinition { mask: BitMask::SIXTEEN(0xFFFFu16, 0xFFFFu16), needs_special_handling: true, callback: None })
    } else if offset == 0x10E {
        Some(IORegisterDefinition { mask: BitMask::SIXTEEN(0x00FFu16, 0x00FFu16), needs_special_handling: true, callback: None })
    } else if offset == 0x110 {
        Some(IORegisterDefinition { mask: BitMask::SIXTEEN(0x0000u16, 0x0000u16), needs_special_handling: false, callback: None })
    } else if offset == 0x112 {
        Some(IORegisterDefinition { mask: BitMask::SIXTEEN(0x0000u16, 0x0000u16), needs_special_handling: false, callback: None })
    } else if offset == 0x114 {
        Some(IORegisterDefinition { mask: BitMask::SIXTEEN(0x0000u16, 0x0000u16), needs_special_handling: false, callback: None })
    } else if offset == 0x130 {
        Some(IORegisterDefinition { mask: BitMask::SIXTEEN(0x03FFu16, 0x0000u16), needs_special_handling: true, callback: None })
    } else if offset == 0x132 {
        Some(IORegisterDefinition { mask: BitMask::SIXTEEN(0xFFFFu16, 0xFFFFu16), needs_special_handling: false, callback: None })
    } else if offset == 0x200 {
        Some(IORegisterDefinition { mask: BitMask::SIXTEEN(0x3FFFu16, 0x3FFFu16), needs_special_handling: false, callback: None })
    } else if offset == 0x202 {
        Some(IORegisterDefinition { mask: BitMask::SIXTEEN(0x3FFFu16, 0x3FFFu16), needs_special_handling: true, callback: Some(IOCallback::CheckInterrupts) })
    } else if offset == 0x204 {
        Some(IORegisterDefinition { mask: BitMask::SIXTEEN(0xDFFFu16, 0xDFFFu16), needs_special_handling: false, callback: None })
    } else if offset == 0x206 {
        Some(IORegisterDefinition { mask: BitMask::SIXTEEN(0x0000u16, 0x0000u16), needs_special_handling: false, callback: None })
    } else if offset == 0x208 {
        Some(IORegisterDefinition { mask: BitMask::SIXTEEN(0x0001u16, 0x0001u16), needs_special_handling: false, callback: Some(IOCallback::CheckInterrupts) })
    } else if offset == 0x20A {
        Some(IORegisterDefinition { mask: BitMask::SIXTEEN(0x0000u16, 0x0000u16), needs_special_handling: false, callback: None })
    } else if offset == 0x20C {
        Some(IORegisterDefinition { mask: BitMask::SIXTEEN(0x0000u16, 0x0000u16), needs_special_handling: false, callback: None })
    } else if offset == 0x20E {
        Some(IORegisterDefinition { mask: BitMask::SIXTEEN(0x0000u16, 0x0000u16), needs_special_handling: false, callback: None })
    } else if offset == 0x210 {
        Some(IORegisterDefinition { mask: BitMask::SIXTEEN(0x0000u16, 0x0000u16), needs_special_handling: false, callback: None })
    } else if offset == 0x212 {
        Some(IORegisterDefinition { mask: BitMask::SIXTEEN(0x0000u16, 0x0000u16), needs_special_handling: false, callback: None })
    } else if offset == 0x214 {
        Some(IORegisterDefinition { mask: BitMask::SIXTEEN(0x0000u16, 0x0000u16), needs_special_handling: false, callback: None })
    } else if offset == 0x216 {
        Some(IORegisterDefinition { mask: BitMask::SIXTEEN(0x0000u16, 0x0000u16), needs_special_handling: false, callback: None })
    } else if offset == 0x218 {
        Some(IORegisterDefinition { mask: BitMask::SIXTEEN(0x0000u16, 0x0000u16), needs_special_handling: false, callback: None })
    } else if offset == 0x21A {
        Some(IORegisterDefinition { mask: BitMask::SIXTEEN(0x0000u16, 0x0000u16), needs_special_handling: false, callback: None })
    } else if offset == 0x21C {
        Some(IORegisterDefinition { mask: BitMask::SIXTEEN(0x0000u16, 0x0000u16), needs_special_handling: false, callback: None })
    } else if offset == 0x21E {
        Some(IORegisterDefinition { mask: BitMask::SIXTEEN(0x0000u16, 0x0000u16), needs_special_handling: false, callback: None })
    } else if offset == 0x300 {
        Some(IORegisterDefinition { mask: BitMask::EIGHT(0x01u8, 0x01u8), needs_special_handling: false, callback: None })
    } else if offset == 0x301 {
        Some(IORegisterDefinition { mask: BitMask::EIGHT(0x80u8, 0x80u8), needs_special_handling: false, callback: Some(IOCallback::Halt) })
    } else if offset == 0x410 {
        Some(IORegisterDefinition { mask: BitMask::EIGHT(0x00u8, 0xFFu8), needs_special_handling: false, callback: None })
    } else {
        None
    }
}

/// The definition that governs `offset`: the register starting there, else
/// the one starting at the even offset below.
pub open spec fn io_def(offset: usize) -> Option<IORegisterDefinition> {
    if io_table(offset) is Some {
        io_table(offset)
    } else {
        io_table(offset & 0xFFEusize)
    }
}

/// Whether looking up the definitions that an access at `offset` needs
/// stays inside the table: a byte register also looks at the register
/// after it, which must be a byte register too if there is one.
pub open spec fn def_ok(offset: usize) -> bool {
    &&& offset < IO_TABLE_SIZE
    &&& io_def(offset) is Some && io_def(offset)->0.mask is EIGHT ==> {
        &&& offset + 1 < IO_TABLE_SIZE
        &&& io_def((offset + 1) as usize) is Some ==> io_def((offset + 1) as usize)->0.mask is EIGHT
    }
}

/// The timer counter registers, read from the timers themselves.
pub open spec fn is_timer_counter(offset: usize) -> bool {
    offset == TM0CNT_L || offset == TM1CNT_L || offset == TM2CNT_L || offset == TM3CNT_L
}

/// The timer control registers, whose enable bit restarts the timer.
pub open spec fn is_timer_control(offset: usize) -> bool {
    offset == TM0CNT_H || offset == TM1CNT_H || offset == TM2CNT_H || offset == TM3CNT_H
}

/// The registers that are handled apart.
pub open spec fn is_special(offset: usize) -> bool {
    offset == IF || offset == KEYINPUT || is_timer_counter(offset) || is_timer_control(offset)
}

/// The byte mask of the register after a byte register, or 0 if there is
/// none; `read` picks its read mask, else its write mask.
pub open spec fn upper_mask(offset: usize, read: bool) -> u8 {
    match io_def((offset + 1) as usize) {
        Some(d) => match d.mask {
            BitMask::EIGHT(r, w) => if read {
                r
            } else {
                w
            },
            _ => 0,
        },
        None => 0,
    }
}

/// The half-word mask that a register's `mask` gives at `offset`: a byte
/// register takes the next byte register's mask as its high byte; a word
/// register uses the low half of its mask.
pub open spec fn half_mask(mask: BitMask, offset: usize, read: bool) -> u16 {
    match mask {
        BitMask::EIGHT(r, w) => ((upper_mask(offset, read) as u16) << 8u16) | ((if read {
            r
        } else {
            w
        }) as u16),
        BitMask::SIXTEEN(r, w) => if read {
            r
        } else {
            w
        },
        BitMask::THIRTYTWO(r, w) => ((if read {
            r
        } else {
            w
        }) >> ((((8 * offset) as usize) & 2usize) as u32)) as u16,
    }
}

/// The number of the timer whose counter register is at `offset`.
pub open spec fn timer_of_counter(offset: usize) -> int {
    ((offset & 0xFusize) / 4) as int
}

/// The number of the timer whose control register is at `offset`.
pub open spec fn timer_of_control(offset: usize) -> int {
    (((offset - 2) as usize & 0xFusize) / 4) as int
}

/// Whether a half-word read of the registers at the even offset `offset`
/// can be served.
pub open spec fn load_ok(offset: usize) -> bool {
    &&& def_ok(offset)
    &&& io_def(offset) is Some && io_def(offset)->0.needs_special_handling ==> is_special(offset)
}

/// What a half-word read at the even offset `offset` gives: the value
/// stored, masked by the register's read mask; a timer counter register
/// reads the timer's counter; where no register is, 0.
pub open spec fn masked_load(v: MemoryView, offset: usize) -> u16 {
    match io_def(offset) {
        None => 0,
        Some(def) => if def.needs_special_handling && is_timer_counter(offset) {
            v.3[timer_of_counter(offset)].counter as u16
        } else {
            view_io(v, offset) & half_mask(def.mask, offset, true)
        },
    }
}

/// `v` with a command for the CPU added.
pub open spec fn with_command(v: MemoryView, c: CPUCallbacks) -> MemoryView {
    (v.0, v.1, v.2.push(c), v.3)
}

/// `v` with the half word at the register offset `offset` set to `value`.
pub open spec fn with_io(v: MemoryView, offset: usize, value: u16) -> MemoryView {
    (v.0, io_stored(v.1, (offset >> 1) as int, value), v.2, v.3)
}

/// After a change of IME or IF: when interrupts are enabled and a requested
/// interrupt is enabled, the CPU is told to take it.
pub open spec fn spec_check_interrupts(v: MemoryView) -> MemoryView {
    if view_io(v, IME) == 0 {
        v
    } else if view_io(v, IF) & view_io(v, IE) > 0 {
        with_command(v, CPUCallbacks::RaiseIrq)
    } else {
        v
    }
}

/// After a write of DISPSTAT: each blank or counter flag that turned on
/// while its interrupt is enabled is requested in IF (whose low three
/// bits are replaced), then the interrupts are checked.
pub open spec fn spec_dispstat_callback(v: MemoryView, old_value: u16, value: u16) -> MemoryView {
    let triggered = (!old_value & value) & 0x7u16;
    if triggered == 0 {
        v
    } else {
        let available = triggered & ((value >> 3u16) & 0x7u16);
        let flags = (view_io(v, IF) & !0x7u16) | available;
        spec_check_interrupts(with_io(v, IF, flags))
    }
}

/// After a write of HALTCNT: bit 15 stops the CPU, otherwise it halts.
pub open spec fn spec_halt(v: MemoryView, value: u16) -> MemoryView {
    if value & 0x8000u16 > 0 {
        with_command(v, CPUCallbacks::Stop)
    } else {
        with_command(v, CPUCallbacks::Halt)
    }
}

/// What a register's write sets off.
pub open spec fn run_callback(callback: Option<IOCallback>, v: MemoryView, old_value: u16, value: u16) -> MemoryView {
    match callback {
        None => v,
        Some(IOCallback::Dispstat) => spec_dispstat_callback(v, old_value, value),
        Some(IOCallback::CheckInterrupts) => spec_check_interrupts(v),
        Some(IOCallback::Halt) => spec_halt(v, value),
    }
}

/// Timer `n` restarted from `value`, which also becomes its reload value.
pub open spec fn timer_restarted(t: Timer, value: u32) -> Timer {
    Timer { counter: value, reload_value: value, ..t }
}

/// A write of `value` to a timer control register at `offset`: when it
/// turns the enable bit on, the timer restarts from its counter register.
pub open spec fn spec_timer_enable(v: MemoryView, offset: usize, value: u16) -> MemoryView {
    let enabling = !view_io(v, offset) & value;
    if (enabling >> 7u16) & 1u16 == 1 {
        let n = timer_of_control(offset);
        (v.0, v.1, v.2, v.3.update(n, timer_restarted(v.3[n], view_io(v, (offset - 2) as usize) as u32)))
    } else {
        v
    }
}

/// Whether a half-word store at `offset` runs without failing: the
/// definitions it looks up are in the table.
pub open spec fn store_ok(offset: usize) -> bool {
    def_ok(offset)
}

/// The registers after a half word `value` is stored at `offset`, and
/// whether the store was accepted. IF is acknowledged: its bits set in
/// `value` are cleared. KEYINPUT ignores writes. A timer control register
/// restarts its timer when enabled. A special register at an offset that is
/// not its own refuses the write. The value kept is masked by the write
/// mask, and the register's callback runs with the old and the kept value.
pub open spec fn masked_store(v: MemoryView, offset: usize, value: u16) -> (MemoryView, bool) {
    match io_def(offset) {
        None => (v, true),
        Some(def) => if def.needs_special_handling && !is_special(offset) {
            (v, false)
        } else if def.needs_special_handling && offset == KEYINPUT {
            (v, true)
        } else {
            let value = if def.needs_special_handling && offset == IF {
                view_io(v, offset) & !value
            } else {
                value
            };
            let v1 = if def.needs_special_handling && is_timer_control(offset) {
                spec_timer_enable(v, offset, value)
            } else {
                v
            };
            let store_value = value & half_mask(def.mask, offset, false);
            let old_value = view_io(v1, offset);
            (run_callback(def.callback, with_io(v1, offset, store_value), old_value, store_value), true)
        },
    }
}

/// What a byte read of the registers at `offset` gives.
pub open spec fn io_load8(v: MemoryView, offset: usize) -> u8 {
    (masked_load(v, offset & 0xFFEusize) >> ((8 * (offset & 1usize)) as u16)) as u8
}

/// What a half-word read of the registers at `offset` gives.
pub open spec fn io_load16(v: MemoryView, offset: usize) -> u16 {
    masked_load(v, offset & 0xFFEusize)
}

/// What a word read of the registers at `offset` gives, low half first.
pub open spec fn io_load32(v: MemoryView, offset: usize) -> u32 {
    ((masked_load(v, ((offset & 0xFFCusize) + 2) as usize) as u32) << 16u32) | (masked_load(
        v,
        offset & 0xFFCusize,
    ) as u32)
}

/// The registers after a byte write at `offset`: the byte is merged into
/// its half word, which is stored at the byte's own offset.
pub open spec fn io_store8(v: MemoryView, offset: usize, value: u8) -> MemoryView {
    masked_store(
        v,
        offset & 0xFFFusize,
        crate::memory::memory::io_byte_merged(view_io(v, offset & 0xFFEusize), offset, value),
    ).0
}

/// The registers after a half-word write at `offset`.
pub open spec fn io_store16(v: MemoryView, offset: usize, value: u16) -> MemoryView {
    masked_store(v, offset & 0xFFEusize, value).0
}

/// The registers after a word write at `offset`: a word register keeps its
/// masked value's low half (both halves are stored at its own offset, the
/// high one first); otherwise the high half word is written, then, if that
/// was accepted, the low one.
pub open spec fn io_store32(v: MemoryView, offset: usize, value: u32) -> MemoryView {
    let aligned = offset & 0xFFCusize;
    match io_def(aligned) {
        None => v,
        Some(def) => match def.mask {
            BitMask::THIRTYTWO(_, mask) => {
                let kept = mask & value;
                with_io(with_io(v, aligned, (kept >> 16u32) as u16), aligned, (kept & 0xFFFFu32) as u16)
            },
            _ => {
                let high = masked_store(v, (aligned + 2) as usize, (value >> 16u32) as u16);
                if high.1 {
                    masked_store(high.0, aligned, (value & 0xFFFFu32) as u16).0
                } else {
                    high.0
                }
            },
        },
    }
}

/// Whether a word write at `offset` is accepted: always by a word register
/// or where no register is defined; otherwise when both half-word writes
/// are.
pub open spec fn io_store32_accepted(v: MemoryView, offset: usize, value: u32) -> bool {
    let aligned = offset & 0xFFCusize;
    match io_def(aligned) {
        None => true,
        Some(def) => match def.mask {
            BitMask::THIRTYTWO(_, _) => true,
            _ => {
                let high = masked_store(v, (aligned + 2) as usize, (value >> 16u32) as u16);
                high.1 && masked_store(high.0, aligned, (value & 0xFFFFu32) as u16).1
            },
        },
    }
}

/// Whether an access of `size` bytes to the registers at `offset` can be
/// served, reading or writing.
pub open spec fn io_access_ok(offset: usize, size: usize) -> bool {
    if size == 1 {
        load_ok(offset & 0xFFEusize) && store_ok(offset & 0xFFFusize)
    } else if size == 2 {
        load_ok(offset & 0xFFEusize) && store_ok(offset & 0xFFEusize)
    } else {
        let aligned = offset & 0xFFCusize;
        &&& load_ok(aligned) && load_ok((aligned + 2) as usize)
        &&& store_ok(aligned) && store_ok((aligned + 2) as usize)
        &&& io_def(aligned) is Some && io_def(aligned)->0.mask is THIRTYTWO ==> !io_def(aligned)->0.needs_special_handling
    }
}

impl GBAMemory {
    /// The register starting at `offset`, from the register table.
    fn io_table_entry(offset: usize) -> (r: Option<IORegisterDefinition>)
        ensures
            r == io_table(offset),
    {
        proof {
            reveal(io_table);
        }
        if offset == 0x000 {
            Some(IORegisterDefinition { mask: BitMask::SIXTEEN(0xFFFFu16, 0xFFFFu16), needs_special_handling: false, callback: None })
        } else if offset == 0x004 {
            Some(IORegisterDefinition { mask: BitMask::SIXTEEN(0xFF3Fu16, 0xFF38u16), needs_special_handling: false, callback: Some(IOCallback::Dispstat) })
        } else if offset == 0x006 {
            Some(IORegisterDefinition { mask: BitMask::SIXTEEN(0x00FFu16, 0x0000u16), needs_special_handling: false, callback: None })
        } else if offset == 0x008 {
            Some(IORegisterDefinition { mask: BitMask::SIXTEEN(0xFFFFu16, 0xFFFFu16), needs_special_handling: false, callback: None })
        } else if offset == 0x00A {
            Some(IORegisterDefinition { mask: BitMask::SIXTEEN(0xFFFFu16, 0xFFFFu16), needs_special_handling: false, callback: None })
        } else if offset == 0x00C {
            Some(IORegisterDefinition { mask: BitMask::SIXTEEN(0xFFFFu16, 0xFFFFu16), needs_special_handling: false, callback: None })
        } else if offset == 0x00E {
            Some(IORegisterDefinition { mask: BitMask::SIXTEEN(0xFFFFu16, 0xFFFFu16), needs_special_handling: false, callback: None })
        } else if offset == 0x010 {
            Some(IORegisterDefinition { mask: BitMask::SIXTEEN(0x0000u16, 0x01FFu16), needs_special_handling: false, callback: None })
        } else if offset == 0x012 {
            Some(IORegisterDefinition { mask: BitMask::SIXTEEN(0x0000u16, 0x01FFu16), needs_special_handling: false, callback: None })
        } else if offset == 0x014 {
            Some(IORegisterDefinition { mask: BitMask::SIXTEEN(0x0000u16, 0x01FFu16), needs_special_handling: false, callback: None })
        } else if offset == 0x016 {
            Some(IORegisterDefinition { mask: BitMask::SIXTEEN(0x0000u16, 0x01FFu16), needs_special_handling: false, callback: None })
        } else if offset == 0x018 {
            Some(IORegisterDefinition { mask: BitMask::SIXTEEN(0x0000u16, 0x01FFu16), needs_special_handling: false, callback: None })
        } else if offset == 0x01A {
            Some(IORegisterDefinition { mask: BitMask::SIXTEEN(0x0000u16, 0x01FFu16), needs_special_handling: false, callback: None })
        } else if offset == 0x01C {
            Some(IORegisterDefinition { mask: BitMask::SIXTEEN(0x0000u16, 0x01FFu16), needs_special_handling: false, callback: None })
        } else if offset == 0x01E {
            Some(IORegisterDefinition { mask: BitMask::SIXTEEN(0x0000u16, 0x01FFu16), needs_special_handling: false, callback: None })
        } else if offset == 0x020 {
            Some(IORegisterDefinition { mask: BitMask::SIXTEEN(0x0000u16, 0xFFFFu16), needs_special_handling: false, callback: None })
        } else if offset == 0x022 {
            Some(IORegisterDefinition { mask: BitMask::SIXTEEN(0x0000u16, 0xFFFFu16), needs_special_handling: false, callback: None })
        } else if offset == 0x024 {
            Some(IORegisterDefinition { mask: BitMask::SIXTEEN(0x0000u16, 0xFFFFu16), needs_special_handling: false, callback: None })
        } else if offset == 0x026 {
            Some(IORegisterDefinition { mask: BitMask::SIXTEEN(0x0000u16, 0xFFFFu16), needs_special_handling: false, callback: None })
        } else if offset == 0x028 {
            Some(IORegisterDefinition { mask: BitMask::SIXTEEN(0x0000u16, 0xFFFFu16), needs_special_handling: false, callback: None })
        } else if offset == 0x02A {
            Some(IORegisterDefinition { mask: BitMask::SIXTEEN(0x0000u16, 0x0FFFu16), needs_special_handling: false, callback: None })
        } else if offset == 0x02C {
            Some(IORegisterDefinition { mask: BitMask::SIXTEEN(0x0000u16, 0xFFFFu16), needs_special_handling: false, callback: None })
        } else if offset == 0x02E {
            Some(IORegisterDefinition { mask: BitMask::SIXTEEN(0x0000u16, 0x0FFFu16), needs_special_handling: false, callback: None })
        } else if offset == 0x030 {
            Some(IORegisterDefinition { mask: BitMask::SIXTEEN(0x0000u16, 0xFFFFu16), needs_special_handling: false, callback: None })
        } else if offset == 0x032 {
            Some(IORegisterDefinition { mask: BitMask::SIXTEEN(0x0000u16, 0xFFFFu16), needs_special_handling: false, callback: None })
        } else if offset == 0x034 {
            Some(IORegisterDefinition { mask: BitMask::SIXTEEN(0x0000u16, 0xFFFFu16), needs_special_handling: false, callback: None })
        } else if offset == 0x036 {
            Some(IORegisterDefinition { mask: BitMask::SIXTEEN(0x0000u16, 0xFFFFu16), needs_special_handling: false, callback: None })
        } else if offset == 0x038 {
            Some(IORegisterDefinition { mask: BitMask::SIXTEEN(0x0000u16, 0xFFFFu16), needs_special_handling: false, callback: None })
        } else if offset == 0x03A {
            Some(IORegisterDefinition { mask: BitMask::SIXTEEN(0x0000u16, 0x0FFFu16), needs_special_handling: false, callback: None })
        } else if offset == 0x03C {
            Some(IORegisterDefinition { mask: BitMask::SIXTEEN(0x0000u16, 0xFFFFu16), needs_special_handling: false, callback: None })
        } else if offset == 0x03E {
            Some(IORegisterDefinition { mask: BitMask::SIXTEEN(0x0000u16, 0x0FFFu16), needs_special_handling: false, callback: None })
        } else if offset == 0x040 {
            Some(IORegisterDefinition { mask: BitMask::SIXTEEN(0x0000u16, 0xFFFFu16), needs_special_handling: false, callback: None })
        } else if offset == 0x042 {
            Some(IORegisterDefinition { mask: BitMask::SIXTEEN(0x0000u16, 0xFFFFu16), needs_special_handling: false, callback: None })
        } else if offset == 0x044 {
            Some(IORegisterDefinition { mask: BitMask::SIXTEEN(0x0000u16, 0xFFFFu16), needs_special_handling: false, callback: None })
        } else if offset == 0x046 {
            Some(IORegisterDefinition { mask: BitMask::SIXTEEN(0x0000u16, 0xFFFFu16), needs_special_handling: false, callback: None })
        } else if offset == 0x048 {
            Some(IORegisterDefinition { mask: BitMask::SIXTEEN(0x3F3Fu16, 0x3F3Fu16), needs_special_handling: false, callback: None })
        } else if offset == 0x04A {
            Some(IORegisterDefinition { mask: BitMask::SIXTEEN(0x3F3Fu16, 0x3F3Fu16), needs_special_handling: false, callback: None })
        } else if offset == 0x04C {
            Some(IORegisterDefinition { mask: BitMask::SIXTEEN(0xFFFFu16, 0xFFFFu16), needs_special_handling: false, callback: None })
        } else if offset == 0x04E {
            Some(IORegisterDefinition { mask: BitMask::SIXTEEN(0x0000u16, 0x0000u16), needs_special_handling: false, callback: None })
        } else if offset == 0x050 {
            Some(IORegisterDefinition { mask: BitMask::SIXTEEN(0x3FFFu16, 0x3FFFu16), needs_special_handling: false, callback: None })
        } else if offset == 0x052 {
            Some(IORegisterDefinition { mask: BitMask::SIXTEEN(0x3FFFu16, 0x3FFFu16), needs_special_handling: false, callback: None })
        } else if offset == 0x054 {
            Some(IORegisterDefinition { mask: BitMask::SIXTEEN(0x001Fu16, 0x001Fu16), needs_special_handling: false, callback: None })
        } else if offset == 0x056 {
            Some(IORegisterDefinition { mask: BitMask::SIXTEEN(0x0000u16, 0x0000u16), needs_special_handling: false, callback: None })
        } else if offset == 0x058 {
            Some(IORegisterDefinition { mask: BitMask::SIXTEEN(0x0000u16, 0x0000u16), needs_special_handling: false, callback: None })
        } else if offset == 0x05A {
            Some(IORegisterDefinition { mask: BitMask::SIXTEEN(0x0000u16, 0x0000u16), needs_special_handling: false, callback: None })
        } else if offset == 0x05C {
            Some(IORegisterDefinition { mask: BitMask::SIXTEEN(0x0000u16, 0x0000u16), needs_special_handling: false, callback: None })
        } else if offset == 0x05E {
            Some(IORegisterDefinition { mask: BitMask::SIXTEEN(0x0000u16, 0x0000u16), needs_special_handling: false, callback: None })
        } else if offset == 0x088 {
            Some(IORegisterDefinition { mask: BitMask::SIXTEEN(0xC3FEu16, 0xC3FEu16), needs_special_handling: false, callback: None })
        } else if offset == 0x0B0 {
            Some(IORegisterDefinition { mask: BitMask::THIRTYTWO(0u32, 0x07FFFFFFu32), needs_special_handling: false, callback: None })
        } else if offset == 0x0B4 {
            Some(IORegisterDefinition { mask: BitMask::THIRTYTWO(0u32, 0x07FFFFFFu32), needs_special_handling: false, callback: None })
        } else if offset == 0x0B8 {
            Some(IORegisterDefinition { mask: BitMask::SIXTEEN(0u16, 0x3FFFu16), needs_special_handling: false, callback: None })
        } else if offset == 0x0BA {
            Some(IORegisterDefinition { mask: BitMask::SIXTEEN(0xFFFFu16, 0xFFFFu16), needs_special_handling: false, callback: None })
        } else if offset == 0x0BC {
            Some(IORegisterDefinition { mask: BitMask::THIRTYTWO(0u32, 0x07FFFFFFu32), needs_special_handling: false, callback: None })
        } else if offset == 0x0C0 {
            Some(IORegisterDefinition { mask: BitMask::THIRTYTWO(0u32, 0x07FFFFFFu32), needs_special_handling: false, callback: None })
        } else if offset == 0x0C4 {
            Some(IORegisterDefinition { mask: BitMask::SIXTEEN(0u16, 0x3FFFu16), needs_special_handling: false, callback: None })
        } else if offset == 0x0C6 {
            Some(IORegisterDefinition { mask: BitMask::SIXTEEN(0xFFFFu16, 0xFFFFu16), needs_special_handling: false, callback: None })
        } else if offset == 0x0C8 {
            Some(IORegisterDefinition { mask: BitMask::THIRTYTWO(0u32, 0x07FFFFFFu32), needs_special_handling: false, callback: None })
        } else if offset == 0x0CC {
            Some(IORegisterDefinition { mask: BitMask::THIRTYTWO(0u32, 0x07FFFFFFu32), needs_special_handling: false, callback: None })
        } else if offset == 0x0D0 {
            Some(IORegisterDefinition { mask: BitMask::SIXTEEN(0u16, 0x3FFFu16), needs_special_handling: false, callback: None })
        } else if offset == 0x0D2 {
            Some(IORegisterDefinition { mask: BitMask::SIXTEEN(0xFFFFu16, 0xFFFFu16), needs_special_handling: false, callback: None })
        } else if offset == 0x0D4 {
            Some(IORegisterDefinition { mask: BitMask::THIRTYTWO(0u32, 0x0FFFFFFFu32), needs_special_handling: false, callback: None })
        } else if offset == 0x0D8 {
            Some(IORegisterDefinition { mask: BitMask::THIRTYTWO(0u32, 0x0FFFFFFFu32), needs_special_handling: false, callback: None })
        } else if offset == 0x0DC {
            Some(IORegisterDefinition { mask: BitMask::SIXTEEN(0u16, 0xFFFFu16), needs_special_handling: false, callback: None })
        } else if offset == 0x0DE {
            Some(IORegisterDefinition { mask: BitMask::SIXTEEN(0xFFFFu16, 0xFFFFu16), needs_special_handling: false, callback: None })
        } else if offset == 0x0E0 {
            Some(IORegisterDefinition { mask: BitMask::SIXTEEN(0x0000u16, 0x0000u16), needs_special_handling: false, callback: None })
        } else if offset == 0x0E2 {
            Some(IORegisterDefinition { mask: BitMask::SIXTEEN(0x0000u16, 0x0000u16), needs_special_handling: false, callback: None })
        } else if offset == 0x0E4 {
            Some(IORegisterDefinition { mask: BitMask::SIXTEEN(0x0000u16, 0x0000u16), needs_special_handling: false, callback: None })
        } else if offset == 0x0E6 {
            Some(IORegisterDefinition { mask: BitMask::SIXTEEN(0x0000u16, 0x0000u16), needs_special_handling: false, callback: None })
        } else if offset == 0x0E8 {
            Some(IORegisterDefinition { mask: BitMask::SIXTEEN(0x0000u16, 0x0000u16), needs_special_handling: false, callback: None })
        } else if offset == 0x0EA {
            Some(IORegisterDefinition { mask: BitMask::SIXTEEN(0x0000u16, 0x0000u16), needs_special_handling: false, callback: None })
        } else if offset == 0x0EC {
            Some(IORegisterDefinition { mask: BitMask::SIXTEEN(0x0000u16, 0x0000u16), needs_special_handling: false, callback: None })
        } else if offset == 0x0EE {
            Some(IORegisterDefinition { mask: BitMask::SIXTEEN(0x0000u16, 0x0000u16), needs_special_handling: false, callback: None })
        } else if offset == 0x0F0 {
            Some(IORegisterDefinition { mask: BitMask::SIXTEEN(0x0000u16, 0x0000u16), needs_special_handling: false, callback: None })
        } else if offset == 0x0F2 {
            Some(IORegisterDefinition { mask: BitMask::SIXTEEN(0x0000u16, 0x0000u16), needs_special_handling: false, callback: None })
        } else if offset == 0x0F4 {
            Some(IORegisterDefinition { mask: BitMask::SIXTEEN(0x0000u16, 0x0000u16), needs_special_handling: false, callback: None })
        } else if offset == 0x0F6 {
            Some(IORegisterDefinition { mask: BitMask::SIXTEEN(0x0000u16, 0x0000u16), needs_special_handling: false, callback: None })
        } else if offset == 0x0F8 {
            Some(IORegisterDefinition { mask: BitMask::SIXTEEN(0x0000u16, 0x0000u16), needs_special_handling: false, callback: None })
        } else if offset == 0x0FA {
            Some(IORegisterDefinition { mask: BitMask::SIXTEEN(0x0000u16, 0x0000u16), needs_special_handling: false, callback: None })
        } else if offset == 0x0FC {
            Some(IORegisterDefinition { mask: BitMask::SIXTEEN(0x0000u16, 0x0000u16), needs_special_handling: false, callback: None })
        } else if offset == 0x0FE {
            Some(IORegisterDefinition { mask: BitMask::SIXTEEN(0x0000u16, 0x0000u16), needs_special_handling: false, callback: None })
        } else if offset == 0x100 {
            Some(IORegisterDefinition { mask: BitMask::SIXTEEN(0xFFFFu16, 0xFFFFu16), needs_special_handling: true, callback: None })
        } else if offset == 0x102 {
            Some(IORegisterDefinition { mask: BitMask::SIXTEEN(0x00FBu16, 0x00FBu16), needs_special_handling: true, callback: None })
        } else if offset == 0x104 {
            Some(IORegisterDefinition { mask: BitMask::SIXTEEN(0xFFFFu16, 0xFFFFu16), needs_special_handling: true, callback: None })
        } else if offset == 0x106 {
            Some(IORegisterDefinition { mask: BitMask::SIXTEEN(0x00FFu16, 0x00FFu16), needs_special_handling: true, callback: None })
        } else if offset == 0x108 {
            Some(IORegisterDefinition { mask: BitMask::SIXTEEN(0xFFFFu16, 0xFFFFu16), needs_special_handling: true, callback: None })
        } else if offset == 0x10A {
            Some(IORegisterDefinition { mask: BitMask::SIXTEEN(0x00FFu16, 0x00FFu16), needs_special_handling: true, callback: None })
        } else if offset == 0x10C {
            Some(IORegisterDefinition { mask: BitMask::SIXTEEN(0xFFFFu16, 0xFFFFu16), needs_special_handling: true, callback: None })
        } else if offset == 0x10E {
            Some(IORegisterDefinition { mask: BitMask::SIXTEEN(0x00FFu16, 0x00FFu16), needs_special_handling: true, callback: None })
        } else if offset == 0x110 {
            Some(IORegisterDefinition { mask: BitMask::SIXTEEN(0x0000u16, 0x0000u16), needs_special_handling: false, callback: None })
        } else if offset == 0x112 {
            Some(IORegisterDefinition { mask: BitMask::SIXTEEN(0x0000u16, 0x0000u16), needs_special_handling: false, callback: None })
        } else if offset == 0x114 {
            Some(IORegisterDefinition { mask: BitMask::SIXTEEN(0x0000u16, 0x0000u16), needs_special_handling: false, callback: None })
        } else if offset == 0x130 {
            Some(IORegisterDefinition { mask: BitMask::SIXTEEN(0x03FFu16, 0x0000u16), needs_special_handling: true, callback: None })
        } else if offset == 0x132 {
            Some(IORegisterDefinition { mask: BitMask::SIXTEEN(0xFFFFu16, 0xFFFFu16), needs_special_handling: false, callback: None })
        } else if offset == 0x200 {
            Some(IORegisterDefinition { mask: BitMask::SIXTEEN(0x3FFFu16, 0x3FFFu16), needs_special_handling: false, callback: None })
        } else if offset == 0x202 {
            Some(IORegisterDefinition { mask: BitMask::SIXTEEN(0x3FFFu16, 0x3FFFu16), needs_special_handling: true, callback: Some(IOCallback::CheckInterrupts) })
        } else if offset == 0x204 {
            Some(IORegisterDefinition { mask: BitMask::SIXTEEN(0xDFFFu16, 0xDFFFu16), needs_special_handling: false, callback: None })
        } else if offset == 0x206 {
            Some(IORegisterDefinition { mask: BitMask::SIXTEEN(0x0000u16, 0x0000u16), needs_special_handling: false, callback: None })
        } else if offset == 0x208 {
            Some(IORegisterDefinition { mask: BitMask::SIXTEEN(0x0001u16, 0x0001u16), needs_special_handling: false, callback: Some(IOCallback::CheckInterrupts) })
        } else if offset == 0x20A {
            Some(IORegisterDefinition { mask: BitMask::SIXTEEN(0x0000u16, 0x0000u16), needs_special_handling: false, callback: None })
        } else if offset == 0x20C {
            Some(IORegisterDefinition { mask: BitMask::SIXTEEN(0x0000u16, 0x0000u16), needs_special_handling: false, callback: None })
        } else if offset == 0x20E {
            Some(IORegisterDefinition { mask: BitMask::SIXTEEN(0x0000u16, 0x0000u16), needs_special_handling: false, callback: None })
        } else if offset == 0x210 {
            Some(IORegisterDefinition { mask: BitMask::SIXTEEN(0x0000u16, 0x0000u16), needs_special_handling: false, callback: None })
        } else if offset == 0x212 {
            Some(IORegisterDefinition { mask: BitMask::SIXTEEN(0x0000u16, 0x0000u16), needs_special_handling: false, callback: None })
        } else if offset == 0x214 {
            Some(IORegisterDefinition { mask: BitMask::SIXTEEN(0x0000u16, 0x0000u16), needs_special_handling: false, callback: None })
        } else if offset == 0x216 {
            Some(IORegisterDefinition { mask: BitMask::SIXTEEN(0x0000u16, 0x0000u16), needs_special_handling: false, callback: None })
        } else if offset == 0x218 {
            Some(IORegisterDefinition { mask: BitMask::SIXTEEN(0x0000u16, 0x0000u16), needs_special_handling: false, callback: None })
        } else if offset == 0x21A {
            Some(IORegisterDefinition { mask: BitMask::SIXTEEN(0x0000u16, 0x0000u16), needs_special_handling: false, callback: None })
        } else if offset == 0x21C {
            Some(IORegisterDefinition { mask: BitMask::SIXTEEN(0x0000u16, 0x0000u16), needs_special_handling: false, callback: None })
        } else if offset == 0x21E {
            Some(IORegisterDefinition { mask: BitMask::SIXTEEN(0x0000u16, 0x0000u16), needs_special_handling: false, callback: None })
        } else if offset == 0x300 {
            Some(IORegisterDefinition { mask: BitMask::EIGHT(0x01u8, 0x01u8), needs_special_handling: false, callback: None })
        } else if offset == 0x301 {
            Some(IORegisterDefinition { mask: BitMask::EIGHT(0x80u8, 0x80u8), needs_special_handling: false, callback: Some(IOCallback::Halt) })
        } else if offset == 0x410 {
            Some(IORegisterDefinition { mask: BitMask::EIGHT(0x00u8, 0xFFu8), needs_special_handling: false, callback: None })
        } else {
            None
        }
    }

    fn io_def_at(offset: usize) -> (r: Option<IORegisterDefinition>)
        ensures
            r == io_def(offset),
    {
        match Self::io_table_entry(offset) {
            Some(d) => Some(d),
            None => Self::io_table_entry(offset & 0xFFE),
        }
    }

    fn def_fits(offset: usize) -> (r: bool)
        ensures
            r == def_ok(offset),
    {
        if offset >= IO_TABLE_SIZE {
            return false;
        }
        match Self::io_def_at(offset) {
            Some(d) => match d.mask {
                BitMask::EIGHT(_, _) => {
                    if offset + 1 >= IO_TABLE_SIZE {
                        false
                    } else {
                        match Self::io_def_at(offset + 1) {
                            Some(next) => match next.mask {
                                BitMask::EIGHT(_, _) => true,
                                _ => false,
                            },
                            None => true,
                        }
                    }
                },
                _ => true,
            },
            None => true,
        }
    }

    fn special_offset(offset: usize) -> (r: bool)
        ensures
            r == is_special(offset),
    {
        offset == IF || offset == KEYINPUT || offset == TM0CNT_L || offset == TM1CNT_L || offset == TM2CNT_L
            || offset == TM3CNT_L || offset == TM0CNT_H || offset == TM1CNT_H || offset == TM2CNT_H || offset
            == TM3CNT_H
    }

    fn load_fits(offset: usize) -> (r: bool)
        ensures
            r == load_ok(offset),
    {
        if !Self::def_fits(offset) {
            return false;
        }
        match Self::io_def_at(offset) {
            Some(d) => !d.needs_special_handling || Self::special_offset(offset),
            None => true,
        }
    }

    /// Whether an access of `size` bytes (1, 2 or 4) to the registers at
    /// `offset` can be served, reading or writing.
    pub fn io_access_allowed(offset: usize, size: usize) -> (r: bool)
        ensures
            r == io_access_ok(offset, size),
    {
        if size == 1 {
            Self::load_fits(offset & 0xFFE) && Self::def_fits(offset & 0xFFF)
        } else if size == 2 {
            Self::load_fits(offset & 0xFFE) && Self::def_fits(offset & 0xFFE)
        } else {
            let aligned = offset & 0xFFC;
            proof {
                crate::bits::lemma_offset_bits(offset);
            }
            let halves = Self::load_fits(aligned) && Self::load_fits(aligned + 2) && Self::def_fits(aligned)
                && Self::def_fits(aligned + 2);
            let word = match Self::io_def_at(aligned) {
                Some(d) => match d.mask {
                    BitMask::THIRTYTWO(_, _) => !d.needs_special_handling,
                    _ => true,
                },
                None => true,
            };
            halves && word
        }
    }

    /// The definition that governs `offset`: the register starting there,
    /// else the one starting at the even offset below.
    pub fn get_io_definition(offset: usize) -> (r: Result<IORegisterDefinition, MemoryError>)
        requires
            offset < IO_TABLE_SIZE,
        ensures
            r == match io_def(offset) {
                Some(d) => Ok::<IORegisterDefinition, MemoryError>(d),
                None => Err(MemoryError::NoIODefinition(offset)),
            },
    {
        if let Some(io_definition) = Self::io_table_entry(offset) {
            return Ok(io_definition);
        }
        if let Some(io_definition) = Self::io_table_entry(offset & 0xFFE) {
            return Ok(io_definition);
        }
        Err(MemoryError::NoIODefinition(offset))
    }

    /// The half-word mask of a register at `offset`; a byte register takes
    /// the byte register after it, if any, as its high byte.
    fn io_half_mask(mask: BitMask, offset: usize, read: bool) -> (r: u16)
        requires
            def_ok(offset),
            io_def(offset) matches Some(d) && d.mask == mask,
        ensures
            r == half_mask(mask, offset, read),
    {
        match mask {
            BitMask::EIGHT(r_mask, w_mask) => {
                let upper = match Self::get_io_definition(offset + 1) {
                    Ok(def) => match def.mask {
                        BitMask::EIGHT(r_upper, w_upper) => if read {
                            r_upper
                        } else {
                            w_upper
                        },
                        _ => 0,
                    },
                    Err(_) => 0,
                };
                let lower = if read {
                    r_mask
                } else {
                    w_mask
                };
                ((upper as u16) << 8u16) | (lower as u16)
            },
            BitMask::SIXTEEN(r_mask, w_mask) => if read {
                r_mask
            } else {
                w_mask
            },
            BitMask::THIRTYTWO(r_mask, w_mask) => {
                let m = if read {
                    r_mask
                } else {
                    w_mask
                };
                let shift = (8 * offset) & 0b10;
                proof {
                    crate::bits::lemma_offset_bits((8 * offset) as usize);
                }
                (m >> (shift as u32)) as u16
            },
        }
    }

    /// Reads the half word of the register at the even offset `address`:
    /// the stored value under the read mask, a timer's counter for a timer
    /// counter register, 0 where no register is.
    pub fn masked_io_load(&self, address: usize) -> (r: Result<u16, MemoryError>)
        requires
            load_ok(address),
        ensures
            r == Ok::<u16, MemoryError>(masked_load(self@, address)),
    {
        let def = match Self::get_io_definition(address) {
            Ok(def) => def,
            Err(_) => return Ok(0),
        };
        if def.needs_special_handling {
            if address == TM0CNT_L || address == TM1CNT_L || address == TM2CNT_L || address == TM3CNT_L {
                proof {
                    crate::bits::lemma_offset_bits(address);
                }
                let timer = (address & 0xF) / 4;
                return Ok(self.timers.read_timer(timer) as u16);
            }
        }
        let data = self.io_load(address);
        Ok(data & Self::io_half_mask(def.mask, address, true))
    }

    /// Reads a byte of the registers.
    pub fn io_readu8(&self, address: usize) -> (r: Result<u8, MemoryError>)
        requires
            load_ok(address & 0xFFEusize),
        ensures
            r == Ok::<u8, MemoryError>(io_load8(self@, address)),
    {
        let load_value = self.masked_io_load(address & 0xFFE)?;
        proof {
            crate::bits::lemma_offset_bits(address);
        }
        Ok((load_value >> ((8 * (address & 0b1)) as u16)) as u8)
    }

    /// Reads the half word of the registers that holds `address`.
    pub fn io_readu16(&self, address: usize) -> (r: Result<u16, MemoryError>)
        requires
            load_ok(address & 0xFFEusize),
        ensures
            r == Ok::<u16, MemoryError>(io_load16(self@, address)),
    {
        Ok(self.masked_io_load(address & 0xFFE)?)
    }

    /// Reads the word of the registers that holds `address`, low half word
    /// first.
    pub fn io_readu32(&self, address: usize) -> (r: Result<u32, MemoryError>)
        requires
            load_ok(address & 0xFFCusize),
            load_ok(((address & 0xFFCusize) + 2) as usize),
        ensures
            r == Ok::<u32, MemoryError>(io_load32(self@, address)),
    {
        let word_aligned_offset = address & 0xFFC;
        proof {
            crate::bits::lemma_offset_bits(address);
        }
        let lower = match self.masked_io_load(word_aligned_offset) {
            Ok(v) => v,
            Err(_) => 0,
        } as u32;
        let upper = match self.masked_io_load(word_aligned_offset + 2) {
            Ok(v) => v,
            Err(_) => 0,
        } as u32;
        Ok((upper << 16u32) | lower)
    }
}

/// The registers after a privileged write of `value` at `address`: the
/// half word is stored unmasked and the register's callback runs.
pub open spec fn spec_ppu_io_write(v: MemoryView, address: usize, value: u16) -> MemoryView {
    let offset = address & 0xFFFusize;
    let old_value = v.1[(offset >> 1) as int];
    let stored = with_io(v, offset, value);
    match io_def(offset) {
        Some(d) => run_callback(d.callback, stored, old_value, value),
        None => stored,
    }
}

impl GBAMemory {
    /// After a change of IME or IF: when interrupts are enabled and a
    /// requested interrupt is enabled, tells the CPU to take it.
    pub fn check_interrupts(&mut self, _old_value: u16, _value: u16)
        ensures
            final(self)@ == spec_check_interrupts(old(self)@),
    {
        if self.io_load(IME) == 0 {
            return;
        }
        if self.io_load(IF) & self.io_load(IE) > 0 {
            self.cpu_commands.push(CPUCallbacks::RaiseIrq);
        }
    }

    /// After a write of DISPSTAT: requests in IF the interrupts of the blank
    /// and counter flags that turned on while enabled, then checks the
    /// interrupts.
    pub fn dispstat_callback(&mut self, old_value: u16, value: u16)
        ensures
            final(self)@ == spec_dispstat_callback(old(self)@, old_value, value),
    {
        let triggered_flags = (!old_value & value) & 0x7;
        if triggered_flags == 0 {
            return;
        }
        let toggled_interrupts = (value >> 3u16) & 0x7;
        let available_interrupts = triggered_flags & toggled_interrupts;
        let mut current_if = self.io_load(IF);
        current_if = current_if & !0x7u16;
        current_if = current_if | available_interrupts;
        self.io_store(IF, current_if);
        self.check_interrupts(old_value, value);
    }

    /// After a write of HALTCNT: bit 15 stops the CPU, otherwise it halts.
    pub fn halt(&mut self, _old_value: u16, value: u16)
        ensures
            final(self)@ == spec_halt(old(self)@, value),
    {
        if value & 0x8000 > 0 {
            self.cpu_commands.push(CPUCallbacks::Stop);
            return;
        }
        self.cpu_commands.push(CPUCallbacks::Halt);
    }

    fn run_io_callback(&mut self, callback: Option<IOCallback>, old_value: u16, value: u16)
        ensures
            final(self)@ == run_callback(callback, old(self)@, old_value, value),
    {
        match callback {
            None => {},
            Some(IOCallback::Dispstat) => self.dispstat_callback(old_value, value),
            Some(IOCallback::CheckInterrupts) => self.check_interrupts(old_value, value),
            Some(IOCallback::Halt) => self.halt(old_value, value),
        }
    }

    /// Stores `value` into the register at `address` as `masked_store`
    /// says; a special register written at an offset that is not its own
    /// refuses the write.
    pub fn masked_io_store(&mut self, address: usize, value: u16) -> (r: Result<(), MemoryError>)
        requires
            store_ok(address),
        ensures
            final(self)@ == masked_store(old(self)@, address, value).0,
            r is Ok == masked_store(old(self)@, address, value).1,
            r is Err ==> r == Err::<(), MemoryError>(MemoryError::NoIODefinition(address)),
    {
        let mut value = value;
        let def = match Self::get_io_definition(address) {
            Ok(def) => def,
            Err(_) => return Ok(()),
        };
        if def.needs_special_handling {
            if address == IF {
                value = self.io_load(address) & !value;
            } else if address == KEYINPUT {
                return Ok(());
            } else if address == TM0CNT_L || address == TM1CNT_L || address == TM2CNT_L || address == TM3CNT_L {
            } else if address == TM0CNT_H || address == TM1CNT_H || address == TM2CNT_H || address == TM3CNT_H {
                let old_value = self.io_load(address);
                let timer_enabled = !old_value & value;
                proof {
                    crate::bits::lemma_offset_bits((address - 0x2) as usize);
                }
                let timer_num = ((address - 0x2) & 0xF) / 4;
                if (timer_enabled >> 7u16) & 1 == 1 {
                    let reload = self.io_load(address - 0x2) as u32;
                    self.timers.set_reload_value(timer_num, reload);
                    self.timers.reload_timer(timer_num);
                    assert(self.timers.0@ =~= old(self).timers.0@.update(
                        timer_of_control(address),
                        timer_restarted(old(self).timers.0@[timer_of_control(address)], reload),
                    ));
                }
            } else {
                return Err(MemoryError::NoIODefinition(address));
            }
        }
        let store_value = value & Self::io_half_mask(def.mask, address, false);
        let old_value = self.io_load(address);
        self.io_store(address, store_value);
        self.run_io_callback(def.callback, old_value, store_value);
        Ok(())
    }

    /// Writes a byte of the registers: it is merged into its half word,
    /// keeping the other byte, and stored at the byte's own offset.
    pub fn io_writeu8(&mut self, address: usize, value: u8) -> (r: Result<(), MemoryError>)
        requires
            store_ok(address & 0xFFFusize),
        ensures
            final(self)@ == io_store8(old(self)@, address, value),
            r is Ok == masked_store(
                old(self)@,
                address & 0xFFFusize,
                crate::memory::memory::io_byte_merged(view_io(old(self)@, address & 0xFFEusize), address, value),
            ).1,
    {
        let current_value = self.io_load(address & 0xFFE);
        let merged = if address & 1 == 0 {
            (current_value & 0xFF00) | (value as u16)
        } else {
            (current_value & 0x00FF) | ((value as u16) << 8u16)
        };
        self.masked_io_store(address & 0xFFF, merged)
    }

    /// Writes the half word of the registers that holds `address`.
    pub fn io_writeu16(&mut self, address: usize, value: u16) -> (r: Result<(), MemoryError>)
        requires
            store_ok(address & 0xFFEusize),
        ensures
            final(self)@ == io_store16(old(self)@, address, value),
            r is Ok == masked_store(old(self)@, address & 0xFFEusize, value).1,
    {
        self.masked_io_store(address & 0xFFE, value)
    }

    /// Writes the word of the registers that holds `address`, as
    /// `io_store32` says.
    pub fn io_writeu32(&mut self, address: usize, value: u32) -> (r: Result<(), MemoryError>)
        requires
            io_access_ok(address, 4),
        ensures
            final(self)@ == io_store32(old(self)@, address, value),
            r is Ok == io_store32_accepted(old(self)@, address, value),
    {
        let offset = address & 0xFFC;
        proof {
            crate::bits::lemma_offset_bits(address);
        }
        let io_definition = match Self::get_io_definition(offset) {
            Ok(def) => def,
            Err(_) => return Ok(()),
        };
        match io_definition.mask {
            BitMask::THIRTYTWO(_, mask) => {
                let store_value = mask & value;
                self.io_store(offset, (store_value >> 16u32) as u16);
                self.io_store(offset, (store_value & 0xFFFF) as u16);
            },
            _ => {
                self.io_writeu16(offset + 2, (value >> 16u32) as u16)?;
                self.io_writeu16(offset, (value & 0xFFFF) as u16)?;
                return Ok(());
            },
        };
        Ok(())
    }

    /// Stores `value` unmasked into the register at `address` and runs its
    /// callback, as the picture unit and the timers do.
    pub fn ppu_io_write(&mut self, address: usize, value: u16)
        requires
            ((address & 0xFFFusize) >> 1) < old(self).ioram@.len(),
            (address & 0xFFFusize) < IO_TABLE_SIZE,
        ensures
            final(self)@ == spec_ppu_io_write(old(self)@, address, value),
    {
        let index = (address & 0xFFF) >> 1;
        let old_value = self.ioram[index];
        self.ioram.set(index, value);
        let def = match Self::get_io_definition(address & 0xFFF) {
            Ok(def) => def,
            Err(_) => return,
        };
        self.run_io_callback(def.callback, old_value, value);
    }
}

/// A privileged write keeps the number of register half words.
pub proof fn lemma_ppu_io_write_keeps_len(v: MemoryView, address: usize, value: u16)
    ensures
        spec_ppu_io_write(v, address, value).1.len() == v.1.len(),
{
}

/// The offsets of the registers that the laws below speak of are their own
/// half-word offsets.
proof fn lemma_register_offsets()
    by (bit_vector)
    ensures
        IF & 0xFFEusize == IF,
        KEYINPUT & 0xFFEusize == KEYINPUT,
{
}

/// The control and counter registers of timer `n` are their own half-word
/// offsets, and name timer `n`.
proof fn lemma_timer_offsets(n: usize, control: usize, counter: usize)
    by (bit_vector)
    requires
        n < 4,
        control == 0x102 + 4 * n,
        counter == 0x100 + 4 * n,
    ensures
        control & 0xFFEusize == control,
        counter & 0xFFEusize == counter,
        ((control - 2) as usize & 0xFusize) / 4 == n,
        (counter & 0xFusize) / 4 == n,
{
}

/// Writing ones to IF acknowledges those interrupt requests: each bit set
/// in the written value is cleared and the others stay, within the bits
/// that IF has.
pub proof fn lemma_if_acknowledge(v: MemoryView, value: u16)
    requires
        (IF >> 1) < v.1.len(),
    ensures
        view_io(io_store16(v, IF, value), IF) == (view_io(v, IF) & !value) & 0x3FFFu16,
{
    reveal(io_table);
    lemma_register_offsets();
}

/// KEYINPUT reflects the keypad and ignores writes.
pub proof fn lemma_keyinput_read_only(v: MemoryView, value: u16)
    ensures
        io_store16(v, KEYINPUT, value) == v,
{
    reveal(io_table);
    lemma_register_offsets();
}

/// A half word written to a plain register (one with 16-bit masks, no
/// special handling and no callback) reads back as the value under its
/// write mask and then its read mask.
pub proof fn lemma_plain_register_read_back(v: MemoryView, offset: usize, value: u16, read_mask: u16, write_mask: u16)
    requires
        offset & 0xFFEusize == offset,
        (offset >> 1) < v.1.len(),
        io_def(offset) == Some(
            IORegisterDefinition {
                mask: BitMask::SIXTEEN(read_mask, write_mask),
                needs_special_handling: false,
                callback: None,
            },
        ),
    ensures
        io_load16(io_store16(v, offset, value), offset) == (value & write_mask) & read_mask,
{
}

/// Turning a timer's enable bit on restarts the timer from its counter
/// register: a read of that register then gives the value last stored
/// there.
pub proof fn lemma_timer_enable_reloads(v: MemoryView, n: usize, value: u16)
    requires
        n < 4,
        v.3.len() == 4,
        (0x10Eusize >> 1) < v.1.len(),
        (value >> 7u16) & 1u16 == 1,
        (view_io(v, (0x102 + 4 * n) as usize) >> 7u16) & 1u16 == 0,
    ensures
        io_load16(io_store16(v, (0x102 + 4 * n) as usize, value), (0x100 + 4 * n) as usize) == view_io(
            v,
            (0x100 + 4 * n) as usize,
        ),
{
    reveal(io_table);
    lemma_register_offsets();
    let control = (0x102 + 4 * n) as usize;
    let counter = (0x100 + 4 * n) as usize;
    let c = view_io(v, control);
    assert((!c & value) >> 7u16 & 1u16 == 1u16) by (bit_vector)
        requires
            (value >> 7u16) & 1u16 == 1,
            (c >> 7u16) & 1u16 == 0,
    ;
    lemma_timer_offsets(n, control, counter);
    assert(timer_of_control(control) == n && timer_of_counter(counter) == n);
    assert(control - 2 == counter);
    let enabled = spec_timer_enable(v, control, value);
    assert(enabled.3[n as int].counter == view_io(v, counter) as u32);
    let stored = masked_store(v, control, value).0;
    assert(stored.3 == enabled.3);
}

} // verus!
