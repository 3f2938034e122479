use vstd::prelude::*;

use crate::bits::{bit_is_set16, bit_of16, get_bit16};

verus! {

pub const MAP_SIZE_BYTES: usize = 0x800;
pub const TILE_DATA_SIZE_BYTES: usize = 0x4000;

/// A background control register.
#[derive(Clone, Copy)]
pub struct BGCnt(pub u16);

impl BGCnt {
    pub fn priority(&self) -> (r: u16)
        ensures
            r == self.0 & 0b11u16,
    {
        self.0 & 0b11
    }

    /// The character base block, bits 2-3.
    pub fn tile_data_base(&self) -> (r: usize)
        ensures
            r == ((self.0 >> 2u16) & 0b11u16) as usize,
    {
        ((self.0 >> 2u16) & 0b11u16) as usize
    }

    pub fn mosaic(&self) -> (r: bool)
        ensures
            r == bit_of16(self.0, 6),
    {
        bit_is_set16(self.0, 6)
    }

    /// Bit 7: 16 palettes of 16 colours (0) or one palette of 256 (1).
    pub fn color_pallete(&self) -> (r: usize)
        ensures
            r == ((self.0 >> 7u16) & 1u16) as usize,
    {
        get_bit16(self.0, 7) as usize
    }

    /// The screen base block's size class, bits 14-15.
    pub fn map_data_base(&self) -> (r: usize)
        ensures
            r == ((self.0 >> 14u16) & 0b11u16) as usize,
    {
        ((self.0 >> 14u16) & 0b11u16) as usize
    }
}

} // verus!
