use vstd::prelude::*;

use crate::bits::{bit_is_set16, bit_of16};

verus! {

/// The smaller of a field and 16: blend coefficients saturate at 16/16.
pub open spec fn coefficient(v: u16) -> u16 {
    if v < 16 { v } else { 16 }
}

/// The colour special effects selection register.
pub struct BldCnt<'a>(pub &'a u16);

/// The alpha blending coefficients register.
pub struct BldAlpha(pub u16);

/// The brightness coefficient register.
pub struct BldY<'a>(pub &'a u16);

/// The colour special effect selected by bits 6-7 of BLDCNT.
#[derive(Debug, Clone, Copy, PartialEq, Eq, Structural)]
pub enum BlendMode {
    BldOff,
    BldAlpha,
    BldWhite,
    BldBlack,
}

impl BldAlpha {
    /// The first target's coefficient, bits 0-4, at most 16.
    pub fn eva(&self) -> (r: u16)
        ensures
            r == coefficient(self.0 & 0x1Fu16),
    {
        let v = self.0 & 0x1F;
        if v < 16 { v } else { 16 }
    }

    /// The second target's coefficient, bits 8-12, at most 16.
    pub fn evb(&self) -> (r: u16)
        ensures
            r == coefficient((self.0 >> 8u16) & 0x1Fu16),
    {
        let v = (self.0 >> 8u16) & 0x1F;
        if v < 16 { v } else { 16 }
    }
}

impl<'a> BldCnt<'a> {
    pub fn bld_mode(&self) -> (r: BlendMode)
        ensures
            r == match (*self.0 >> 5u16) & 0x3u16 {
                0 => BlendMode::BldOff,
                1 => BlendMode::BldAlpha,
                2 => BlendMode::BldWhite,
                _ => BlendMode::BldBlack,
            },
    {
        let v = (*self.0 >> 5u16) & 0x3u16;
        if v == 0 {
            BlendMode::BldOff
        } else if v == 1 {
            BlendMode::BldAlpha
        } else if v == 2 {
            BlendMode::BldWhite
        } else {
            BlendMode::BldBlack
        }
    }

    pub fn target_a_bg0_enabled(&self) -> (r: bool)
        ensures
            r == bit_of16(*self.0, 0),
    {
        bit_is_set16(*self.0, 0)
    }

    pub fn target_a_bg1_enabled(&self) -> (r: bool)
        ensures
            r == bit_of16(*self.0, 1),
    {
        bit_is_set16(*self.0, 1)
    }

    pub fn target_a_bg2_enabled(&self) -> (r: bool)
        ensures
            r == bit_of16(*self.0, 2),
    {
        bit_is_set16(*self.0, 2)
    }

    pub fn target_a_bg3_enabled(&self) -> (r: bool)
        ensures
            r == bit_of16(*self.0, 3),
    {
        bit_is_set16(*self.0, 3)
    }

    pub fn target_a_obj_enabled(&self) -> (r: bool)
        ensures
            r == bit_of16(*self.0, 4),
    {
        bit_is_set16(*self.0, 4)
    }

    pub fn target_a_bd_enabled(&self) -> (r: bool)
        ensures
            r == bit_of16(*self.0, 5),
    {
        bit_is_set16(*self.0, 5)
    }

    pub fn target_b_bg0_enabled(&self) -> (r: bool)
        ensures
            r == bit_of16(*self.0, 8),
    {
        bit_is_set16(*self.0, 8)
    }

    pub fn target_b_bg1_enabled(&self) -> (r: bool)
        ensures
            r == bit_of16(*self.0, 9),
    {
        bit_is_set16(*self.0, 9)
    }

    pub fn target_b_bg2_enabled(&self) -> (r: bool)
        ensures
            r == bit_of16(*self.0, 10),
    {
        bit_is_set16(*self.0, 10)
    }

    pub fn target_b_bg3_enabled(&self) -> (r: bool)
        ensures
            r == bit_of16(*self.0, 11),
    {
        bit_is_set16(*self.0, 11)
    }

    pub fn target_b_obj_enabled(&self) -> (r: bool)
        ensures
            r == bit_of16(*self.0, 12),
    {
        bit_is_set16(*self.0, 12)
    }

    pub fn target_b_bd_enabled(&self) -> (r: bool)
        ensures
            r == bit_of16(*self.0, 13),
    {
        bit_is_set16(*self.0, 13)
    }
}

impl<'a> BldY<'a> {
    /// The brightness coefficient, bits 0-4, at most 16.
    pub fn evy_coefficient(&self) -> (r: u16)
        ensures
            r == coefficient(*self.0 & 0x1Fu16),
    {
        let v = *self.0 & 0x1F;
        if v < 16 { v } else { 16 }
    }
}

} // verus!
