use vstd::prelude::*;

use crate::bits::{bit_is_set16, bit_of16};

verus! {

/// The display control register, read through a reference.
pub struct Dispcnt<'a>(pub &'a u16);

impl<'a> Dispcnt<'a> {
    /// The background mode, bits 0-2.
    pub fn get_bg_mode(&self) -> (r: u16)
        ensures
            r == *self.0 & 0b111u16,
    {
        *self.0 & 0b111
    }

    pub fn display_frame_select(&self) -> (r: bool)
        ensures
            r == bit_of16(*self.0, 4),
    {
        bit_is_set16(*self.0, 4)
    }

    pub fn h_blank_interval_free(&self) -> (r: bool)
        ensures
            r == bit_of16(*self.0, 5),
    {
        bit_is_set16(*self.0, 5)
    }

    pub fn one_dimensional_character_mapping(&self) -> (r: bool)
        ensures
            r == bit_of16(*self.0, 6),
    {
        bit_is_set16(*self.0, 6)
    }

    pub fn forced_blank(&self) -> (r: bool)
        ensures
            r == bit_of16(*self.0, 7),
    {
        bit_is_set16(*self.0, 7)
    }
}

} // verus!
