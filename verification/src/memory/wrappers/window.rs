use vstd::prelude::*;

use crate::bits::{bit_is_set16, bit_of16};

verus! {

/// The inside-of-window control register.
pub struct WININ(pub u16);

impl WININ {
    pub fn window_0_bg0_enabled(&self) -> (r: bool)
        ensures
            r == bit_of16(self.0, 0),
    {
        bit_is_set16(self.0, 0)
    }

    pub fn window_0_bg1_enabled(&self) -> (r: bool)
        ensures
            r == bit_of16(self.0, 1),
    {
        bit_is_set16(self.0, 1)
    }

    pub fn window_0_bg2_enabled(&self) -> (r: bool)
        ensures
            r == bit_of16(self.0, 2),
    {
        bit_is_set16(self.0, 2)
    }

    pub fn window_0_bg3_enabled(&self) -> (r: bool)
        ensures
            r == bit_of16(self.0, 3),
    {
        bit_is_set16(self.0, 3)
    }

    pub fn window_0_obj_enabled(&self) -> (r: bool)
        ensures
            r == bit_of16(self.0, 4),
    {
        bit_is_set16(self.0, 4)
    }

    pub fn window_0_color_special_effects_enabled(&self) -> (r: bool)
        ensures
            r == bit_of16(self.0, 5),
    {
        bit_is_set16(self.0, 5)
    }

    pub fn window_1_bg0_enabled(&self) -> (r: bool)
        ensures
            r == bit_of16(self.0, 8),
    {
        bit_is_set16(self.0, 8)
    }

    pub fn window_1_bg1_enabled(&self) -> (r: bool)
        ensures
            r == bit_of16(self.0, 9),
    {
        bit_is_set16(self.0, 9)
    }

    pub fn window_1_bg2_enabled(&self) -> (r: bool)
        ensures
            r == bit_of16(self.0, 10),
    {
        bit_is_set16(self.0, 10)
    }

    pub fn window_1_bg3_enabled(&self) -> (r: bool)
        ensures
            r == bit_of16(self.0, 11),
    {
        bit_is_set16(self.0, 11)
    }

    pub fn window_1_obj_enabled(&self) -> (r: bool)
        ensures
            r == bit_of16(self.0, 12),
    {
        bit_is_set16(self.0, 12)
    }

    pub fn window_1_color_special_effects_enabled(&self) -> (r: bool)
        ensures
            r == bit_of16(self.0, 13),
    {
        bit_is_set16(self.0, 13)
    }
}

/// The outside-of-window and object window control register.
pub struct WinOut(pub u16);

impl WinOut {
    pub fn bg0_enabled(&self) -> (r: bool)
        ensures
            r == bit_of16(self.0, 0),
    {
        bit_is_set16(self.0, 0)
    }

    pub fn bg1_enabled(&self) -> (r: bool)
        ensures
            r == bit_of16(self.0, 1),
    {
        bit_is_set16(self.0, 1)
    }

    pub fn bg2_enabled(&self) -> (r: bool)
        ensures
            r == bit_of16(self.0, 2),
    {
        bit_is_set16(self.0, 2)
    }

    pub fn bg3_enabled(&self) -> (r: bool)
        ensures
            r == bit_of16(self.0, 3),
    {
        bit_is_set16(self.0, 3)
    }

    pub fn obj_enabled(&self) -> (r: bool)
        ensures
            r == bit_of16(self.0, 4),
    {
        bit_is_set16(self.0, 4)
    }

    pub fn color_special_effects_enabled(&self) -> (r: bool)
        ensures
            r == bit_of16(self.0, 5),
    {
        bit_is_set16(self.0, 5)
    }

    pub fn obj_window_bg0_enabled(&self) -> (r: bool)
        ensures
            r == bit_of16(self.0, 8),
    {
        bit_is_set16(self.0, 8)
    }

    pub fn obj_window_bg1_enabled(&self) -> (r: bool)
        ensures
            r == bit_of16(self.0, 9),
    {
        bit_is_set16(self.0, 9)
    }

    pub fn obj_window_bg2_enabled(&self) -> (r: bool)
        ensures
            r == bit_of16(self.0, 10),
    {
        bit_is_set16(self.0, 10)
    }

    pub fn obj_window_bg3_enabled(&self) -> (r: bool)
        ensures
            r == bit_of16(self.0, 11),
    {
        bit_is_set16(self.0, 11)
    }

    pub fn obj_window_obj_enabled(&self) -> (r: bool)
        ensures
            r == bit_of16(self.0, 12),
    {
        bit_is_set16(self.0, 12)
    }

    pub fn obj_window_color_special_effects_enabled(&self) -> (r: bool)
        ensures
            r == bit_of16(self.0, 13),
    {
        bit_is_set16(self.0, 13)
    }
}

} // verus!
