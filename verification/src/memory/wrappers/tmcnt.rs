use vstd::prelude::*;

use crate::bits::{bit_is_set16, bit_of16};

verus! {

/// A timer's control register.
#[derive(Debug, Clone, Copy)]
pub struct TMCntH(pub u16);

/// The number of cycles per timer tick that a prescaler selection encodes.
pub open spec fn spec_prescaler(v: u16) -> u32 {
    if v == 0 {
        1
    } else if v == 1 {
        64
    } else if v == 2 {
        256
    } else {
        1024
    }
}

impl TMCntH {
    pub fn prescaler_value(&self) -> (r: u32)
        ensures
            r == spec_prescaler(self.0 & 0b11u16),
            r >= 1,
    {
        let v = self.0 & 0b11;
        if v == 0 {
            1
        } else if v == 1 {
            64
        } else if v == 2 {
            256
        } else {
            1024
        }
    }

    pub fn count_up_timing(&self) -> (r: bool)
        ensures
            r == bit_of16(self.0, 2),
    {
        bit_is_set16(self.0, 2)
    }

    pub fn timer_irq_enable(&self) -> (r: bool)
        ensures
            r == bit_of16(self.0, 6),
    {
        bit_is_set16(self.0, 6)
    }

    pub fn timer_enabled(&self) -> (r: bool)
        ensures
            r == bit_of16(self.0, 7),
    {
        bit_is_set16(self.0, 7)
    }
}

} // verus!
