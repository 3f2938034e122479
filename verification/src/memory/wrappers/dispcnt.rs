use vstd::prelude::*;

use crate::bits::{bit_is_set16, bit_of16};

verus! {

/// The display control register.
#[derive(Clone, Copy)]
pub struct Dispcnt(pub u16);

/// The numbers of the backgrounds that bits 8-11 of `value` enable, from
/// `count` up, in increasing order.
pub open spec fn enabled_from(value: u16, count: int) -> Seq<usize>
    decreases 4 - count,
{
    if count >= 4 || count < 0 {
        Seq::empty()
    } else if bit_of16(value, (8 + count) as u16) {
        seq![count as usize] + enabled_from(value, count + 1)
    } else {
        enabled_from(value, count + 1)
    }
}

impl Dispcnt {
    /// The background mode, bits 0-2.
    pub fn get_bg_mode(&self) -> (r: u16)
        ensures
            r == self.0 & 0b111u16,
    {
        self.0 & 0b111
    }

    pub fn display_frame_select(&self) -> (r: bool)
        ensures
            r == bit_of16(self.0, 4),
    {
        bit_is_set16(self.0, 4)
    }

    pub fn h_blank_interval_free(&self) -> (r: bool)
        ensures
            r == bit_of16(self.0, 5),
    {
        bit_is_set16(self.0, 5)
    }

    pub fn one_dimensional_character_mapping(&self) -> (r: bool)
        ensures
            r == bit_of16(self.0, 6),
    {
        bit_is_set16(self.0, 6)
    }

    pub fn forced_blank(&self) -> (r: bool)
        ensures
            r == bit_of16(self.0, 7),
    {
        bit_is_set16(self.0, 7)
    }

    pub fn bg0_enabled(&self) -> (r: bool)
        ensures
            r == bit_of16(self.0, 8),
    {
        bit_is_set16(self.0, 8)
    }

    pub fn bg1_enabled(&self) -> (r: bool)
        ensures
            r == bit_of16(self.0, 9),
    {
        bit_is_set16(self.0, 9)
    }

    pub fn bg2_enabled(&self) -> (r: bool)
        ensures
            r == bit_of16(self.0, 10),
    {
        bit_is_set16(self.0, 10)
    }

    pub fn bg3_enabled(&self) -> (r: bool)
        ensures
            r == bit_of16(self.0, 11),
    {
        bit_is_set16(self.0, 11)
    }

    pub fn obj_enabled(&self) -> (r: bool)
        ensures
            r == bit_of16(self.0, 12),
    {
        bit_is_set16(self.0, 12)
    }

    pub fn window_0_enabled(&self) -> (r: bool)
        ensures
            r == bit_of16(self.0, 13),
    {
        bit_is_set16(self.0, 13)
    }

    pub fn window_1_enabled(&self) -> (r: bool)
        ensures
            r == bit_of16(self.0, 14),
    {
        bit_is_set16(self.0, 14)
    }

    pub fn obj_window_enabled(&self) -> (r: bool)
        ensures
            r == bit_of16(self.0, 15),
    {
        bit_is_set16(self.0, 15)
    }

    /// Whether any of the windows is enabled.
    pub fn winout_enabled(&self) -> (r: bool)
        ensures
            r == (bit_of16(self.0, 13) || bit_of16(self.0, 14) || bit_of16(self.0, 15)),
    {
        self.window_0_enabled() || self.window_1_enabled() || self.obj_window_enabled()
    }

    /// The numbers of the enabled backgrounds, in increasing order.
    pub fn enabled_backgrounds(&self) -> (r: Vec<usize>)
        ensures
            r@ == enabled_from(self.0, 0),
    {
        let mut iter = EnabledBackgrounds { enabled_backgrounds: (self.0 >> 8u16) & 0xFu16, count: 0 };
        let mut out: Vec<usize> = Vec::new();
        let v = self.0;
        proof {
            crate::bits::lemma_half_bits(v, 0);
        }
        loop
            invariant
                iter.count <= 4,
                iter.inv(self.0),
                out@ + enabled_from(self.0, iter.count as int) == enabled_from(self.0, 0),
            decreases 4 - iter.count,
        {
            let next = iter.next(Ghost(self.0));
            match next {
                Some(i) => {
                    out.push(i);
                },
                None => {
                    assert(out@ + enabled_from(self.0, 4) =~= out@);
                    return out;
                },
            }
        }
    }
}

/// A walk through the enabled backgrounds: `enabled_backgrounds` holds the
/// enable bits not yet visited, `count` the number of the next background.
pub struct EnabledBackgrounds {
    pub enabled_backgrounds: u16,
    pub count: usize,
}

proof fn lemma_enabled_step(value: u16, c: u16)
    requires
        c < 4,
    ensures
        ((((value >> 8u16) & 0xFu16) >> c) & 1u16 > 0) == bit_of16(value, (8 + c) as u16),
        (((value >> 8u16) & 0xFu16) >> c) >> 1u16 == ((value >> 8u16) & 0xFu16) >> ((c + 1) as u16),
{
    crate::bits::lemma_half_bits(value, c);
}

impl EnabledBackgrounds {
    /// The walk has visited the backgrounds below `count` of `value`.
    pub open spec fn inv(self, value: u16) -> bool {
        &&& self.count <= 4
        &&& self.enabled_backgrounds == ((value >> 8u16) & 0xFu16) >> (self.count as u16)
    }

    /// The next enabled background, if any is left.
    pub fn next(&mut self, Ghost(value): Ghost<u16>) -> (r: Option<usize>)
        requires
            old(self).inv(value),
        ensures
            final(self).inv(value),
            enabled_from(value, old(self).count as int) == match r {
                Some(i) => seq![i] + enabled_from(value, final(self).count as int),
                None => enabled_from(value, final(self).count as int),
            },
            r is None ==> final(self).count == 4,
            old(self).count < final(self).count || final(self).count == 4,
    {
        while self.count < 4
            invariant
                self.inv(value),
                enabled_from(value, old(self).count as int) == enabled_from(value, self.count as int),
                old(self).count <= self.count,
            decreases 4 - self.count,
        {
            let current_count = self.count;
            let current_enabled_backgounds = self.enabled_backgrounds;
            proof {
                lemma_enabled_step(value, current_count as u16);
            }
            self.enabled_backgrounds = self.enabled_backgrounds >> 1u16;
            self.count = self.count + 1;
            if current_enabled_backgounds & 0b1 > 0 {
                return Some(current_count);
            }
        }
        None
    }
}

} // verus!
