use vstd::prelude::*;

use crate::graphics::PixelPriority;

verus! {

/// The pixels of the four backgrounds at one point, background 0 first.
pub struct Background<'a>(pub [&'a Option<PixelPriority>; 4]);

/// One step of the search for the highest-priority background pixel: a
/// pixel wins when its priority is not lower (a smaller or equal number).
pub open spec fn over_pixel(current: PixelPriority, new: Option<PixelPriority>) -> PixelPriority {
    match new {
        Some(pixel) => if pixel.priority <= current.priority {
            pixel
        } else {
            current
        },
        None => current,
    }
}

impl<'a> Background<'a> {
    pub fn new(
        bg3_pixel: &'a Option<PixelPriority>,
        bg2_pixel: &'a Option<PixelPriority>,
        bg1_pixel: &'a Option<PixelPriority>,
        bg0_pixel: &'a Option<PixelPriority>,
    ) -> (r: Self)
        ensures
            *r.0[0] == *bg0_pixel,
            *r.0[1] == *bg1_pixel,
            *r.0[2] == *bg2_pixel,
            *r.0[3] == *bg3_pixel,
    {
        Background([bg0_pixel, bg1_pixel, bg2_pixel, bg3_pixel])
    }

    /// The colour of the background pixel of highest priority: the pixels
    /// are tried from background 3 down to 0, starting from black at a
    /// priority below every background.
    pub fn get_highest_priority_pixel(&self) -> (r: u32)
        ensures
            r == over_pixel(
                over_pixel(
                    over_pixel(over_pixel(PixelPriority { pixel: 0, priority: 5 }, *self.0[3]), *self.0[2]),
                    *self.0[1],
                ),
                *self.0[0],
            ).pixel,
    {
        let mut current_pixel = PixelPriority { pixel: 0x0, priority: 5 };
        let mut i: usize = 4;
        while i > 0
            invariant
                i <= 4,
                current_pixel == (if i == 4 {
                    PixelPriority { pixel: 0, priority: 5 }
                } else if i == 3 {
                    over_pixel(PixelPriority { pixel: 0, priority: 5 }, *self.0[3])
                } else if i == 2 {
                    over_pixel(over_pixel(PixelPriority { pixel: 0, priority: 5 }, *self.0[3]), *self.0[2])
                } else if i == 1 {
                    over_pixel(
                        over_pixel(over_pixel(PixelPriority { pixel: 0, priority: 5 }, *self.0[3]), *self.0[2]),
                        *self.0[1],
                    )
                } else {
                    over_pixel(
                        over_pixel(
                            over_pixel(over_pixel(PixelPriority { pixel: 0, priority: 5 }, *self.0[3]), *self.0[2]),
                            *self.0[1],
                        ),
                        *self.0[0],
                    )
                }),
            decreases i,
        {
            i = i - 1;
            if let Some(pixel) = self.0[i] {
                if pixel.priority <= current_pixel.priority {
                    current_pixel = *pixel;
                }
            }
        }
        current_pixel.pixel
    }
}

} // verus!
