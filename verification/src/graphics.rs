pub mod background;
pub mod color_effects;
pub mod layers;
pub mod oam;
pub mod pallete;
pub mod ppu;
pub mod ppu_modes;
pub mod wrappers;

use vstd::prelude::*;

verus! {

/// A pixel as a 24-bit colour, with the priority of the layer it comes from.
#[derive(Clone, Copy)]
pub struct PixelPriority {
    pub pixel: u32,
    pub priority: u16,
}

} // verus!
