use vstd::prelude::*;

verus! {

/// A colour as its three 5-bit components.
#[derive(Default, Debug, Clone, Copy, PartialEq, Eq, Structural)]
pub struct RGBComponents {
    pub r: u16,
    pub g: u16,
    pub b: u16,
}

/// The components of a BGR555 colour: red in bits 0-4, green in bits 5-9,
/// blue in bits 10-14.
pub open spec fn spec_rgb555(value: u16) -> RGBComponents {
    RGBComponents { r: value & 0x1Fu16, g: (value >> 5u16) & 0x1Fu16, b: (value >> 10u16) & 0x1Fu16 }
}

impl RGBComponents {
    /// White, the colour behind every layer.
    pub fn backdrop() -> (r: RGBComponents)
        ensures
            r == (RGBComponents { r: 0x1f, g: 0x1f, b: 0x1f }),
    {
        RGBComponents { r: 0x1f, g: 0x1f, b: 0x1f }
    }
}

impl From<u16> for RGBComponents {
    fn from(value: u16) -> (r: Self) {
        RGBComponents { r: value & 0x1F, g: (value >> 5u16) & 0x1F, b: (value >> 10u16) & 0x1F }
    }
}

impl vstd::std_specs::convert::FromSpecImpl<u16> for RGBComponents {
    open spec fn obeys_from_spec() -> bool {
        true
    }

    open spec fn from_spec(value: u16) -> RGBComponents {
        spec_rgb555(value)
    }
}

} // verus!
