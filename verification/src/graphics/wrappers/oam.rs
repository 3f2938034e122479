use vstd::prelude::*;

use crate::bits::{bit_is_set16, bit_of16, get_bit16, sign_extend, spec_sign_extend};

verus! {

pub const NUM_OAM_ENTRIES: usize = 128;

/// The mode of an object, from bits 10-11 of its first attribute.
#[derive(Debug, Clone, Copy, PartialEq, Eq, Structural)]
pub enum OBJMode {
    Normal,
    SemiTransparent,
    OBJWindow,
    Prohibited,
}

/// The shape of an object, from bits 14-15 of its first attribute.
#[derive(Debug, Clone, Copy, PartialEq, Eq, Structural)]
pub enum OBJShape {
    Square,
    Horizonatal,
    Vertical,
    Prohibited,
}

pub open spec fn spec_obj_mode(v: u16) -> OBJMode {
    if v == 0 {
        OBJMode::Normal
    } else if v == 1 {
        OBJMode::SemiTransparent
    } else if v == 2 {
        OBJMode::OBJWindow
    } else {
        OBJMode::Prohibited
    }
}

pub open spec fn spec_obj_shape(v: u16) -> OBJShape {
    if v == 0 {
        OBJShape::Square
    } else if v == 1 {
        OBJShape::Horizonatal
    } else if v == 2 {
        OBJShape::Vertical
    } else {
        OBJShape::Prohibited
    }
}

/// The width in pixels of an object of a given shape and size.
pub open spec fn spec_obj_width(shape: OBJShape, size: u16) -> i32 {
    match shape {
        OBJShape::Square => if size == 0 { 8 } else if size == 1 { 16 } else if size == 2 { 32 } else { 64 },
        OBJShape::Horizonatal => if size == 0 { 16 } else if size == 1 { 32 } else if size == 2 { 32 } else { 64 },
        OBJShape::Vertical => if size == 0 { 8 } else if size == 1 { 8 } else if size == 2 { 16 } else { 32 },
        OBJShape::Prohibited => 0,
    }
}

/// The height in pixels of an object of a given shape and size.
pub open spec fn spec_obj_height(shape: OBJShape, size: u16) -> i32 {
    match shape {
        OBJShape::Square => if size == 0 { 8 } else if size == 1 { 16 } else if size == 2 { 32 } else { 64 },
        OBJShape::Horizonatal => if size == 0 { 8 } else if size == 1 { 8 } else if size == 2 { 16 } else { 32 },
        OBJShape::Vertical => if size == 0 { 16 } else if size == 1 { 32 } else if size == 2 { 32 } else { 64 },
        OBJShape::Prohibited => 0,
    }
}

/// The mode that a two-bit field encodes.
pub fn obj_mode_from_bits(v: u16) -> (r: OBJMode)
    requires
        v < 4,
    ensures
        r == spec_obj_mode(v),
{
    if v == 0 {
        OBJMode::Normal
    } else if v == 1 {
        OBJMode::SemiTransparent
    } else if v == 2 {
        OBJMode::OBJWindow
    } else {
        OBJMode::Prohibited
    }
}

/// The shape that a two-bit field encodes.
pub fn obj_shape_from_bits(v: u16) -> (r: OBJShape)
    requires
        v < 4,
    ensures
        r == spec_obj_shape(v),
{
    if v == 0 {
        OBJShape::Square
    } else if v == 1 {
        OBJShape::Horizonatal
    } else if v == 2 {
        OBJShape::Vertical
    } else {
        OBJShape::Prohibited
    }
}

/// The three attributes of one object in OAM.
#[derive(Debug)]
pub struct Oam<'a>(pub &'a [u16; 3]);

impl<'a> Oam<'a> {
    pub open spec fn attr(self, i: int) -> u16 {
        self.0@[i]
    }

    pub open spec fn spec_shape(self) -> OBJShape {
        spec_obj_shape((self.attr(0) >> 14u16) & 0x3u16)
    }

    pub open spec fn spec_size(self) -> u16 {
        (self.attr(1) >> 14u16) & 0x3u16
    }

    pub open spec fn spec_double_sized(self) -> bool {
        bit_of16(self.attr(0), 8) && bit_of16(self.attr(0), 9)
    }

    /// The Y coordinate: the low byte of the first attribute, read as a
    /// signed byte.
    pub fn y(&self) -> (r: i32)
        ensures
            r == spec_sign_extend((self.attr(0) & 0xFFu16) as u32, 7) as i32,
    {
        sign_extend((self.0[0] & 0xFF) as u32, 7) as i32
    }

    pub fn rotation_and_scaling_enabled(&self) -> (r: bool)
        ensures
            r == bit_of16(self.attr(0), 8),
    {
        bit_is_set16(self.0[0], 8)
    }

    /// Bit 9 doubles the size of a rotated or scaled object.
    pub fn double_sized(&self) -> (r: bool)
        ensures
            r == self.spec_double_sized(),
    {
        self.rotation_and_scaling_enabled() && bit_is_set16(self.0[0], 9)
    }

    /// Bit 9 hides an object that is not rotated or scaled.
    pub fn obj_disabled(&self) -> (r: bool)
        ensures
            r == (!bit_of16(self.attr(0), 8) && bit_of16(self.attr(0), 9)),
    {
        !self.rotation_and_scaling_enabled() && bit_is_set16(self.0[0], 9)
    }

    pub fn obj_mode(&self) -> (r: OBJMode)
        ensures
            r == spec_obj_mode((self.attr(0) >> 10u16) & 0x3u16),
    {
        let a = self.0[0];
        let v = (a >> 10u16) & 0x3u16;
        proof {
            crate::bits::lemma_half_bits(a, 0);
        }
        obj_mode_from_bits(v)
    }

    pub fn obj_mosaic(&self) -> (r: bool)
        ensures
            r == bit_of16(self.attr(0), 12),
    {
        bit_is_set16(self.0[0], 12)
    }

    /// Bit 13: 16 palettes of 16 colours (0) or one palette of 256 (1).
    pub fn color_pallete(&self) -> (r: usize)
        ensures
            r == (self.attr(0) >> 13u16) & 1u16,
    {
        get_bit16(self.0[0], 13) as usize
    }

    pub fn obj_shape(&self) -> (r: OBJShape)
        ensures
            r == self.spec_shape(),
    {
        let a = self.0[0];
        let v = (a >> 14u16) & 0x3u16;
        proof {
            crate::bits::lemma_half_bits(a, 0);
        }
        obj_shape_from_bits(v)
    }

    /// The X coordinate: the low nine bits of the second attribute, from 0
    /// to 511.
    pub fn x(&self) -> (r: i32)
        ensures
            r == (self.attr(1) & 0x1FFu16) as i32,
    {
        (self.0[1] & 0x1FF) as i32
    }

    /// The width in pixels, from the shape and the size.
    pub fn width(&self) -> (r: i32)
        requires
            self.spec_shape() != OBJShape::Prohibited,
        ensures
            r == spec_obj_width(self.spec_shape(), self.spec_size()),
    {
        let size = self.obj_size();
        match self.obj_shape() {
            OBJShape::Square => if size == 0 { 8 } else if size == 1 { 16 } else if size == 2 { 32 } else { 64 },
            OBJShape::Horizonatal => if size == 0 { 16 } else if size == 1 { 32 } else if size == 2 { 32 } else { 64 },
            _ => if size == 0 { 8 } else if size == 1 { 8 } else if size == 2 { 16 } else { 32 },
        }
    }

    /// The width on screen: twice the width when the object is double sized.
    pub fn view_width(&self) -> (r: i32)
        requires
            self.spec_shape() != OBJShape::Prohibited,
        ensures
            r == if self.spec_double_sized() {
                2 * spec_obj_width(self.spec_shape(), self.spec_size())
            } else {
                spec_obj_width(self.spec_shape(), self.spec_size()) as int
            },
    {
        if self.double_sized() {
            self.width() * 2
        } else {
            self.width()
        }
    }

    /// The height in pixels, from the shape and the size.
    pub fn height(&self) -> (r: i32)
        requires
            self.spec_shape() != OBJShape::Prohibited,
        ensures
            r == spec_obj_height(self.spec_shape(), self.spec_size()),
    {
        let size = self.obj_size();
        match self.obj_shape() {
            OBJShape::Square => if size == 0 { 8 } else if size == 1 { 16 } else if size == 2 { 32 } else { 64 },
            OBJShape::Horizonatal => if size == 0 { 8 } else if size == 1 { 8 } else if size == 2 { 16 } else { 32 },
            _ => if size == 0 { 16 } else if size == 1 { 32 } else if size == 2 { 32 } else { 64 },
        }
    }

    /// The height on screen: twice the height when the object is double sized.
    pub fn view_height(&self) -> (r: i32)
        requires
            self.spec_shape() != OBJShape::Prohibited,
        ensures
            r == if self.spec_double_sized() {
                2 * spec_obj_height(self.spec_shape(), self.spec_size())
            } else {
                spec_obj_height(self.spec_shape(), self.spec_size()) as int
            },
    {
        if self.double_sized() {
            self.height() * 2
        } else {
            self.height()
        }
    }

    /// The index of the rotation/scaling parameters (bits 9-13 of the
    /// second attribute) of a rotated or scaled object.
    pub fn rotation_scaling_parameter(&self) -> (r: Option<usize>)
        ensures
            r == if bit_of16(self.attr(0), 8) {
                Some(((self.attr(1) & 0x3E00u16) >> 9u16) as usize)
            } else {
                None::<usize>
            },
    {
        if self.rotation_and_scaling_enabled() {
            return Some(((self.0[1] & 0x3E00) >> 9u16) as usize);
        }
        None
    }

    pub fn horizontal_flip(&self) -> (r: bool)
        ensures
            r == bit_of16(self.attr(1), 12),
    {
        bit_is_set16(self.0[1], 12)
    }

    pub fn vertical_flip(&self) -> (r: bool)
        ensures
            r == bit_of16(self.attr(1), 13),
    {
        bit_is_set16(self.0[1], 13)
    }

    pub fn obj_size(&self) -> (r: u16)
        ensures
            r == self.spec_size(),
            r < 4,
    {
        let a = self.0[1];
        let v = (a >> 14u16) & 0x3u16;
        proof {
            crate::bits::lemma_half_bits(a, 0);
        }
        v
    }

    pub fn tile_number(&self) -> (r: usize)
        ensures
            r == (self.attr(2) as usize) & 0x3FFusize,
    {
        self.0[2] as usize & 0x3FF
    }

    pub fn priority(&self) -> (r: u16)
        ensures
            r == (self.attr(2) >> 10u16) & 0x3u16,
    {
        (self.0[2] >> 10u16) & 0x3u16
    }

    pub fn pallete_number(&self) -> (r: usize)
        ensures
            r == ((self.attr(2) >> 12u16) & 0xFu16) as usize,
    {
        ((self.0[2] >> 12u16) & 0xFu16) as usize
    }
}

} // verus!
