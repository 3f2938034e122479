use vstd::prelude::*;

use crate::graphics::ppu_modes::hdraw::{spec_rgb555, RGBComponents};
use crate::graphics::wrappers::tile::Tile;
use crate::memory::le16;

verus! {

/// The byte of palette memory where colour `palette_index` starts: in the
/// 16-colour mode (0) within palette `pallete_num`, each palette taking 32
/// bytes; in the 256-colour mode (1) in the one palette.
pub open spec fn color_offset(palette_index: usize, pallete_num: usize, pallete_mode: usize) -> int {
    if pallete_mode == 0 {
        pallete_num * 32 + palette_index * 2
    } else {
        palette_index * 2
    }
}

/// Whether a colour can be looked up: index 0 is transparent and needs
/// nothing; any other needs a valid mode and a colour inside the 512 bytes.
pub open spec fn color_ok(palette_index: usize, pallete_num: usize, pallete_mode: usize) -> bool {
    palette_index != 0 ==> pallete_mode < 2 && color_offset(palette_index, pallete_num, pallete_mode) + 2 <= 0x200
}

/// The colour that a palette gives: the little-endian BGR555 half word at
/// the colour's offset.
pub open spec fn palette_color(data: Seq<u8>, palette_index: usize, pallete_num: usize, pallete_mode: usize) -> RGBComponents {
    let i = color_offset(palette_index, pallete_num, pallete_mode);
    spec_rgb555(le16(data[i], data[i + 1]))
}

/// The byte of a tile that holds pixel (`x`, `y`).
pub open spec fn tile_byte_index(tile: Tile, x: usize, y: usize) -> int {
    match tile {
        Tile::FourBit { .. } => y * 4 + x / 2,
        Tile::EightBit { .. } => y * 8 + x,
    }
}

/// Whether pixel (`x`, `y`) lies inside the tile's bytes.
pub open spec fn pixel_in_tile(tile: Tile, x: usize, y: usize) -> bool {
    match tile {
        Tile::FourBit { tile: t, .. } => tile_byte_index(tile, x, y) < t@.len(),
        Tile::EightBit { tile: t } => tile_byte_index(tile, x, y) < t@.len(),
    }
}

/// The palette index of pixel (`x`, `y`) of a tile: a nibble with 16
/// colours (the low one for even `x`), a byte with 256.
pub open spec fn tile_pixel_index(tile: Tile, x: usize, y: usize) -> usize {
    match tile {
        Tile::FourBit { tile: t, .. } => ((t@[tile_byte_index(tile, x, y)] >> (((x & 1usize) * 4) as u8)) & 0xFu8) as usize,
        Tile::EightBit { tile: t } => t@[tile_byte_index(tile, x, y)] as usize,
    }
}

/// The palette number a tile uses, and the palette mode it reads in.
pub open spec fn tile_palette(tile: Tile) -> (usize, usize) {
    match tile {
        Tile::FourBit { pallete_num, .. } => (pallete_num, 0),
        Tile::EightBit { .. } => (0, 1),
    }
}

/// The object palette: 512 bytes of BGR555 colours.
pub struct OBJPalleteData(pub [u8; 0x200]);

impl OBJPalleteData {
    /// The colour of pixel (`x`, `y`) of an object tile; colour 0 is
    /// transparent.
    pub fn get_pixel_from_tile(&self, tile: &Tile, x: usize, y: usize) -> (r: Option<RGBComponents>)
        requires
            pixel_in_tile(*tile, x, y),
            color_ok(tile_pixel_index(*tile, x, y), tile_palette(*tile).0, tile_palette(*tile).1),
        ensures
            r == (if tile_pixel_index(*tile, x, y) == 0 {
                None
            } else {
                Some(palette_color(self.0@, tile_pixel_index(*tile, x, y), tile_palette(*tile).0, tile_palette(*tile).1))
            }),
    {
        match tile {
            Tile::FourBit { tile, pallete_num } => {
                proof {
                    crate::bits::lemma_offset_bits(x);
                }
                let palette_index = tile[y * 4 + x / 2];
                let palette_index = palette_index >> (((x & 0x1) * 4) as u8);
                let palette_index = (palette_index & 0xF) as usize;
                self.get_obj_color(palette_index, *pallete_num, 0)
            },
            Tile::EightBit { tile } => {
                let palette_index = tile[y * 8 + x] as usize;
                self.get_obj_color(palette_index, 0, 1)
            },
        }
    }

    /// The colour `palette_index` of an object palette; colour 0 is
    /// transparent.
    pub fn get_obj_color(&self, palette_index: usize, pallete_num: usize, pallete_mode: usize) -> (r: Option<
        RGBComponents,
    >)
        requires
            color_ok(palette_index, pallete_num, pallete_mode),
        ensures
            r == (if palette_index == 0 {
                None
            } else {
                Some(palette_color(self.0@, palette_index, pallete_num, pallete_mode))
            }),
    {
        if palette_index == 0 {
            return None;
        }
        let index = if pallete_mode == 0 {
            pallete_num * 32 + palette_index * 2
        } else {
            palette_index * 2
        };
        let color = (self.0[index] as u16) | ((self.0[index + 1] as u16) << 8u16);
        Some(RGBComponents::from(color))
    }
}

/// The background palette: 512 bytes of BGR555 colours, borrowed from
/// palette memory.
pub struct BGPalleteData<'a>(pub &'a [u8; 0x200]);

impl<'a> BGPalleteData<'a> {
    /// The colour of pixel (`x`, `y`) of a background tile: tiles of 16
    /// colours show as blue; colour 0 of the others is transparent.
    pub fn get_pixel_from_tile(&self, tile: &Tile, x: usize, y: usize) -> (r: Option<RGBComponents>)
        requires
            tile is EightBit ==> pixel_in_tile(*tile, x, y),
            tile is EightBit ==> color_ok(tile_pixel_index(*tile, x, y), 0, 1),
        ensures
            tile is FourBit ==> r == Some(RGBComponents { r: 0, g: 0, b: 0xFF }),
            tile is EightBit ==> r == (if tile_pixel_index(*tile, x, y) == 0 {
                None
            } else {
                Some(palette_color(self.0@, tile_pixel_index(*tile, x, y), 0, 1))
            }),
    {
        match tile {
            Tile::FourBit { .. } => Some(RGBComponents { r: 0, g: 0, b: 0xFF }),
            Tile::EightBit { tile } => {
                let palette_index = tile[y * 8 + x] as usize;
                self.get_bg_color(palette_index, 0, 1, false)
            },
        }
    }

    /// The colour `palette_index` of a background palette; colour 0 is
    /// transparent except for the backdrop.
    pub fn get_bg_color(&self, palette_index: usize, pallete_num: usize, pallete_mode: usize, is_backdrop: bool) -> (r:
        Option<RGBComponents>)
        requires
            palette_index != 0 || is_backdrop ==> pallete_mode < 2 && color_offset(
                palette_index,
                pallete_num,
                pallete_mode,
            ) + 2 <= 0x200,
        ensures
            r == (if palette_index == 0 && !is_backdrop {
                None
            } else {
                Some(palette_color(self.0@, palette_index, pallete_num, pallete_mode))
            }),
    {
        if palette_index == 0 && is_backdrop == false {
            return None;
        }
        let index = if pallete_mode == 0 {
            pallete_num * 32 + palette_index * 2
        } else {
            palette_index * 2
        };
        let color = (self.0[index] as u16) | ((self.0[index + 1] as u16) << 8u16);
        Some(RGBComponents::from(color))
    }
}

/// A colour of 5-bit components as a 24-bit RGB value, each component
/// scaled by 8.
pub fn rgb555_to_rgb24(rgb555: RGBComponents) -> (r: u32)
    requires
        rgb555.r * 8 <= u16::MAX,
        rgb555.g * 8 <= u16::MAX,
        rgb555.b * 8 <= u16::MAX,
    ensures
        r == (((rgb555.r * 8) as u32) << 16u32) | (((rgb555.g * 8) as u32) << 8u32) | ((rgb555.b * 8) as u32),
{
    let r8: u32 = (rgb555.r * 8) as u32;
    let g8: u32 = (rgb555.g * 8) as u32;
    let b8: u32 = (rgb555.b * 8) as u32;
    (r8 << 16u32) | (g8 << 8u32) | b8
}

} // verus!
