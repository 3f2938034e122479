use vstd::prelude::*;

use crate::memory::le16;
use crate::memory::memory::GBAMemory;
use crate::memory::oam::Oam;
use crate::memory::wrappers::bgcnt::{BGCnt, MAP_SIZE_BYTES, TILE_DATA_SIZE_BYTES};

verus! {

/// The pixels of one 8x8 tile: with 16 colours, two pixels a byte and the
/// palette that they index; with 256 colours, one pixel a byte.
#[allow(inconsistent_fields)]
pub enum Tile {
    FourBit { tile: [u8; 32], pallete_num: usize },
    EightBit { tile: [u8; 64] },
}

/// The object tiles start 64 KiB into video memory.
pub const OBJ_TILE_BASE: usize = 0x10000;

/// The 32 bytes of `source` from `start` on.
fn copy_tile32(source: &Vec<u8>, start: usize) -> (r: [u8; 32])
    requires
        start + 32 <= source@.len(),
    ensures
        r@ == source@.subrange(start as int, start + 32),
{
    let mut out = [0u8; 32];
    let mut i: usize = 0;
    let n = source.len();
    while i < 32
        invariant
            i <= 32,
            n == source@.len(),
            start + 32 <= source@.len(),
            forall|k: int| 0 <= k < i ==> out@[k] == source@[start + k],
        decreases 32 - i,
    {
        out[i] = source[start + i];
        i = i + 1;
    }
    assert(out@ =~= source@.subrange(start as int, start + 32));
    out
}

/// The 64 bytes of `source` from `start` on.
fn copy_tile64(source: &Vec<u8>, start: usize) -> (r: [u8; 64])
    requires
        start + 64 <= source@.len(),
    ensures
        r@ == source@.subrange(start as int, start + 64),
{
    let mut out = [0u8; 64];
    let mut i: usize = 0;
    let n = source.len();
    while i < 64
        invariant
            i <= 64,
            n == source@.len(),
            start + 64 <= source@.len(),
            forall|k: int| 0 <= k < i ==> out@[k] == source@[start + k],
        decreases 64 - i,
    {
        out[i] = source[start + i];
        i = i + 1;
    }
    assert(out@ =~= source@.subrange(start as int, start + 64));
    out
}

/// Whether `t` is the tile stored in `vram` from `start` on: 32 bytes with
/// palette `pallete_num` when it has 16 colours, else 64 bytes.
pub open spec fn tile_is(t: Tile, vram: Seq<u8>, start: int, four_bit: bool, pallete_num: usize) -> bool {
    match t {
        Tile::FourBit { tile, pallete_num: p } => four_bit && tile@ == vram.subrange(start, start + 32) && p
            == pallete_num,
        Tile::EightBit { tile } => !four_bit && tile@ == vram.subrange(start, start + 64),
    }
}

/// The number of bytes of a tile with 16 colours (`four_bit`) or 256.
pub open spec fn tile_bytes(four_bit: bool) -> int {
    if four_bit {
        32
    } else {
        64
    }
}

/// The number of the tile of an object at tile offset (`tile_x`, `tile_y`)
/// within it: rows of the object tile map are 32 tiles apart and each tile
/// of a 256-colour object takes two numbers.
pub open spec fn relative_obj_tile(oam: Oam, tile_x: i32, tile_y: i32) -> int {
    ((oam.attr(2) as usize) & 0x3FFusize) + tile_y * 0x20 + tile_x * 2
}

/// The address in video memory of the screen entry at map position
/// (`x`, `y`) of a background: rows of the map are 64 bytes apart.
pub open spec fn bg_entry_address(bgcnt: BGCnt, y: usize, x: usize) -> int {
    ((bgcnt.0 >> 14u16) & 0b11u16) as int * MAP_SIZE_BYTES + y * 64 + x * 2
}

/// The address in video memory of the tile that screen entry `entry`
/// names.
pub open spec fn bg_tile_address(bgcnt: BGCnt, entry: u16) -> int {
    ((bgcnt.0 >> 2u16) & 0b11u16) as int * TILE_DATA_SIZE_BYTES + (entry & 0x1FFu16) as int * 32
}

/// The screen entry stored at `address` of video memory.
pub open spec fn bg_entry_at(vram: Seq<u8>, address: int) -> u16 {
    le16(vram[address], vram[address + 1])
}

impl Tile {
    /// The tile of an object at tile offset (`tile_x`, `tile_y`) within it.
    pub fn get_tile_relative_obj(memory: &GBAMemory, oam: &Oam, tile_x: i32, tile_y: i32) -> (r: Tile)
        requires
            i32::MIN <= tile_y * 0x20 <= i32::MAX,
            i32::MIN <= tile_x * 2 <= i32::MAX,
            i32::MIN <= ((oam.attr(2) as usize) & 0x3FFusize) + tile_y * 0x20 <= i32::MAX,
            0 <= relative_obj_tile(*oam, tile_x, tile_y) <= i32::MAX,
            OBJ_TILE_BASE + relative_obj_tile(*oam, tile_x, tile_y) * 32 + tile_bytes(
                (oam.attr(0) >> 13u16) & 1u16 == 0,
            ) <= memory.vram.memory@.len(),
        ensures
            tile_is(
                r,
                memory.vram.memory@,
                OBJ_TILE_BASE + relative_obj_tile(*oam, tile_x, tile_y) * 32,
                (oam.attr(0) >> 13u16) & 1u16 == 0,
                ((oam.attr(2) >> 12u16) & 0xFu16) as usize,
            ),
    {
        let number = oam.tile_number();
        assert(number <= 0x3FF) by {
            crate::bits::lemma_offset_bits(oam.attr(2) as usize);
        }
        let relative_tile = number as i32 + tile_y * 0x20 + tile_x * 2;
        Self::get_tile_single_obj(memory, oam, relative_tile as usize)
    }

    fn get_tile_single_obj(memory: &GBAMemory, object: &Oam, tile_num: usize) -> (r: Tile)
        requires
            OBJ_TILE_BASE + tile_num * 32 + tile_bytes((object.attr(0) >> 13u16) & 1u16 == 0)
                <= memory.vram.memory@.len(),
        ensures
            tile_is(
                r,
                memory.vram.memory@,
                OBJ_TILE_BASE + tile_num * 32,
                (object.attr(0) >> 13u16) & 1u16 == 0,
                ((object.attr(2) >> 12u16) & 0xFu16) as usize,
            ),
    {
        let vram_len = memory.vram.memory.len();
        if object.color_pallete() == 0 {
            Tile::FourBit {
                tile: copy_tile32(&memory.vram.memory, OBJ_TILE_BASE + tile_num * 32),
                pallete_num: object.pallete_number(),
            }
        } else {
            Tile::EightBit { tile: copy_tile64(&memory.vram.memory, OBJ_TILE_BASE + tile_num * 32) }
        }
    }

    /// The tile at map position (`x`, `y`) of a text background: the screen
    /// entry there names the tile and, with 16 colours, its palette.
    pub fn get_tile_relative_bg(memory: &GBAMemory, bgcnt: &BGCnt, y: usize, x: usize) -> (r: Tile)
        requires
            bg_entry_address(*bgcnt, y, x) + 2 <= memory.vram.memory@.len(),
            bg_tile_address(*bgcnt, bg_entry_at(memory.vram.memory@, bg_entry_address(*bgcnt, y, x)))
                + tile_bytes((bgcnt.0 >> 7u16) & 1u16 == 0) <= memory.vram.memory@.len(),
        ensures
            tile_is(
                r,
                memory.vram.memory@,
                bg_tile_address(*bgcnt, bg_entry_at(memory.vram.memory@, bg_entry_address(*bgcnt, y, x))),
                (bgcnt.0 >> 7u16) & 1u16 == 0,
                ((bg_entry_at(memory.vram.memory@, bg_entry_address(*bgcnt, y, x)) >> 12u16) & 0xFu16) as usize,
            ),
    {
        let vram_len = memory.vram.memory.len();
        let map_address = bgcnt.map_data_base() * MAP_SIZE_BYTES;
        let relative_map_address = map_address + y * 64 + x * 2;
        let low = memory.vram.memory[relative_map_address] as u16;
        let high = memory.vram.memory[relative_map_address + 1] as u16;
        let text_bg_screen_entry = low | (high << 8u16);
        let entry = BGEntry(&text_bg_screen_entry);
        let tile_num = entry.tile_number();
        let tile_data_start = bgcnt.tile_data_base() * TILE_DATA_SIZE_BYTES;
        if bgcnt.color_pallete() == 0 {
            Tile::FourBit {
                tile: copy_tile32(&memory.vram.memory, tile_data_start + tile_num * 32),
                pallete_num: entry.pallete_num(),
            }
        } else {
            Tile::EightBit { tile: copy_tile64(&memory.vram.memory, tile_data_start + tile_num * 32) }
        }
    }
}

/// A screen entry of a text background: the tile number in bits 0-9 and the
/// palette in bits 12-15.
pub struct BGEntry<'a>(pub &'a u16);

impl<'a> BGEntry<'a> {
    pub fn tile_number(&self) -> (r: usize)
        ensures
            r == (*self.0 & 0x1FFu16) as usize,
    {
        (*self.0 & 0x1FF) as usize
    }

    pub fn pallete_num(&self) -> (r: usize)
        ensures
            r == ((*self.0 >> 12u16) & 0xFu16) as usize,
    {
        ((*self.0 >> 12u16) & 0xF) as usize
    }
}

} // verus!
