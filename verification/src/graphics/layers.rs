use vstd::prelude::*;

use crate::graphics::pallete::{palette_color, BGPalleteData};
use crate::graphics::ppu_modes::hdraw::RGBComponents;
use crate::graphics::wrappers::tile::{bg_entry_address, bg_entry_at, bg_tile_address, tile_bytes, Tile};
use crate::memory::io_handlers::{BG0CNT, BG1CNT, BG2CNT, BG3CNT};
use crate::memory::memory::GBAMemory;
use crate::memory::oam::OBJMode;
use crate::memory::wrappers::bgcnt::BGCnt;

verus! {

/// Which layers a region of the screen shows, and whether colour special
/// effects apply there.
pub struct DisplayContext {
    pub bg0_enabled: bool,
    pub bg1_enabled: bool,
    pub bg2_enabled: bool,
    pub bg3_enabled: bool,
    pub obj_enabled: bool,
    pub color_special_effects_enabled: bool,
}

/// The pixels of every layer at one point of the screen.
#[derive(Clone, Copy)]
pub struct Layers {
    pub bg0: Option<BGPixel>,
    pub bg1: Option<BGPixel>,
    pub bg2: Option<BGPixel>,
    pub bg3: Option<BGPixel>,
    pub obj: Option<OBJPixel>,
    pub bd: BGPixel,
}

impl Default for Layers {
    fn default() -> (r: Self)
        ensures
            r.bg0 is None && r.bg1 is None && r.bg2 is None && r.bg3 is None && r.obj is None,
            r.bd == spec_backdrop(),
    {
        Layers { bg0: None, bg1: None, bg2: None, bg3: None, obj: None, bd: BGPixel::backdrop() }
    }
}

/// A pixel of an object, with its priority and mode.
#[derive(Clone, Debug, Copy)]
pub struct OBJPixel {
    pub priority: u16,
    pub pixel: RGBComponents,
    pub mode: OBJMode,
}

/// A pixel of a background, with the background's priority; a transparent
/// pixel has no colour.
#[derive(Clone, Copy)]
pub struct BGPixel {
    pub priority: u16,
    pub pixel: Option<RGBComponents>,
}

/// A pixel of an object or of a background.
#[derive(Clone, Copy)]
pub enum LayerPixel {
    OBJ(OBJPixel),
    BG(BGPixel),
}

/// The backdrop: white, at the lowest priority.
pub open spec fn spec_backdrop() -> BGPixel {
    BGPixel { priority: 3, pixel: Some(RGBComponents { r: 0x1f, g: 0x1f, b: 0x1f }) }
}

impl LayerPixel {
    pub open spec fn spec_pixel(self) -> Option<RGBComponents> {
        match self {
            LayerPixel::OBJ(obj) => Some(obj.pixel),
            LayerPixel::BG(bg) => bg.pixel,
        }
    }

    pub open spec fn spec_priority(self) -> u16 {
        match self {
            LayerPixel::OBJ(obj) => obj.priority,
            LayerPixel::BG(bg) => bg.priority,
        }
    }

    /// The colour of the pixel; an object pixel always has one.
    pub fn pixel(&self) -> (r: Option<RGBComponents>)
        ensures
            r == self.spec_pixel(),
    {
        match self {
            LayerPixel::OBJ(obj) => Some(obj.pixel),
            LayerPixel::BG(bg) => bg.pixel,
        }
    }

    pub fn priority(&self) -> (r: u16)
        ensures
            r == self.spec_priority(),
    {
        match self {
            LayerPixel::OBJ(obj) => obj.priority,
            LayerPixel::BG(bg) => bg.priority,
        }
    }
}

impl BGPixel {
    pub fn backdrop() -> (r: BGPixel)
        ensures
            r == spec_backdrop(),
    {
        BGPixel { priority: 3, pixel: Some(RGBComponents { r: 0x1f, g: 0x1f, b: 0x1f }) }
    }
}

/// A background pixel as a layer pixel, if there is one.
pub open spec fn bg_layer(p: Option<BGPixel>) -> Option<LayerPixel> {
    match p {
        Some(pixel) => Some(LayerPixel::BG(pixel)),
        None => None,
    }
}

/// An object pixel as a layer pixel, if there is one.
pub open spec fn obj_layer(p: Option<OBJPixel>) -> Option<LayerPixel> {
    match p {
        Some(pixel) => Some(LayerPixel::OBJ(pixel)),
        None => None,
    }
}

/// One step of the search for the top layer: a later pixel with a colour
/// wins when its priority is not lower (a smaller or equal number).
pub open spec fn over_top(top: LayerPixel, new: Option<LayerPixel>) -> LayerPixel {
    match new {
        Some(pixel) => if pixel.spec_priority() <= top.spec_priority() && pixel.spec_pixel() is Some {
            pixel
        } else {
            top
        },
        None => top,
    }
}

/// One step of the search for the top background: a later background wins
/// when its priority is not lower.
pub open spec fn over_top_bg(top: BGPixel, new: Option<BGPixel>) -> BGPixel {
    match new {
        Some(pixel) => if pixel.priority <= top.priority {
            pixel
        } else {
            top
        },
        None => top,
    }
}

impl Layers {
    /// The visible layer: starting from the backdrop, the backgrounds 3 to
    /// 0 and then the object are tried in turn.
    pub open spec fn spec_top_layer(self) -> LayerPixel {
        over_top(
            over_top(
                over_top(over_top(over_top(LayerPixel::BG(self.bd), bg_layer(self.bg3)), bg_layer(self.bg2)), bg_layer(self.bg1)),
                bg_layer(self.bg0),
            ),
            obj_layer(self.obj),
        )
    }

    /// The top background: starting from the backdrop, the backgrounds 3 to
    /// 0 are tried in turn.
    pub open spec fn spec_top_bg_pixel(self) -> BGPixel {
        over_top_bg(over_top_bg(over_top_bg(over_top_bg(self.bd, self.bg3), self.bg2), self.bg1), self.bg0)
    }

    pub fn get_top_layer(&self) -> (r: LayerPixel)
        ensures
            r == self.spec_top_layer(),
    {
        let mut top = LayerPixel::BG(self.bd);
        top = Self::pick(top, match self.bg3 { Some(p) => Some(LayerPixel::BG(p)), None => None });
        top = Self::pick(top, match self.bg2 { Some(p) => Some(LayerPixel::BG(p)), None => None });
        top = Self::pick(top, match self.bg1 { Some(p) => Some(LayerPixel::BG(p)), None => None });
        top = Self::pick(top, match self.bg0 { Some(p) => Some(LayerPixel::BG(p)), None => None });
        Self::pick(top, match self.obj { Some(p) => Some(LayerPixel::OBJ(p)), None => None })
    }

    fn pick(top: LayerPixel, new: Option<LayerPixel>) -> (r: LayerPixel)
        ensures
            r == over_top(top, new),
    {
        match new {
            Some(pixel) => {
                if pixel.priority() <= top.priority() && pixel.pixel().is_some() {
                    pixel
                } else {
                    top
                }
            },
            None => top,
        }
    }

    pub fn get_top_bg_pixel(&self) -> (r: BGPixel)
        ensures
            r == self.spec_top_bg_pixel(),
    {
        let mut top = self.bd;
        top = Self::pick_bg(top, self.bg3);
        top = Self::pick_bg(top, self.bg2);
        top = Self::pick_bg(top, self.bg1);
        Self::pick_bg(top, self.bg0)
    }

    fn pick_bg(top: BGPixel, new: Option<BGPixel>) -> (r: BGPixel)
        ensures
            r == over_top_bg(top, new),
    {
        match new {
            Some(pixel) => {
                if pixel.priority <= top.priority {
                    pixel
                } else {
                    top
                }
            },
            None => top,
        }
    }
}

/// The colour of pixel (`px`, `py`) of the tile at map position (`tx`,
/// `ty`) of a tiled background: tiles of 16 colours show as blue, colour 0
/// of the others is transparent.
pub open spec fn bg_tile_pixel(
    vram: Seq<u8>,
    palette: Seq<u8>,
    bgcnt: BGCnt,
    tx: usize,
    ty: usize,
    px: int,
    py: int,
) -> Option<RGBComponents> {
    let entry = bg_entry_at(vram, bg_entry_address(bgcnt, ty, tx));
    if (bgcnt.0 >> 7u16) & 1u16 == 0 {
        Some(RGBComponents { r: 0, g: 0, b: 0xFF })
    } else {
        let index = vram[bg_tile_address(bgcnt, entry) + py * 8 + px] as usize;
        if index == 0 {
            None
        } else {
            Some(palette_color(palette, index, 0, 1))
        }
    }
}

/// The pixel at (`x`, `y`) of a background: in mode 2 the pixel of its tile
/// with the background's priority; in the other modes nothing, at the
/// lowest priority.
pub open spec fn spec_background_pixel(x: i32, y: i32, bgcnt: BGCnt, memory: GBAMemory, bg_mode: u16) -> BGPixel {
    if bg_mode == 2 {
        BGPixel {
            priority: bgcnt.0 & 0b11u16,
            pixel: bg_tile_pixel(
                memory.vram.memory@,
                memory.pallete_ram.memory@.subrange(0, 0x200),
                bgcnt,
                (x / 8) as usize,
                (y / 8) as usize,
                (x % 8) as int,
                (y % 8) as int,
            ),
        }
    } else {
        BGPixel { priority: 3, pixel: None }
    }
}

/// Whether the pixel at (`x`, `y`) of a background can be read: the
/// palette memory holds a full palette and, in mode 2, the point is on the
/// screen and its screen entry and tile lie inside video memory.
pub open spec fn background_pixel_ok(x: i32, y: i32, bgcnt: BGCnt, memory: GBAMemory, bg_mode: u16) -> bool {
    let vram = memory.vram.memory@;
    &&& memory.pallete_ram.memory@.len() >= 0x200
    &&& bg_mode == 2 ==> {
        &&& x >= 0 && y >= 0
        &&& bg_entry_address(bgcnt, (y / 8) as usize, (x / 8) as usize) + 2 <= vram.len()
        &&& bg_tile_address(bgcnt, bg_entry_at(vram, bg_entry_address(bgcnt, (y / 8) as usize, (x / 8) as usize)))
            + tile_bytes((bgcnt.0 >> 7u16) & 1u16 == 0) <= vram.len()
    }
}

/// The first 512 bytes of `source`.
fn palette_bytes(source: &Vec<u8>) -> (r: [u8; 0x200])
    requires
        source@.len() >= 0x200,
    ensures
        r@ == source@.subrange(0, 0x200),
{
    let mut out = [0u8; 0x200];
    let mut i: usize = 0;
    while i < 0x200
        invariant
            i <= 0x200,
            source@.len() >= 0x200,
            out@.len() == 0x200,
            forall|j: int| 0 <= j < i ==> out@[j] == source@[j],
        decreases 0x200 - i,
    {
        out[i] = source[i];
        i = i + 1;
    }
    assert(out@ =~= source@.subrange(0, 0x200));
    out
}

impl Layers {
    /// The pixels at (`x`, `y`) of the layers that `context` enables, with
    /// the object pixel `obj`.
    pub fn get_enabled_layers(
        x: i32,
        y: i32,
        memory: &GBAMemory,
        obj: Option<OBJPixel>,
        bg_mode: u16,
        context: &DisplayContext,
    ) -> (r: Self)
        requires
            context.bg0_enabled ==> background_pixel_ok(x, y, BGCnt(memory.io_value(BG0CNT)), *memory, bg_mode),
            context.bg1_enabled ==> background_pixel_ok(x, y, BGCnt(memory.io_value(BG1CNT)), *memory, bg_mode),
            context.bg2_enabled ==> background_pixel_ok(x, y, BGCnt(memory.io_value(BG2CNT)), *memory, bg_mode),
            context.bg3_enabled ==> background_pixel_ok(x, y, BGCnt(memory.io_value(BG3CNT)), *memory, bg_mode),
        ensures
            r.bg0 == (if context.bg0_enabled {
                Some(spec_background_pixel(x, y, BGCnt(memory.io_value(BG0CNT)), *memory, bg_mode))
            } else {
                None
            }),
            r.bg1 == (if context.bg1_enabled {
                Some(spec_background_pixel(x, y, BGCnt(memory.io_value(BG1CNT)), *memory, bg_mode))
            } else {
                None
            }),
            r.bg2 == (if context.bg2_enabled {
                Some(spec_background_pixel(x, y, BGCnt(memory.io_value(BG2CNT)), *memory, bg_mode))
            } else {
                None
            }),
            r.bg3 == (if context.bg3_enabled {
                Some(spec_background_pixel(x, y, BGCnt(memory.io_value(BG3CNT)), *memory, bg_mode))
            } else {
                None
            }),
            r.obj == (if context.obj_enabled {
                obj
            } else {
                None
            }),
            r.bd == spec_backdrop(),
    {
        let mut layers = Layers::default();
        if context.bg0_enabled {
            let bgcnt = BGCnt(memory.io_load(BG0CNT));
            layers.bg0 = Some(Self::get_background_pixel(x, y, bgcnt, memory, bg_mode));
        }
        if context.bg1_enabled {
            let bgcnt = BGCnt(memory.io_load(BG1CNT));
            layers.bg1 = Some(Self::get_background_pixel(x, y, bgcnt, memory, bg_mode));
        }
        if context.bg2_enabled {
            let bgcnt = BGCnt(memory.io_load(BG2CNT));
            layers.bg2 = Some(Self::get_background_pixel(x, y, bgcnt, memory, bg_mode));
        }
        if context.bg3_enabled {
            let bgcnt = BGCnt(memory.io_load(BG3CNT));
            layers.bg3 = Some(Self::get_background_pixel(x, y, bgcnt, memory, bg_mode));
        }
        if context.obj_enabled {
            layers.obj = obj;
        }
        layers
    }

    /// The pixel at (`x`, `y`) of the background that `bgcnt` controls.
    pub fn get_background_pixel(x: i32, y: i32, bgcnt: BGCnt, memory: &GBAMemory, bg_mode: u16) -> (r: BGPixel)
        requires
            background_pixel_ok(x, y, bgcnt, *memory, bg_mode),
        ensures
            r == spec_background_pixel(x, y, bgcnt, *memory, bg_mode),
    {
        let pallete_region = palette_bytes(&memory.pallete_ram.memory);
        let pallete = BGPalleteData(&pallete_region);
        if bg_mode != 2 {
            return BGPixel { priority: 3, pixel: None };
        }
        let tile_x = x / 8;
        let tile_y = y / 8;
        let pixel_x = x % 8;
        let pixel_y = y % 8;
        let tile = Tile::get_tile_relative_bg(memory, &bgcnt, tile_y as usize, tile_x as usize);
        proof {
            if tile is EightBit {
                assert(crate::graphics::pallete::tile_pixel_index(tile, pixel_x as usize, pixel_y as usize) < 256);
            }
        }
        BGPixel { priority: bgcnt.priority(), pixel: pallete.get_pixel_from_tile(&tile, pixel_x as usize, pixel_y as usize) }
    }
}

} // verus!
