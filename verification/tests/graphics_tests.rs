use gba_emulator::graphics::background::Background;
use gba_emulator::graphics::color_effects::{color_effects_pipeline, get_blend_mode, TargetLayer};
use gba_emulator::graphics::layers::{BGPixel, DisplayContext, LayerPixel, Layers, OBJPixel};
use gba_emulator::graphics::pallete::{rgb555_to_rgb24, BGPalleteData, OBJPalleteData};
use gba_emulator::graphics::ppu::PPU;
use gba_emulator::graphics::ppu_modes::hdraw::RGBComponents;
use gba_emulator::graphics::wrappers::tile::Tile;
use gba_emulator::graphics::PixelPriority;
use gba_emulator::memory::io_handlers::{BG2CNT, BLDALPHA, BLDCNT};
use gba_emulator::memory::memory::GBAMemory;
use gba_emulator::memory::oam::{OBJMode, Oam};
use gba_emulator::memory::wrappers::bgcnt::BGCnt;
use gba_emulator::memory::wrappers::blending::{BldCnt, BlendMode};

fn rgb(r: u16, g: u16, b: u16) -> RGBComponents {
    RGBComponents { r, g, b }
}

fn bg(priority: u16, pixel: Option<RGBComponents>) -> Option<BGPixel> {
    Some(BGPixel { priority, pixel })
}

#[test]
fn bgr555_splits_into_components() {
    let c = RGBComponents::from(0x7FFF);
    assert_eq!(c, rgb(0x1F, 0x1F, 0x1F));
    let c = RGBComponents::from((3 << 10) | (2 << 5) | 1);
    assert_eq!(c, rgb(1, 2, 3));
    assert_eq!(RGBComponents::backdrop(), rgb(0x1F, 0x1F, 0x1F));
}

#[test]
fn rgb555_scales_to_24_bits() {
    assert_eq!(rgb555_to_rgb24(rgb(0x1F, 0, 0)), 0xF8_00_00);
    assert_eq!(rgb555_to_rgb24(rgb(1, 2, 3)), (8 << 16) | (16 << 8) | 24);
}

#[test]
fn object_palette_looks_up_colours() {
    let mut data = [0u8; 0x200];
    data[2] = 0x1F; // colour 1 of palette 0: red
    data[32 + 4] = 0x00;
    data[32 + 5] = 0x7C; // colour 2 of palette 1: blue
    let palette = OBJPalleteData(data);
    assert_eq!(palette.get_obj_color(0, 0, 0), None);
    assert_eq!(palette.get_obj_color(1, 0, 0), Some(rgb(0x1F, 0, 0)));
    assert_eq!(palette.get_obj_color(2, 1, 0), Some(rgb(0, 0, 0x1F)));
    assert_eq!(palette.get_obj_color(1, 0, 1), Some(rgb(0x1F, 0, 0)));

    let mut tile = [0u8; 32];
    tile[0] = 0x21; // pixel (0,0) colour 1, pixel (1,0) colour 2
    let four = Tile::FourBit { tile, pallete_num: 1 };
    assert_eq!(palette.get_pixel_from_tile(&four, 1, 0), Some(rgb(0, 0, 0x1F)));
    assert_eq!(palette.get_pixel_from_tile(&four, 2, 0), None);

    let mut tile = [0u8; 64];
    tile[9] = 1; // pixel (1,1)
    let eight = Tile::EightBit { tile };
    assert_eq!(palette.get_pixel_from_tile(&eight, 1, 1), Some(rgb(0x1F, 0, 0)));
    assert_eq!(palette.get_pixel_from_tile(&eight, 0, 0), None);
}

#[test]
fn background_palette_shows_sixteen_colour_tiles_blue() {
    let mut data = [0u8; 0x200];
    data[6] = 0xE0;
    data[7] = 0x03; // colour 3: green
    let palette = BGPalleteData(&data);
    let four = Tile::FourBit { tile: [0u8; 32], pallete_num: 0 };
    assert_eq!(palette.get_pixel_from_tile(&four, 0, 0), Some(rgb(0, 0, 0xFF)));
    let mut tile = [0u8; 64];
    tile[0] = 3;
    let eight = Tile::EightBit { tile };
    assert_eq!(palette.get_pixel_from_tile(&eight, 0, 0), Some(rgb(0, 0x1F, 0)));
    assert_eq!(palette.get_bg_color(0, 0, 1, false), None);
    assert_eq!(palette.get_bg_color(0, 0, 1, true), Some(rgb(0, 0, 0)));
}

#[test]
fn top_layer_is_the_highest_priority_pixel_with_a_colour() {
    let mut layers = Layers::default();
    assert!(matches!(layers.get_top_layer(), LayerPixel::BG(p) if p.pixel == Some(rgb(0x1F, 0x1F, 0x1F))));
    layers.bg1 = bg(1, Some(rgb(1, 1, 1)));
    layers.bg2 = bg(0, None);
    layers.bg3 = bg(2, Some(rgb(3, 3, 3)));
    assert_eq!(layers.get_top_layer().pixel(), Some(rgb(1, 1, 1)));
    layers.obj = Some(OBJPixel { priority: 1, pixel: rgb(5, 5, 5), mode: OBJMode::Normal });
    assert_eq!(layers.get_top_layer().pixel(), Some(rgb(5, 5, 5)));
    // the transparent background of priority 0 still wins the background search
    assert_eq!(layers.get_top_bg_pixel().priority, 0);
}

#[test]
fn highest_priority_background_pixel() {
    let bg3 = Some(PixelPriority { pixel: 3, priority: 1 });
    let bg2 = None;
    let bg1 = Some(PixelPriority { pixel: 1, priority: 1 });
    let bg0 = Some(PixelPriority { pixel: 0xA, priority: 2 });
    let background = Background::new(&bg3, &bg2, &bg1, &bg0);
    assert_eq!(background.get_highest_priority_pixel(), 1);
    let none = None;
    let empty = Background::new(&none, &none, &none, &none);
    assert_eq!(empty.get_highest_priority_pixel(), 0);
}

#[test]
fn blend_mode_follows_bldcnt_unless_an_object_is_semi_transparent() {
    let value: u16 = 1 << 6;
    let bldcnt = BldCnt(&value);
    let mut layers = Layers::default();
    assert!(matches!(get_blend_mode(&layers, &bldcnt), BlendMode::BldWhite));
    layers.obj = Some(OBJPixel { priority: 0, pixel: rgb(1, 1, 1), mode: OBJMode::SemiTransparent });
    assert!(matches!(get_blend_mode(&layers, &bldcnt), BlendMode::BldAlpha));
}

#[test]
fn target_layers_follow_bldcnt() {
    let mut layers = Layers::default();
    layers.bg0 = bg(0, Some(rgb(1, 0, 0)));
    layers.bg1 = bg(1, Some(rgb(0, 1, 0)));
    let value: u16 = 0b1 | (0b10 << 8) | (1 << 13);
    let bldcnt = BldCnt(&value);
    let (a, b) = TargetLayer::get_enabled_layers(&layers, &bldcnt);
    let first = a.get_target_pixel_a().unwrap();
    assert_eq!(first.pixel(), Some(rgb(1, 0, 0)));
    let second = b.get_target_pixel_b(first).unwrap();
    assert_eq!(second.pixel(), Some(rgb(0, 1, 0)));
}

#[test]
fn alpha_blends_obj_and_bg() {
    let mut memory = GBAMemory::new();
    // alpha blending, first target bg0 and obj, second target bg1
    memory.io_store(BLDCNT, (1 << 5) | 0b1_0001 | (0b10 << 8));
    memory.io_store(BLDALPHA, 8 | (8 << 8));
    let mut layers = Layers::default();
    layers.bg1 = bg(1, Some(rgb(0x10, 0x08, 0x04)));
    layers.obj = Some(OBJPixel { priority: 0, pixel: rgb(0x1F, 0x00, 0x10), mode: OBJMode::Normal });
    let c = color_effects_pipeline(&memory, layers);
    assert_eq!(c, rgb(0x0F + 0x08, 0x04, 0x08 + 0x02));
}

#[test]
fn without_blending_the_top_layer_shows() {
    let memory = GBAMemory::new();
    let mut layers = Layers::default();
    layers.bg2 = bg(1, Some(rgb(2, 4, 6)));
    assert_eq!(color_effects_pipeline(&memory, layers), rgb(2, 4, 6));
}

#[test]
fn background_pixel_comes_from_the_tile_map_in_mode_2() {
    let mut memory = GBAMemory::new();
    // BG2: 256 colours, character base 1, screen base 0
    let control: u16 = (1 << 7) | (1 << 2);
    memory.io_store(BG2CNT, control);
    // screen entry (1, 0) names tile 3
    memory.vram.memory[2] = 3;
    memory.vram.memory[3] = 0;
    // pixel (2, 1) of tile 3 is colour 5
    memory.vram.memory[0x4000 + 3 * 32 + 8 + 2] = 5;
    memory.pallete_ram.memory[10] = 0x1F;
    let pixel = Layers::get_background_pixel(8 + 2, 1, BGCnt(control), &memory, 2);
    assert_eq!(pixel.priority, 0);
    assert_eq!(pixel.pixel, Some(rgb(0x1F, 0, 0)));
    let other_mode = Layers::get_background_pixel(8 + 2, 1, BGCnt(control), &memory, 0);
    assert_eq!(other_mode.priority, 3);
    assert_eq!(other_mode.pixel, None);

    let context = DisplayContext {
        bg0_enabled: false,
        bg1_enabled: false,
        bg2_enabled: true,
        bg3_enabled: false,
        obj_enabled: false,
        color_special_effects_enabled: false,
    };
    let layers = Layers::get_enabled_layers(10, 1, &memory, None, 2, &context);
    assert_eq!(layers.bg2.unwrap().pixel, Some(rgb(0x1F, 0, 0)));
    assert!(layers.bg0.is_none() && layers.obj.is_none());
}

#[test]
fn object_tiles_come_after_the_background_tiles() {
    let mut memory = GBAMemory::new();
    memory.vram.memory[0x10000 + 6 * 32] = 0x42;
    let oam = Oam::new([0, 0, 4]);
    let tile = Tile::get_tile_relative_obj(&memory, &oam, 1, 0);
    match tile {
        Tile::FourBit { tile, pallete_num } => {
            assert_eq!(tile[0], 0x42);
            assert_eq!(pallete_num, 0);
        },
        Tile::EightBit { .. } => panic!("expected a 16-colour tile"),
    }
}

#[test]
fn tile_coordinates_split_a_point() {
    assert_eq!(PPU::get_tile_coordinates(17, 9), (2, 1, 1, 1));
    assert_eq!(PPU::get_tile_coordinates(-9, 0), (-1, 0, -1, 0));
    let mut ppu = PPU::new();
    ppu.x = 5;
    ppu.show_borders = true;
    ppu.reset();
    assert_eq!(ppu.x, 0);
    assert!(ppu.show_borders);
}
