use gba_emulator::graphics::ppu::{PPUAction, PPUModes, PPU};
use gba_emulator::memory::io_handlers::{DISPSTAT, IF, VCOUNT};
use gba_emulator::memory::memory::GBAMemory;

fn run_dots(ppu: &mut PPU, memory: &mut GBAMemory, dots: u32) -> PPUAction {
    let mut last = PPUAction::Nothing;
    for _ in 0..dots {
        let action = ppu.advance_ppu(4, memory);
        if action != PPUAction::Nothing {
            last = action;
        }
    }
    last
}

#[test]
fn cycles_become_dots_four_at_a_time() {
    let mut ppu = PPU::new();
    let mut memory = GBAMemory::new();
    assert_eq!(ppu.advance_ppu(3, &mut memory), PPUAction::Nothing);
    assert_eq!((ppu.x, ppu.usable_cycles), (0, 3));
    ppu.advance_ppu(6, &mut memory);
    assert_eq!((ppu.x, ppu.usable_cycles), (2, 1));
}

#[test]
fn visible_part_of_a_line_ends_in_the_horizontal_blank() {
    let mut ppu = PPU::new();
    let mut memory = GBAMemory::new();
    memory.io_store(DISPSTAT, 0x0100); // counter match on line 2
    assert_eq!(run_dots(&mut ppu, &mut memory, 240), PPUAction::DrawLine(0));
    assert_eq!(ppu.current_mode, PPUModes::HBLANK);
    assert_eq!(memory.io_load(DISPSTAT), 0x0102);
    assert_eq!(memory.io_load(VCOUNT), 0);
    run_dots(&mut ppu, &mut memory, 68);
    assert_eq!((ppu.current_mode, ppu.x, ppu.y), (PPUModes::HDRAW, 0, 1));
    run_dots(&mut ppu, &mut memory, 308);
    assert_eq!(memory.io_load(DISPSTAT), 0x0104);
    assert_eq!(memory.io_load(VCOUNT), 2);
}

#[test]
fn vertical_blank_sets_its_flag_and_interrupt() {
    let mut ppu = PPU::new();
    let mut memory = GBAMemory::new();
    memory.io_store(DISPSTAT, 0x8); // vertical blank interrupt enabled
    assert_eq!(run_dots(&mut ppu, &mut memory, 160 * 308), PPUAction::ShowFrame);
    assert_eq!((ppu.current_mode, ppu.y), (PPUModes::VBLANK, 160));
    assert_eq!(memory.io_load(DISPSTAT), 0x9);
    assert_eq!(memory.io_load(IF) & 1, 1);
}

#[test]
fn frame_wraps_to_line_zero() {
    let mut ppu = PPU::new();
    let mut memory = GBAMemory::new();
    memory.io_store(DISPSTAT, 0x0080); // counter match on line 1
    run_dots(&mut ppu, &mut memory, 228 * 308);
    assert_eq!((ppu.current_mode, ppu.x, ppu.y), (PPUModes::HDRAW, 0, 0));
    assert_eq!(memory.io_load(DISPSTAT), 0x0080);
    assert_eq!(memory.io_load(VCOUNT), 0);
}
