use gba_emulator::gba::GBA;
use gba_emulator::memory::memory::{CPUCallbacks, GBAMemory};
use gba_emulator::memory::wrappers::dma::DMAControl;

const DMA0CNT_H: usize = 0xBA;
const IF: usize = 0x202;

fn machine_with_bios(words: &[u32]) -> GBA {
    let mut memory = GBAMemory::new();
    let mut image: Vec<u8> = Vec::new();
    for w in words {
        image.extend_from_slice(&w.to_le_bytes());
    }
    memory.initialize_bios(&image);
    GBA::new(memory)
}

#[test]
fn new_machine_fills_the_pipeline_from_the_bios() {
    let gba = machine_with_bios(&[0xe3a01005, 0xe3a02007]);
    assert_eq!(gba.cpu.prefetch[1], Some(0xe3a01005));
    assert_eq!(gba.cpu.prefetch[0], Some(0xe3a02007));
    assert_eq!(gba.cpu.get_pc(), 8);
    assert_eq!(gba.active_dma, None);
    assert_eq!(gba.dma_controllers[2], DMAControl::default());
}

#[test]
fn step_runs_a_cpu_cycle_when_no_dma_is_active() {
    let mut gba = machine_with_bios(&[0xe3a01005, 0xe3a02007]);
    gba.step();
    assert_eq!(gba.cpu.get_register(1), 5);
    gba.step();
    assert_eq!(gba.cpu.get_register(2), 7);
}

#[test]
fn step_moves_a_dma_unit_and_then_hands_back() {
    let mut gba = machine_with_bios(&[0xe3a01005]);
    gba.memory.writeu16(0x0200_0000, 0xABCD);
    gba.memory.io_store(DMA0CNT_H, 0x8000);
    gba.dma_controllers[0] = DMAControl {
        immediately: true,
        source: 0x0200_0000,
        destination: 0x0300_0000,
        word_count: 1,
        start_destination: 0x0300_0000,
        start_word_count: 1,
    };
    gba.active_dma = Some(0);
    let cycles = gba.step();
    assert_eq!(cycles, 6);
    assert_eq!(gba.memory.readu16(0x0300_0000).data, 0xABCD);
    assert_eq!(gba.memory.io_load(DMA0CNT_H), 0x0000);
    assert_eq!(gba.active_dma, None);
    assert_eq!(gba.cpu.get_register(1), 0);
}

#[test]
fn commands_left_for_the_cpu_are_taken_and_cleared() {
    let mut gba = machine_with_bios(&[0xe3a01005]);
    gba.memory.cpu_commands.push(CPUCallbacks::RaiseIrq);
    gba.memory.cpu_commands.push(CPUCallbacks::Halt);
    gba.step();
    assert!(gba.cpu.is_halted);
    assert!(gba.cpu.interrupt_triggered);
    assert!(gba.memory.cpu_commands.is_empty());
}

#[test]
fn timer_overflow_raises_its_interrupt_flag() {
    let mut gba = machine_with_bios(&[0xe3a01005]);
    gba.memory.timers.0[0].counter = 0xFFFE;
    gba.memory.timers.0[0].prescaler_value = 1;
    gba.memory.timers.0[0].timer_enabled = true;
    gba.memory.timers.0[0].timer_irq_enable = true;
    gba.step();
    assert_eq!(gba.memory.io_load(IF) & (1 << 3), 1 << 3);
}

#[test]
fn reset_restarts_the_processor() {
    let mut gba = machine_with_bios(&[0xe3a01005]);
    gba.step();
    gba.reset();
    assert_eq!(gba.cpu.get_register(1), 0);
    assert_eq!(gba.cpu.prefetch, [None, None]);
}
