use gba_emulator::memory::memory::{CPUCallbacks, GBAMemory};
use gba_emulator::memory::wrappers::dma::{
    preempt_dma, DMAControl, DMATransferType, DestinationAddressControlMode, DmaCNTH, SourceAddressControlMode,
    StartTiming,
};

const DMA0CNT_H: usize = 0xBA;
const DMA1CNT_H: usize = 0xC6;
const DMA2CNT_H: usize = 0xD2;

#[test]
fn control_register_fields_decode() {
    let cnt = DmaCNTH(0b1110_0111_1100_0000);
    assert_eq!(cnt.destination_address_control(), DestinationAddressControlMode::Fixed);
    assert_eq!(cnt.source_address_control(), SourceAddressControlMode::Prohibited);
    assert!(cnt.dma_repeat());
    assert_eq!(cnt.dma_transfer_type(), DMATransferType::Bit32);
    assert!(!cnt.gamepak_drq());
    assert_eq!(cnt.start_timing(), StartTiming::HBlank);
    assert!(cnt.irq_at_end());
    assert!(cnt.dma_enabled());

    let cnt = DmaCNTH(0x0060);
    assert_eq!(cnt.destination_address_control(), DestinationAddressControlMode::IncrementReload);
    assert_eq!(cnt.source_address_control(), SourceAddressControlMode::Increment);
    assert_eq!(cnt.dma_transfer_type(), DMATransferType::Bit16);
    assert_eq!(cnt.start_timing(), StartTiming::Immediately);
    assert!(!cnt.dma_enabled());
    assert_eq!(DMATransferType::Bit16.word_size(), 2);
    assert_eq!(DMATransferType::Bit32.word_size(), 4);
}

#[test]
fn default_control_is_idle() {
    let control = DMAControl::default();
    assert_eq!(control.word_count, 0);
    assert_eq!(control.source, 0);
    assert!(!control.immediately);
}

#[test]
fn idle_channel_does_nothing() {
    let mut memory = GBAMemory::new();
    let mut control = DMAControl::default();
    assert_eq!(control.handle_dma_transfer(0, &mut memory), 0);
    assert_eq!(control, DMAControl::default());
}

#[test]
fn half_word_transfer_moves_units_then_disables_the_channel() {
    let mut memory = GBAMemory::new();
    memory.io_store(DMA0CNT_H, 0xC000); // enabled, irq at end, 16 bit, increment
    memory.writeu16(0x0200_0000, 0xBEEF);
    memory.writeu16(0x0200_0002, 0xCAFE);
    let mut control = DMAControl {
        immediately: true,
        source: 0x0200_0000,
        destination: 0x0300_0000,
        word_count: 2,
        start_destination: 0x0300_0000,
        start_word_count: 2,
    };

    let cycles = control.handle_dma_transfer(0, &mut memory);
    assert_eq!(cycles, 1 + 1 + 1 + 3);
    assert_eq!(memory.readu16(0x0300_0000).data, 0xBEEF);
    assert_eq!(control.source, 0x0200_0002);
    assert_eq!(control.destination, 0x0300_0002);
    assert_eq!(control.word_count, 1);
    assert!(control.immediately);
    assert_eq!(memory.io_load(DMA0CNT_H), 0xC000);

    control.handle_dma_transfer(0, &mut memory);
    assert_eq!(memory.readu16(0x0300_0002).data, 0xCAFE);
    assert_eq!(control.word_count, 0);
    assert!(!control.immediately);
    assert_eq!(memory.io_load(DMA0CNT_H), 0x4000);
    assert_eq!(memory.cpu_commands, vec![CPUCallbacks::RaiseIrq]);
}

#[test]
fn repeating_reload_transfer_restarts() {
    let mut memory = GBAMemory::new();
    // enabled, 32 bit, repeat, destination increment/reload, source fixed
    let cnt: u16 = 0x8000 | (1 << 10) | (1 << 9) | (3 << 5) | (2 << 7);
    memory.io_store(DMA0CNT_H + 0xC * 3, cnt);
    memory.writeu32(0x0300_0100, 0x1234_5678);
    let mut control = DMAControl {
        immediately: false,
        source: 0x0300_0100,
        destination: 0x0600_0000,
        word_count: 1,
        start_destination: 0x0600_0000,
        start_word_count: 8,
    };
    let cycles = control.handle_dma_transfer(3, &mut memory);
    assert_eq!(cycles, 1 + 1 + 2 + 1);
    assert_eq!(memory.readu32(0x0600_0000).data, 0x1234_5678);
    assert_eq!(control.source, 0x0300_0100);
    assert_eq!(control.destination, 0x0600_0000);
    assert_eq!(control.word_count, 8);
    assert_eq!(memory.io_load(DMA0CNT_H + 0xC * 3), cnt);
    assert!(memory.cpu_commands.is_empty());
}

#[test]
fn decrementing_addresses_move_down() {
    let mut memory = GBAMemory::new();
    let cnt: u16 = 0x8000 | (1 << 5) | (1 << 7);
    memory.io_store(DMA0CNT_H, cnt);
    let mut control = DMAControl {
        immediately: false,
        source: 0x0200_0010,
        destination: 0x0300_0010,
        word_count: 3,
        start_destination: 0,
        start_word_count: 0,
    };
    control.handle_dma_transfer(0, &mut memory);
    assert_eq!(control.source, 0x0200_000E);
    assert_eq!(control.destination, 0x0300_000E);
}

#[test]
fn cartridge_accesses_cost_more() {
    let mut memory = GBAMemory::new();
    memory.io_store(DMA0CNT_H, 0x8000);
    let mut control = DMAControl {
        immediately: false,
        source: 0x0900_0000,
        destination: 0x0E00_0000,
        word_count: 1,
        start_destination: 0,
        start_word_count: 0,
    };
    let cycles = control.handle_dma_transfer(0, &mut memory);
    // region 9 costs 2, SRAM 1; SRAM half-word wait 5 (region 14), ROM wait 5
    assert_eq!(cycles, 2 + 1 + 5 + 5);
}

#[test]
fn preemption_picks_the_first_ready_channel() {
    let mut memory = GBAMemory::new();
    memory.io_store(DMA1CNT_H, 0x8000); // enabled, immediately
    memory.io_store(DMA2CNT_H, 0x9000); // enabled, vblank
    assert_eq!(preempt_dma(None, &memory, StartTiming::HBlank), Some(1));
    assert_eq!(preempt_dma(Some(0), &memory, StartTiming::HBlank), Some(0));
    assert_eq!(preempt_dma(Some(1), &memory, StartTiming::VBlank), Some(1));
    assert_eq!(preempt_dma(Some(3), &memory, StartTiming::VBlank), Some(1));

    memory.io_store(DMA1CNT_H, 0x0000);
    assert_eq!(preempt_dma(None, &memory, StartTiming::VBlank), Some(2));
    assert_eq!(preempt_dma(None, &memory, StartTiming::HBlank), None);
    assert_eq!(preempt_dma(Some(2), &memory, StartTiming::HBlank), Some(2));
}
