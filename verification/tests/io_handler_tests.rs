use gba_emulator::memory::io_handlers::{
    DISPCNT, DISPSTAT, IE, IF, IME, KEYINPUT, POSTFLG, HALTCNT, SOUNDBIAS,
};
use gba_emulator::memory::memory::{CPUCallbacks, GBAMemory, MemoryError};

#[test]
fn test_regular_read_io_8() {
    let cases: Vec<(usize, u16, u8)> = vec![
        (DISPCNT, 0xAB, 0xAB),
        (DISPCNT + 1, 0xFFAB, 0xFF),
        (IME, 0xFFFF, 0x1),
        (IME, 0xFFFE, 0x0),
        (POSTFLG, 0xFFFF, 0x01),
        (HALTCNT, 0xFFFF, 0x80),
        (IE, 0xFFFE, 0xFE),
        (IE + 1, 0xCDFE, 0x0D),
    ];
    for (address, write_value, expected_value) in cases {
        let mut memory = GBAMemory::new();
        memory.io_store(address, write_value);
        assert_eq!(memory.io_readu8(address).unwrap(), expected_value);
    }
}

#[test]
fn test_regular_read_io_16() {
    let cases: Vec<(usize, u16, u16)> = vec![
        (DISPCNT, 0xAB, 0xAB),
        (DISPCNT, 0xFFFF, 0xFFFF),
        (IME, 0xFFFF, 0x1),
        (IME, 0xFFFE, 0x0),
        (POSTFLG, 0xFFFF, 0x8001),
        (HALTCNT, 0xFFFF, 0x8001),
        (IE, 0xFFFE, 0x3FFE),
        (DISPSTAT, 0xFFFF, 0xFF3F),
        (KEYINPUT, 0x3FF, 0x3FF),
    ];
    for (address, write_value, expected_value) in cases {
        let mut memory = GBAMemory::new();
        memory.io_store(address, write_value);
        assert_eq!(memory.io_readu16(address).unwrap(), expected_value);
    }
}

#[test]
fn test_regular_read_io_32() {
    let cases: Vec<(usize, u32, u32)> = vec![
        (DISPCNT, 0xABCDEFAB, 0xEFAB),
        (DISPCNT, 0xFFFF, 0xFFFF),
        (IME, 0xFFFF, 0x1),
        (IME, 0xFFFE, 0x0),
        (POSTFLG, 0xFFFF, 0x8001),
        (HALTCNT, 0xFFFF, 0x8001),
        (IE, 0xABCDFFFE, 0x2BCD3FFE),
    ];
    for (address, write_value, expected_value) in cases {
        let mut memory = GBAMemory::new();
        memory.io_store(address, (write_value & 0xFFFF) as u16);
        memory.io_store(address + 2, ((write_value >> 16) & 0xFFFF) as u16);
        assert_eq!(memory.io_readu32(address).unwrap(), expected_value);
    }
}

#[test]
fn test_regular_write_io16() {
    let cases: Vec<(usize, u16, u16)> = vec![(DISPCNT, 0xFFFF, 0xFFFF), (DISPSTAT, 0xFFFF, 0xFF38)];
    for (address, write_value, expected_value) in cases {
        let mut memory = GBAMemory::new();
        memory.io_writeu16(address, write_value).unwrap();
        assert_eq!(memory.io_load(address), expected_value);
    }
}

#[test]
fn test_1s_to_if_should_clear_interupts() {
    let cases: Vec<(u16, u16, u16)> = vec![(0x3FFF, 0x3FFF, 0), (0x3FF0, 0x0FF0, 0x3000)];
    for (if_val, write_val, expected_val) in cases {
        let mut memory = GBAMemory::new();
        memory.io_store(IF, if_val);
        memory.io_writeu16(IF, write_val).unwrap();
        assert_eq!(memory.io_load(IF), expected_val);
    }
}

#[test]
fn test_write_io8() {
    let mut memory = GBAMemory::new();
    memory.io_store(SOUNDBIAS, 0x200);
    memory.io_writeu8(SOUNDBIAS + 1, 0x42).unwrap();
    assert_eq!(memory.io_load(SOUNDBIAS), 0x4200);
}

#[test]
fn timers_reload_on_timer_enable() {
    for timer_num in 0..4usize {
        let mut memory = GBAMemory::new();
        memory.io_writeu16(0x100 + 0x4 * timer_num, 0xFF).unwrap();
        let tmcnt = memory.io_load(0x102 + 0x4 * timer_num) | (1 << 7);
        memory.io_writeu16(0x102 + 0x4 * timer_num, tmcnt).unwrap();
        assert_eq!(memory.io_readu16(0x100 + 0x4 * timer_num).unwrap(), 0xFF);
    }
}

#[test]
fn keyinput_ignores_writes() {
    let mut memory = GBAMemory::new();
    memory.io_writeu16(KEYINPUT, 0).unwrap();
    assert_eq!(memory.io_load(KEYINPUT), 0x3FF);
}

#[test]
fn enabled_interrupt_request_asks_the_cpu_to_take_it() {
    let mut memory = GBAMemory::new();
    memory.io_writeu16(IE, 1 << 3).unwrap();
    memory.io_writeu16(IME, 1).unwrap();
    memory.ppu_io_write(IF, 1 << 3);
    assert_eq!(memory.io_load(IF), 1 << 3);
    assert!(matches!(memory.cpu_commands.last(), Some(CPUCallbacks::RaiseIrq)));
}

#[test]
fn writing_haltcnt_halts_or_stops_the_cpu() {
    let mut memory = GBAMemory::new();
    memory.io_writeu8(HALTCNT, 0x00).unwrap();
    assert!(matches!(memory.cpu_commands.last(), Some(CPUCallbacks::Halt)));
    memory.io_writeu8(HALTCNT, 0x80).unwrap();
    assert_eq!(memory.cpu_commands.len(), 2);
}

#[test]
fn dispstat_write_requests_enabled_blank_interrupts() {
    let mut memory = GBAMemory::new();
    memory.ppu_io_write(DISPSTAT, (1 << 3) | 1);
    assert_eq!(memory.io_load(IF) & 0x7, 1);
}

#[test]
fn io_region_reads_through_the_register_masks() {
    let mut memory = GBAMemory::new();
    memory.writeu16(0x4000000 + DISPSTAT, 0xFFFF);
    assert_eq!(memory.readu16(0x4000000 + DISPSTAT).data, 0xFF38);
    assert_eq!(memory.read(0x4000000 + KEYINPUT).data, 0xFF);
}

#[test]
fn undefined_register_has_no_definition() {
    assert_eq!(
        GBAMemory::get_io_definition(0x350).map(|_| ()),
        Err(MemoryError::NoIODefinition(0x350))
    );
    assert!(GBAMemory::get_io_definition(DISPCNT).is_ok());
}

#[test]
fn byte_write_into_a_special_register_is_refused() {
    let mut memory = GBAMemory::new();
    memory.io_store(IF, 0x0005);
    assert_eq!(memory.masked_io_store(IF + 1, 0x00FF), Err(MemoryError::NoIODefinition(IF + 1)));
    assert_eq!(memory.io_load(IF), 0x0005);
    assert!(memory.io_writeu8(IF + 1, 0x01).is_err());
    assert!(memory.io_writeu16(IF, 0x0001).is_ok());
    assert_eq!(memory.io_load(IF), 0x0004);
    assert!(memory.io_writeu32(DISPCNT, 0x0000_0080).is_ok());
}
