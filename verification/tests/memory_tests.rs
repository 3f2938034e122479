use gba_emulator::memory::memory::GBAMemory;

#[test]
fn can_writeu32() {
    let mut memory = GBAMemory::new();
    let address = 0x2000004;
    let value = 0x12345678;
    memory.writeu32(address, value);

    let readu32 = memory.readu32(address).data;
    assert_eq!(readu32, value);

    let readu16 = memory.readu16(address).data;
    assert_eq!(readu16, 0x5678);
    let readu16 = memory.readu16(address + 2).data;
    assert_eq!(readu16, 0x1234);

    let read = memory.read(address).data;
    assert_eq!(read, 0x78);
    let read = memory.read(address + 2).data;
    assert_eq!(read, 0x34);

    assert_eq!(memory.exwram.memory[0x4], 0x78);
    assert_eq!(memory.exwram.memory[0x5], 0x56);
    assert_eq!(memory.exwram.memory[0x6], 0x34);
    assert_eq!(memory.exwram.memory[0x7], 0x12);
}

#[test]
fn can_writeu16() {
    let mut memory = GBAMemory::new();
    let address = 0x2000004;
    let value = 0x1234;
    memory.writeu16(address, value);
    let readu32 = memory.readu32(address).data;
    assert_eq!(readu32, 0x1234);

    let readu16 = memory.readu16(address).data;
    assert_eq!(readu16, 0x1234);

    let read = memory.read(address).data;
    assert_eq!(read, 0x34);
    let read = memory.read(address + 1).data;
    assert_eq!(read, 0x12);

    assert_eq!(memory.exwram.memory[0x4], 0x34);
    assert_eq!(memory.exwram.memory[0x5], 0x12);
    assert_eq!(memory.exwram.memory[0x6], 0x00);
    assert_eq!(memory.exwram.memory[0x7], 0x00);
}

#[test]
fn can_writeu8() {
    let mut memory = GBAMemory::new();
    let address = 0x2000004;
    memory.write(address, 0x12);
    memory.write(address + 1, 0x34);
    memory.write(address + 2, 0x56);
    memory.write(address + 3, 0x78);

    let readu32 = memory.readu32(address).data;
    assert_eq!(readu32, 0x78563412);

    let readu16 = memory.readu16(address).data;
    assert_eq!(readu16, 0x3412);

    let read = memory.read(address).data;
    assert_eq!(read, 0x12);
    let read = memory.read(address + 1).data;
    assert_eq!(read, 0x34);

    assert_eq!(memory.exwram.memory[0x4], 0x12);
    assert_eq!(memory.exwram.memory[0x5], 0x34);
    assert_eq!(memory.exwram.memory[0x6], 0x56);
    assert_eq!(memory.exwram.memory[0x7], 0x78);
}

#[test]
fn can_writeu8_to_vram() {
    let mut memory = GBAMemory::new();
    let address = 0x6000004;
    memory.write(address, 0x12);
    memory.write(address + 1, 0x34);
    memory.write(address + 2, 0x56);
    memory.write(address + 3, 0x78);

    let readu32 = memory.readu32(address).data;
    assert_eq!(readu32, 0x78563412);

    let readu16 = memory.readu16(address).data;
    assert_eq!(readu16, 0x3412);

    let read = memory.read(address).data;
    assert_eq!(read, 0x12);
    let read = memory.read(address + 1).data;
    assert_eq!(read, 0x34);

    assert_eq!(memory.vram.memory[0x4], 0x12);
    assert_eq!(memory.vram.memory[0x5], 0x34);
    assert_eq!(memory.vram.memory[0x6], 0x56);
    assert_eq!(memory.vram.memory[0x7], 0x78);
}

#[test]
fn bios_image_reads_back_through_the_memory_map() {
    let mut memory = GBAMemory::new();
    let image: Vec<u8> = vec![0x12, 0x34, 0x56, 0x78, 0x9A];
    memory.initialize_bios(&image);
    assert_eq!(memory.readu32(0x0).data, 0x7856_3412);
    assert_eq!(memory.read(0x4).data, 0x9A);
    assert_eq!(memory.read(0x5).data, 0x00);
}

#[test]
fn rom_image_reads_back_through_the_memory_map() {
    let mut memory = GBAMemory::new();
    let image: Vec<u8> = vec![0x00, 0x00, 0xA0, 0xE3, 0xFF];
    memory.initialize_rom(&image);
    assert_eq!(memory.readu32(0x0800_0000).data, 0xE3A0_0000);
    assert_eq!(memory.readu16(0x0800_0004).data, 0x00FF);
    assert_eq!(memory.exwram.memory[0], 0);
}

#[test]
fn work_ram_repeats_through_its_region() {
    let mut memory = GBAMemory::new();
    memory.writeu32(0x0300_0010, 0xDEAD_BEEF);
    assert_eq!(memory.readu32(0x0300_8010).data, 0xDEAD_BEEF);
    assert_eq!(memory.readu16(0x0300_8012).data, 0xDEAD);

    memory.write(0x0204_0003, 0x5A);
    assert_eq!(memory.read(0x0200_0003).data, 0x5A);

    memory.writeu16(0x0700_0402, 0x1234);
    assert_eq!(memory.readu16(0x0700_0002).data, 0x1234);
}

#[test]
fn accesses_that_can_be_served() {
    let memory = GBAMemory::new();
    assert!(memory.can_access(0x0300_7FFC, 4));
    assert!(memory.can_access(0x0000_0000, 4));
    assert!(!memory.can_access(0x0100_0000, 4)); // region 1 is unused
    assert!(!memory.can_access(0x0F00_0000, 2)); // past the last region
    assert!(memory.can_access(0x0400_0000, 2)); // DISPCNT
    assert!(memory.can_access(0x0400_0350, 2)); // no register: reads as 0
    assert!(!memory.can_access(0x0400_0500, 2)); // past the register table
    assert!(GBAMemory::io_access_allowed(0x202, 2));
    assert!(!GBAMemory::io_access_allowed(0x500, 4));
}

#[test]
fn writes_to_the_bios_and_the_cartridge_are_ignored() {
    let mut memory = GBAMemory::new();
    let image: Vec<u8> = vec![0x11, 0x22, 0x33, 0x44];
    memory.initialize_bios(&image);
    memory.writeu32(0x0000_0000, 0xFFFF_FFFF);
    memory.writeu32(0x0000_5000, 0xFFFF_FFFF); // past the BIOS block
    memory.write(0x0000_9001, 0xFF);
    memory.writeu16(0x0900_0000, 0xFFFF);
    assert_eq!(memory.readu32(0x0000_0000).data, 0x4433_2211);
    assert_eq!(memory.readu16(0x0900_0000).data, 0);
}
