use gba_emulator::arm7tdmi::cpu::CPU;
use gba_emulator::memory::memory::GBAMemory;

#[test]
fn ldr_should_return_data_at_specified_address() {
    let mut cpu = CPU::new();
    let mut memory = GBAMemory::new();

    let value = 0xFABCD321;
    let address: u32 = 0x3000200;

    let _res = memory.writeu32(address as usize, value);

    cpu.set_register(1, address);

    cpu.prefetch[0] = Some(0xe5912000); // ldr r2, [r1]

    cpu.execute_cpu_cycle(&mut memory);
    cpu.execute_cpu_cycle(&mut memory);

    assert_eq!(cpu.get_register(2), value);
}

#[test]
fn ldr_should_return_data_at_specified_address_plus_offset() {
    let mut cpu = CPU::new();
    let mut memory = GBAMemory::new();

    let value = 0xFABCD321;
    let address: u32 = 0x3000200;

    let _res = memory.writeu32(address as usize + 8, value);

    cpu.set_register(1, address);

    cpu.prefetch[0] = Some(0xe5912008); // ldr r2, [r1, 8]

    cpu.execute_cpu_cycle(&mut memory);
    cpu.execute_cpu_cycle(&mut memory);

    assert_eq!(cpu.get_register(2), value);
}

#[test]
fn ldr_should_return_data_at_specified_address_minus_offset() {
    let mut cpu = CPU::new();
    let mut memory = GBAMemory::new();

    let value = 0xFABCD321;
    let address: u32 = 0x3000208;

    let _res = memory.writeu32(address as usize - 8, value);

    cpu.set_register(1, address);

    cpu.prefetch[0] = Some(0xe5112008); // ldr r2, [r1, -8]

    cpu.execute_cpu_cycle(&mut memory);
    cpu.execute_cpu_cycle(&mut memory);

    assert_eq!(cpu.get_register(2), value);
}

#[test]
fn ldr_should_return_data_at_lsl_shifted_address() {
    let mut cpu = CPU::new();
    let mut memory = GBAMemory::new();

    let value = 0xFABCD321;
    let address: u32 = 0x3000200;

    let _res = memory.writeu32(address as usize + 8, value);

    cpu.set_register(1, address);
    cpu.set_register(3, 4);

    cpu.prefetch[0] = Some(0xe7912083); //  ldr r2, [r1, r3, lsl 1]

    cpu.execute_cpu_cycle(&mut memory);
    cpu.execute_cpu_cycle(&mut memory);

    assert_eq!(cpu.get_register(2), value);
}

#[test]
fn ldr_should_return_a_byte_at_address() {
    let mut cpu = CPU::new();
    let mut memory = GBAMemory::new();

    let value = 0xFABCD321;
    let address: u32 = 0x3000200;

    let _res = memory.writeu32(address as usize, value);

    cpu.set_register(1, address);

    cpu.prefetch[0] = Some(0xe5d12000); //  ldrb r2, [r1]

    cpu.execute_cpu_cycle(&mut memory);
    cpu.execute_cpu_cycle(&mut memory);

    assert_eq!(cpu.get_register(2), value & 0xFF);

    cpu.prefetch[0] = Some(0xe5d12001); //  ldrb r2, [r1, 1]

    cpu.execute_cpu_cycle(&mut memory);
    cpu.execute_cpu_cycle(&mut memory);

    assert_eq!(cpu.get_register(2), (value & 0xFF00) >> 8);
}

#[test]
fn ldr_should_rotate_value_when_not_word_aligned() {
    let mut cpu = CPU::new();
    let mut memory = GBAMemory::new();

    let value = 0xFABCD321;
    let address: u32 = 0x3000202;

    let _res = memory.writeu32(0x3000200, value);

    cpu.set_register(1, address);

    cpu.prefetch[0] = Some(0xe5912000); // ldr r2, [r1]

    cpu.execute_cpu_cycle(&mut memory);
    cpu.execute_cpu_cycle(&mut memory);

    assert_eq!(cpu.get_register(2), 0xD321FABC);

    cpu.set_register(1, 0x3000203);

    cpu.prefetch[0] = Some(0xe5912000); // ldr r2, [r1]

    cpu.execute_cpu_cycle(&mut memory);
    cpu.execute_cpu_cycle(&mut memory);
    assert_eq!(cpu.get_register(2), 0xBCD321FA);
}

#[test]
fn ldr_should_writeback_when_post_indexed() {
    let mut cpu = CPU::new();
    let mut memory = GBAMemory::new();

    let value = 0xFABCD321;
    let address: u32 = 0x3000200;

    let _res = memory.writeu32(address as usize, value);

    cpu.set_register(1, address);

    cpu.prefetch[0] = Some(0xe4912004); // ldr r2, [r1], 4

    cpu.execute_cpu_cycle(&mut memory);
    cpu.execute_cpu_cycle(&mut memory);

    assert_eq!(cpu.get_register(2), value);
    assert_eq!(cpu.get_register(1), address + 4);
}

#[test]
fn str_should_store_word_at_memory_address() {
    let mut cpu = CPU::new();
    let mut memory = GBAMemory::new();

    let value = 0xFABCD321;
    let address: u32 = 0x3000200;

    cpu.set_register(1, address);
    cpu.set_register(2, value);

    cpu.prefetch[0] = Some(0xe5812000); // str r2, [r1]

    cpu.execute_cpu_cycle(&mut memory);
    cpu.execute_cpu_cycle(&mut memory);

    let stored_value = memory.readu32(address as usize).data;

    assert_eq!(value, stored_value);
}

#[test]
fn str_should_store_byte_at_address() {
    let mut cpu = CPU::new();
    let mut memory = GBAMemory::new();

    let value: u8 = 0x21;
    let address: u32 = 0x3000203;

    cpu.set_register(1, address);
    cpu.set_register(2, value.into());

    cpu.prefetch[0] = Some(0xe5c12000); // strb r2, [r1]

    cpu.execute_cpu_cycle(&mut memory);
    cpu.execute_cpu_cycle(&mut memory);

    let stored_value = memory.read(address as usize).data;

    assert_eq!(value, stored_value);
}

#[test]
fn strh_should_store_hw_at_address() {
    let mut cpu = CPU::new();
    let mut memory = GBAMemory::new();

    let value: u16 = 0x21;
    let address: u32 = 0x3000200;

    cpu.set_register(1, address);
    cpu.set_register(3, value.into());

    cpu.prefetch[0] = Some(0xe1c130b0); // strh r3, [r1]

    cpu.execute_cpu_cycle(&mut memory);
    cpu.execute_cpu_cycle(&mut memory);

    let stored_value = memory.readu16(address as usize).data;

    assert_eq!(value as u16, stored_value);
}

#[test]
fn strh_should_only_store_bottom_half_of_register() {
    let mut cpu = CPU::new();
    let mut memory = GBAMemory::new();

    let value: u32 = 0x1234_5678;
    let address: u32 = 0x3000200;

    cpu.set_register(1, address);
    cpu.set_register(3, value);

    cpu.prefetch[0] = Some(0xe1c130b0); // strh r3, [r1]

    cpu.execute_cpu_cycle(&mut memory);
    cpu.execute_cpu_cycle(&mut memory);

    let stored_value = memory.readu32(address as usize).data;

    assert_eq!(value & 0x0000_FFFF, stored_value);
}

#[test]
fn ldrh_should_only_load_bottom_half_of_register() {
    let mut cpu = CPU::new();
    let mut memory = GBAMemory::new();

    let value = 0xFABCD321;
    let address: u32 = 0x3000200;

    let _res = memory.writeu32(address as usize, value);

    cpu.set_register(1, address);
    cpu.prefetch[0] = Some(0xe1d130b0); // ldrh r3, [r1]

    cpu.execute_cpu_cycle(&mut memory);
    cpu.execute_cpu_cycle(&mut memory);

    assert_eq!(cpu.get_register(3), value & 0x0000_FFFF);
}

#[test]
fn ldrsh_should_return_a_signed_hw() {
    let mut cpu = CPU::new();
    let mut memory = GBAMemory::new();

    let value = 0x0000_FABC;
    let address: u32 = 0x3000200;

    let _res = memory.writeu32(address as usize, value);

    cpu.set_register(1, address);
    cpu.prefetch[0] = Some(0xe1d130f0); // ldrsh r3, [r1]

    cpu.execute_cpu_cycle(&mut memory);
    cpu.execute_cpu_cycle(&mut memory);

    assert_eq!(cpu.get_register(3), value | 0xFFFF_0000);
}

#[test]
fn ldrsh_should_return_a_signed_byte() {
    let mut cpu = CPU::new();
    let mut memory = GBAMemory::new();

    let value = 0x0000_0081;
    let address: u32 = 0x3000200;

    let _res = memory.writeu32(address as usize, value);

    cpu.set_register(1, address);
    cpu.prefetch[0] = Some(0xe1d130d0); // ldrsb r3, [r1]

    cpu.execute_cpu_cycle(&mut memory);
    cpu.execute_cpu_cycle(&mut memory);

    assert_eq!(cpu.get_register(3), value | 0xFFFF_FF00);
}

#[test]
fn ldm_should_load_multiple_registers() {
    let mut cpu = CPU::new();
    let mut memory = GBAMemory::new();

    let value = 0x0000_0081;
    let address: u32 = 0x3000200;

    cpu.set_register(5, address);

    memory.writeu32(address as usize, value);

    memory.writeu32(address as usize + 4, 0x55);

    cpu.prefetch[0] = Some(0xe8950003); // ldmia r5, {r0, r1}

    cpu.execute_cpu_cycle(&mut memory);
    cpu.execute_cpu_cycle(&mut memory);

    assert_eq!(cpu.get_register(0), value);
    assert_eq!(cpu.get_register(1), 0x55);
}

#[test]
fn ldmib_should_load_multiple_registers_and_modify_base_register() {
    let mut cpu = CPU::new();
    let mut memory = GBAMemory::new();

    let value = 0x0000_0081;
    let address: u32 = 0x3000200;

    cpu.set_register(5, address);

    memory.writeu32(address as usize + 4, value);

    memory.writeu32(address as usize + 8, 0x55);

    cpu.prefetch[0] = Some(0xe9b500c0); // ldmib r5!, {r6, r7}

    cpu.execute_cpu_cycle(&mut memory);
    cpu.execute_cpu_cycle(&mut memory);

    assert_eq!(cpu.get_register(6), value);
    assert_eq!(cpu.get_register(7), 0x55);
    assert_eq!(cpu.get_register(5), address + 8);
}

#[test]
fn ldmda_should_load_multiple_registers_and_modify_base_register() {
    let mut cpu = CPU::new();
    let mut memory = GBAMemory::new();

    let value = 0x0000_0081;
    let address: u32 = 0x3000200;

    cpu.set_register(5, address);

    memory.writeu32(address as usize, value);

    memory.writeu32(address as usize - 4, 0x55);

    cpu.prefetch[0] = Some(0xe83500c0); // ldmda r5!, {r6, r7}

    cpu.execute_cpu_cycle(&mut memory);
    cpu.execute_cpu_cycle(&mut memory);

    assert_eq!(cpu.get_register(6), 0x55);
    assert_eq!(cpu.get_register(7), value);
    assert_eq!(cpu.get_register(5), address - 8);
}

#[test]
fn ldmdb_should_load_multiple_registers_and_modify_base_register() {
    let mut cpu = CPU::new();
    let mut memory = GBAMemory::new();

    let value = 0x0000_0081;
    let address: u32 = 0x3000200;

    cpu.set_register(5, address);

    memory.writeu32(address as usize - 4, value);

    memory.writeu32(address as usize - 8, 0x55);

    cpu.prefetch[0] = Some(0xe93500c0); // ldmdb r5!, {r6, r7}

    cpu.execute_cpu_cycle(&mut memory);
    cpu.execute_cpu_cycle(&mut memory);

    assert_eq!(cpu.get_register(6), 0x55);
    assert_eq!(cpu.get_register(7), value);
    assert_eq!(cpu.get_register(5), address - 8);
}

#[test]
fn stm_should_store_multiple_registers() {
    let mut cpu = CPU::new();
    let mut memory = GBAMemory::new();

    let address: u32 = 0x3000200;

    cpu.set_register(5, address);
    cpu.set_register(6, 123);
    cpu.set_register(7, 456);

    cpu.prefetch[0] = Some(0xe88500c0); // stm r5, {r6, r7}

    cpu.execute_cpu_cycle(&mut memory);
    cpu.execute_cpu_cycle(&mut memory);

    assert_eq!(memory.readu32(address as usize).data, 123);
    assert_eq!(memory.readu32(address as usize + 4).data, 456);
}

#[test]
fn stmib_should_store_multiple_registers_and_writeback() {
    let mut cpu = CPU::new();
    let mut memory = GBAMemory::new();

    let address: u32 = 0x3000200;

    cpu.set_register(5, address);
    cpu.set_register(6, 123);
    cpu.set_register(7, 456);

    cpu.prefetch[0] = Some(0xe9a500c0); // stmib r5!, {r6, r7}

    cpu.execute_cpu_cycle(&mut memory);
    cpu.execute_cpu_cycle(&mut memory);

    assert_eq!(memory.readu32(address as usize + 4).data, 123);
    assert_eq!(memory.readu32(address as usize + 8).data, 456);
    assert_eq!(cpu.get_register(5), address + 8);
}

#[test]
fn stmdb_should_store_multiple_registers_and_writeback() {
    let mut cpu = CPU::new();
    let mut memory = GBAMemory::new();

    let address: u32 = 0x3000200;

    cpu.set_register(5, address);
    cpu.set_register(6, 123);
    cpu.set_register(7, 456);

    cpu.prefetch[0] = Some(0xe92500c0); // stmdb r5!, {r6, r7}

    cpu.execute_cpu_cycle(&mut memory);
    cpu.execute_cpu_cycle(&mut memory);

    assert_eq!(memory.readu32((address - 4) as usize).data, 456);
    assert_eq!(memory.readu32((address - 8) as usize).data, 123);
    assert_eq!(cpu.get_register(5), address - 8);
}

#[test]
fn stmda_should_store_multiple_registers_and_writeback() {
    let mut cpu = CPU::new();
    let mut memory = GBAMemory::new();

    let address: u32 = 0x3000200;

    cpu.set_register(5, address);
    cpu.set_register(6, 123);
    cpu.set_register(7, 456);

    cpu.prefetch[0] = Some(0xe82500c0); // stmda r5!, {r6, r7}

    cpu.execute_cpu_cycle(&mut memory);
    cpu.execute_cpu_cycle(&mut memory);

    assert_eq!(memory.readu32((address) as usize).data, 456);
    assert_eq!(memory.readu32((address - 4) as usize).data, 123);
    assert_eq!(cpu.get_register(5), address - 8);
}
