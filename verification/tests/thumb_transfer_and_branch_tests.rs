use gba_emulator::arm7tdmi::cpsr::{FlagsRegister, InstructionMode};
use gba_emulator::arm7tdmi::cpu::{CPU, LINK_REGISTER};
use gba_emulator::memory::memory::GBAMemory;

#[test]
fn should_load_data_relative_to_pc() {
    let mut cpu = CPU::new();
    let mut memory = GBAMemory::new();
    cpu.set_instruction_mode(InstructionMode::THUMB);
    memory.writeu32(0x3000024, 0x55);

    cpu.set_pc(0x3000016);
    cpu.prefetch[0] = Some(0x4d03); // ldr r5, [pc, 12]
    cpu.execute_cpu_cycle(&mut memory);
    cpu.execute_cpu_cycle(&mut memory);

    assert_eq!(cpu.get_register(5), 0x55);
}

#[test]
fn should_branch_ahead() {
    let mut cpu = CPU::new();
    let mut memory = GBAMemory::new();
    cpu.set_instruction_mode(InstructionMode::THUMB);

    cpu.prefetch[0] = Some(0xd006); // beq 12
    cpu.set_pc(0x1a);
    cpu.set_flag(FlagsRegister::Z);
    cpu.execute_cpu_cycle(&mut memory);
    cpu.execute_cpu_cycle(&mut memory);

    assert_eq!(cpu.get_pc(), 0x2c);
}

#[test]
fn should_branch_behind() {
    let mut cpu = CPU::new();
    let mut memory = GBAMemory::new();
    cpu.set_instruction_mode(InstructionMode::THUMB);

    cpu.prefetch[0] = Some(0xd0f9); // beq 12
    cpu.set_pc(0x24);
    cpu.set_flag(FlagsRegister::Z);
    cpu.execute_cpu_cycle(&mut memory);
    cpu.execute_cpu_cycle(&mut memory);

    assert_eq!(cpu.get_pc(), 0x1c);
}

#[test]
fn should_set_link_register_and_branch() {
    let mut cpu = CPU::new();
    let mut memory = GBAMemory::new();
    cpu.set_instruction_mode(InstructionMode::THUMB);

    cpu.prefetch[0] = Some(0xf000); // set link_register
    cpu.set_pc(0x1a);
    cpu.execute_cpu_cycle(&mut memory);
    cpu.prefetch[0] = Some(0xf802); // bl 0x20
    cpu.execute_cpu_cycle(&mut memory);
    cpu.execute_cpu_cycle(&mut memory);

    assert_eq!(cpu.get_pc(), 0x24);
    assert_eq!(cpu.get_register(LINK_REGISTER), 0x1d);
}
