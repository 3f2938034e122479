use gba_emulator::arm7tdmi::cpsr::{FlagsRegister, InstructionMode};
use gba_emulator::arm7tdmi::cpu::CPU;
use gba_emulator::memory::memory::GBAMemory;

#[test]
fn should_add_two_registers_together() {
    let mut cpu = CPU::new();
    let mut memory = GBAMemory::new();
    cpu.set_instruction_mode(InstructionMode::THUMB);

    cpu.set_register(1, 20);
    cpu.set_register(2, 43);
    cpu.prefetch[0] = Some(0x1888); // adds r0, r1, r2
    cpu.execute_cpu_cycle(&mut memory);
    cpu.execute_cpu_cycle(&mut memory);

    assert_eq!(cpu.get_register(0), 63);
    assert!(cpu.get_flag(FlagsRegister::C) == 0);
    assert!(cpu.get_flag(FlagsRegister::N) == 0);
    assert!(cpu.get_flag(FlagsRegister::Z) == 0);
    assert!(cpu.get_flag(FlagsRegister::V) == 0);
}

#[test]
fn should_add_two_registers_together_and_set_n_flag() {
    let mut cpu = CPU::new();
    let mut memory = GBAMemory::new();
    cpu.set_instruction_mode(InstructionMode::THUMB);

    cpu.set_register(1, 20);
    cpu.set_register(2, (-43 as i32) as u32);
    cpu.prefetch[0] = Some(0x1888); // adds r0, r1, r2
    cpu.execute_cpu_cycle(&mut memory);
    cpu.execute_cpu_cycle(&mut memory);

    assert_eq!(cpu.get_register(0), (-23 as i32) as u32);
    assert!(cpu.get_flag(FlagsRegister::C) == 0);
    assert!(cpu.get_flag(FlagsRegister::N) == 1);
    assert!(cpu.get_flag(FlagsRegister::Z) == 0);
    assert!(cpu.get_flag(FlagsRegister::V) == 0);
}

#[test]
fn should_add_two_registers_together_and_set_z_and_c_flag() {
    let mut cpu = CPU::new();
    let mut memory = GBAMemory::new();
    cpu.set_instruction_mode(InstructionMode::THUMB);

    cpu.set_register(1, 20);
    cpu.set_register(2, (-20 as i32) as u32);
    cpu.prefetch[0] = Some(0x1888); // adds r0, r1, r2
    cpu.execute_cpu_cycle(&mut memory);
    cpu.execute_cpu_cycle(&mut memory);

    assert_eq!(cpu.get_register(0), 0);
    assert!(cpu.get_flag(FlagsRegister::C) == 1);
    assert!(cpu.get_flag(FlagsRegister::N) == 0);
    assert!(cpu.get_flag(FlagsRegister::Z) == 1);
    assert!(cpu.get_flag(FlagsRegister::V) == 0);
}

#[test]
fn should_add_two_registers_together_and_set_z_flag() {
    let mut cpu = CPU::new();
    let mut memory = GBAMemory::new();
    cpu.set_instruction_mode(InstructionMode::THUMB);

    cpu.set_register(1, 0);
    cpu.set_register(2, 0);
    cpu.prefetch[0] = Some(0x1888); // adds r0, r1, r2
    cpu.execute_cpu_cycle(&mut memory);
    cpu.execute_cpu_cycle(&mut memory);

    assert_eq!(cpu.get_register(0), 0);
    assert!(cpu.get_flag(FlagsRegister::C) == 0);
    assert!(cpu.get_flag(FlagsRegister::N) == 0);
    assert!(cpu.get_flag(FlagsRegister::Z) == 1);
    assert!(cpu.get_flag(FlagsRegister::V) == 0);
}

#[test]
fn should_add_two_registers_together_and_set_v_flag() {
    let mut cpu = CPU::new();
    let mut memory = GBAMemory::new();
    cpu.set_instruction_mode(InstructionMode::THUMB);

    cpu.set_register(1, 0x1);
    cpu.set_register(2, 0x7FFF_FFFF);
    cpu.prefetch[0] = Some(0x1888); // adds r0, r1, r2
    cpu.execute_cpu_cycle(&mut memory);
    cpu.execute_cpu_cycle(&mut memory);

    assert_eq!(cpu.get_register(0), 0x8000_0000);
    assert!(cpu.get_flag(FlagsRegister::C) == 0);
    assert!(cpu.get_flag(FlagsRegister::N) == 1);
    assert!(cpu.get_flag(FlagsRegister::Z) == 0);
    assert!(cpu.get_flag(FlagsRegister::V) == 1);
}

#[test]
fn should_add_register_and_immediate_and_set_n_flag() {
    let mut cpu = CPU::new();
    let mut memory = GBAMemory::new();
    cpu.set_instruction_mode(InstructionMode::THUMB);

    cpu.set_register(1, -10 as i32 as u32);
    cpu.prefetch[0] = Some(0x1d48); // adds r0, r1, 5
    cpu.execute_cpu_cycle(&mut memory);
    cpu.execute_cpu_cycle(&mut memory);

    assert_eq!(cpu.get_register(0), -5 as i32 as u32);
    assert!(cpu.get_flag(FlagsRegister::C) == 0);
    assert!(cpu.get_flag(FlagsRegister::N) == 1);
    assert!(cpu.get_flag(FlagsRegister::Z) == 0);
    assert!(cpu.get_flag(FlagsRegister::V) == 0);
}

#[test]
fn should_add_register_and_immediate_and_set_z_flag() {
    let mut cpu = CPU::new();
    let mut memory = GBAMemory::new();
    cpu.set_instruction_mode(InstructionMode::THUMB);

    cpu.set_register(1, -5 as i32 as u32);
    cpu.prefetch[0] = Some(0x1d48); // adds r0, r1, 5
    cpu.execute_cpu_cycle(&mut memory);
    cpu.execute_cpu_cycle(&mut memory);

    assert_eq!(cpu.get_register(0), 0 as i32 as u32);
    assert!(cpu.get_flag(FlagsRegister::C) == 1);
    assert!(cpu.get_flag(FlagsRegister::N) == 0);
    assert!(cpu.get_flag(FlagsRegister::Z) == 1);
    assert!(cpu.get_flag(FlagsRegister::V) == 0);
}

#[test]
fn should_add_register_and_immediate_and_set_v_flag() {
    let mut cpu = CPU::new();
    let mut memory = GBAMemory::new();
    cpu.set_instruction_mode(InstructionMode::THUMB);

    cpu.set_register(1, 0x7FFF_FFFF);
    cpu.prefetch[0] = Some(0x1d48); // adds r0, r1, 5
    cpu.execute_cpu_cycle(&mut memory);
    cpu.execute_cpu_cycle(&mut memory);

    assert_eq!(cpu.get_register(0), 0x8000_0004);
    assert!(cpu.get_flag(FlagsRegister::C) == 0);
    assert!(cpu.get_flag(FlagsRegister::N) == 1);
    assert!(cpu.get_flag(FlagsRegister::Z) == 0);
    assert!(cpu.get_flag(FlagsRegister::V) == 1);
}

#[test]
fn should_add_register_and_immediate_and_set_c_flag() {
    let mut cpu = CPU::new();
    let mut memory = GBAMemory::new();
    cpu.set_instruction_mode(InstructionMode::THUMB);

    cpu.set_register(1, 0xFFFF_FFFF);
    cpu.prefetch[0] = Some(0x1d48); // adds r0, r1, 5
    cpu.execute_cpu_cycle(&mut memory);
    cpu.execute_cpu_cycle(&mut memory);

    assert_eq!(cpu.get_register(0), 0x0000_0004);
    assert!(cpu.get_flag(FlagsRegister::C) == 1);
    assert!(cpu.get_flag(FlagsRegister::N) == 0);
    assert!(cpu.get_flag(FlagsRegister::Z) == 0);
    assert!(cpu.get_flag(FlagsRegister::V) == 0);
}

#[test]
fn should_sub_two_registers() {
    let mut cpu = CPU::new();
    let mut memory = GBAMemory::new();
    cpu.set_instruction_mode(InstructionMode::THUMB);

    cpu.set_register(1, 50);
    cpu.set_register(2, 20);
    cpu.prefetch[0] = Some(0x1a88); // subs r0, r1, r2
    cpu.execute_cpu_cycle(&mut memory);
    cpu.execute_cpu_cycle(&mut memory);

    assert_eq!(cpu.get_register(0), 30);
    assert!(cpu.get_flag(FlagsRegister::C) == 1);
    assert!(cpu.get_flag(FlagsRegister::N) == 0);
    assert!(cpu.get_flag(FlagsRegister::Z) == 0);
    assert!(cpu.get_flag(FlagsRegister::V) == 0);
}

#[test]
fn should_sub_two_registers_and_reset_c_flag() {
    let mut cpu = CPU::new();
    let mut memory = GBAMemory::new();
    cpu.set_instruction_mode(InstructionMode::THUMB);

    cpu.set_register(1, 25);
    cpu.set_register(2, 50);
    cpu.prefetch[0] = Some(0x1a88); // subs r0, r1, r2
    cpu.execute_cpu_cycle(&mut memory);
    cpu.execute_cpu_cycle(&mut memory);

    assert_eq!(cpu.get_register(0), -25 as i32 as u32);
    assert_eq!(cpu.get_flag(FlagsRegister::C), 0);
    assert_eq!(cpu.get_flag(FlagsRegister::N), 1);
    assert_eq!(cpu.get_flag(FlagsRegister::Z), 0);
    assert_eq!(cpu.get_flag(FlagsRegister::V), 0);
}

#[test]
fn should_left_shift_a_register_and_set_c_flag() {
    let mut cpu = CPU::new();
    let mut memory = GBAMemory::new();
    cpu.set_instruction_mode(InstructionMode::THUMB);

    cpu.set_register(1, 0x0F00_0000);
    cpu.prefetch[0] = Some(0x0148); // lsls r0, r1, 5
    cpu.execute_cpu_cycle(&mut memory);
    cpu.execute_cpu_cycle(&mut memory);

    assert_eq!(cpu.get_register(0), 0x0F00_0000 << 5);
    assert_eq!(cpu.get_flag(FlagsRegister::C), 1);
    assert_eq!(cpu.get_flag(FlagsRegister::N), 1);
    assert_eq!(cpu.get_flag(FlagsRegister::Z), 0);
}

#[test]
fn should_not_left_shift_register_and_not_change_c_flag() {
    let mut cpu = CPU::new();
    let mut memory = GBAMemory::new();
    cpu.set_instruction_mode(InstructionMode::THUMB);

    cpu.set_register(1, 0x0F00_0000);
    cpu.set_flag(FlagsRegister::C);
    cpu.prefetch[0] = Some(0x0008); // lsls r0, r1, 0
    cpu.execute_cpu_cycle(&mut memory);
    cpu.execute_cpu_cycle(&mut memory);

    assert_eq!(cpu.get_register(0), 0x0F00_0000);
    assert_eq!(cpu.get_flag(FlagsRegister::C), 1);
    assert_eq!(cpu.get_flag(FlagsRegister::N), 0);
    assert_eq!(cpu.get_flag(FlagsRegister::Z), 0);
}

#[test]
fn should_lsl_register_and_not_affect_v_flag() {
    let mut cpu = CPU::new();
    let mut memory = GBAMemory::new();
    cpu.set_instruction_mode(InstructionMode::THUMB);

    cpu.set_register(1, 0xF000_0000);
    cpu.set_flag(FlagsRegister::V);
    cpu.prefetch[0] = Some(0x0148); // lsls r0, r1, 5
    cpu.execute_cpu_cycle(&mut memory);
    cpu.execute_cpu_cycle(&mut memory);

    assert_eq!(cpu.get_register(0), 0x0);
    assert_eq!(cpu.get_flag(FlagsRegister::C), 0);
    assert_eq!(cpu.get_flag(FlagsRegister::N), 0);
    assert_eq!(cpu.get_flag(FlagsRegister::Z), 1);
    assert_eq!(cpu.get_flag(FlagsRegister::V), 1);
}

#[test]
fn should_asr_register_and_set_c_flag() {
    let mut cpu = CPU::new();
    let mut memory = GBAMemory::new();
    cpu.set_instruction_mode(InstructionMode::THUMB);

    cpu.set_register(1, 0x0000_008F);
    cpu.prefetch[0] = Some(0x1108); // asrs r0, r1, 4
    cpu.execute_cpu_cycle(&mut memory);
    cpu.execute_cpu_cycle(&mut memory);

    assert_eq!(cpu.get_register(0), 0x0000_0008);
    assert_eq!(cpu.get_flag(FlagsRegister::C), 1);
    assert_eq!(cpu.get_flag(FlagsRegister::N), 0);
    assert_eq!(cpu.get_flag(FlagsRegister::Z), 0);
}

#[test]
fn should_asr_register_and_maintain_sign() {
    let mut cpu = CPU::new();
    let mut memory = GBAMemory::new();
    cpu.set_instruction_mode(InstructionMode::THUMB);

    cpu.set_register(1, 0x8000_008F);
    cpu.prefetch[0] = Some(0x1108); // asrs r0, r1, 4
    cpu.execute_cpu_cycle(&mut memory);
    cpu.execute_cpu_cycle(&mut memory);

    assert_eq!(cpu.get_register(0), 0xF800_0008);
    assert_eq!(cpu.get_flag(FlagsRegister::C), 1);
    assert_eq!(cpu.get_flag(FlagsRegister::N), 1);
    assert_eq!(cpu.get_flag(FlagsRegister::Z), 0);
}

#[test]
fn should_asr_register_and_set_all_ones() {
    let mut cpu = CPU::new();
    let mut memory = GBAMemory::new();
    cpu.set_instruction_mode(InstructionMode::THUMB);

    cpu.set_register(1, 0x8000_0000);
    cpu.prefetch[0] = Some(0x1008); // asrs r0, r1, 32
    cpu.execute_cpu_cycle(&mut memory);
    cpu.execute_cpu_cycle(&mut memory);

    assert_eq!(cpu.get_register(0), 0xFFFF_FFFF);
    assert_eq!(cpu.get_flag(FlagsRegister::C), 1);
    assert_eq!(cpu.get_flag(FlagsRegister::N), 1);
    assert_eq!(cpu.get_flag(FlagsRegister::Z), 0);
}

#[test]
fn should_lsr_register() {
    let mut cpu = CPU::new();
    let mut memory = GBAMemory::new();
    cpu.set_instruction_mode(InstructionMode::THUMB);

    cpu.set_register(1, 0x8000_008F);
    cpu.prefetch[0] = Some(0x0a88); // lsrs r0, r1, 10
    cpu.execute_cpu_cycle(&mut memory);
    cpu.execute_cpu_cycle(&mut memory);

    assert_eq!(cpu.get_register(0), 0x8000_008F >> 10);
    assert_eq!(cpu.get_flag(FlagsRegister::C), 0);
    assert_eq!(cpu.get_flag(FlagsRegister::N), 0);
    assert_eq!(cpu.get_flag(FlagsRegister::Z), 0);
}

#[test]
fn should_lsr_register_and_clear_register() {
    let mut cpu = CPU::new();
    let mut memory = GBAMemory::new();
    cpu.set_instruction_mode(InstructionMode::THUMB);

    cpu.set_register(1, 0x8000_008F);
    cpu.prefetch[0] = Some(0x0808); // lsrs r0, r1, 32
    cpu.execute_cpu_cycle(&mut memory);
    cpu.execute_cpu_cycle(&mut memory);

    assert_eq!(cpu.get_register(0), 0);
    assert_eq!(cpu.get_flag(FlagsRegister::C), 1);
    assert_eq!(cpu.get_flag(FlagsRegister::N), 0);
    assert_eq!(cpu.get_flag(FlagsRegister::Z), 1);
}

#[test]
fn should_move_immediate_into_r0() {
    let mut cpu = CPU::new();
    let mut memory = GBAMemory::new();
    cpu.set_instruction_mode(InstructionMode::THUMB);

    cpu.prefetch[0] = Some(0x200f); // movs r0, 15
    cpu.execute_cpu_cycle(&mut memory);
    cpu.execute_cpu_cycle(&mut memory);

    assert_eq!(cpu.get_register(0), 15);
    assert_eq!(cpu.get_flag(FlagsRegister::C), 0);
    assert_eq!(cpu.get_flag(FlagsRegister::N), 0);
    assert_eq!(cpu.get_flag(FlagsRegister::Z), 0);
}

#[test]
fn should_move_immediate_into_r0_and_not_set_n_flag() {
    let mut cpu = CPU::new();
    let mut memory = GBAMemory::new();
    cpu.set_instruction_mode(InstructionMode::THUMB);

    cpu.prefetch[0] = Some(0x2096); // movs r0, 150
    cpu.execute_cpu_cycle(&mut memory);
    cpu.execute_cpu_cycle(&mut memory);

    assert_eq!(cpu.get_register(0), 150);
    assert_eq!(cpu.get_flag(FlagsRegister::C), 0);
    assert_eq!(cpu.get_flag(FlagsRegister::N), 0);
    assert_eq!(cpu.get_flag(FlagsRegister::Z), 0);
}

#[test]
fn should_move_immediate_into_r0_and_set_z_flag() {
    let mut cpu = CPU::new();
    let mut memory = GBAMemory::new();
    cpu.set_instruction_mode(InstructionMode::THUMB);

    cpu.prefetch[0] = Some(0x2000); // movs r0, 0
    cpu.execute_cpu_cycle(&mut memory);
    cpu.execute_cpu_cycle(&mut memory);

    assert_eq!(cpu.get_register(0), 0);
    assert_eq!(cpu.get_flag(FlagsRegister::C), 0);
    assert_eq!(cpu.get_flag(FlagsRegister::N), 0);
    assert_eq!(cpu.get_flag(FlagsRegister::Z), 1);
}

#[test]
fn should_sub_imm_from_r0_and_set_z_flag() {
    let mut cpu = CPU::new();
    let mut memory = GBAMemory::new();
    cpu.set_instruction_mode(InstructionMode::THUMB);

    cpu.set_register(0, 15);
    cpu.prefetch[0] = Some(0x380f); // subs r0, 15
    cpu.execute_cpu_cycle(&mut memory);
    cpu.execute_cpu_cycle(&mut memory);

    assert_eq!(cpu.get_register(0), 0);
    assert_eq!(cpu.get_flag(FlagsRegister::C), 1);
    assert_eq!(cpu.get_flag(FlagsRegister::N), 0);
    assert_eq!(cpu.get_flag(FlagsRegister::Z), 1);
}

#[test]
fn should_add_imm_to_r0_and_set_n_flag() {
    let mut cpu = CPU::new();
    let mut memory = GBAMemory::new();
    cpu.set_instruction_mode(InstructionMode::THUMB);

    cpu.set_register(0, 0x7FFF_FFFF);
    cpu.prefetch[0] = Some(0x300f); // adds r0, 15
    cpu.execute_cpu_cycle(&mut memory);
    cpu.execute_cpu_cycle(&mut memory);

    assert_eq!(cpu.get_register(0), 0x8000_000E);
    assert_eq!(cpu.get_flag(FlagsRegister::C), 0);
    assert_eq!(cpu.get_flag(FlagsRegister::N), 1);
    assert_eq!(cpu.get_flag(FlagsRegister::Z), 0);
}

#[test]
fn should_and_two_numbers_together() {
    let mut cpu = CPU::new();
    let mut memory = GBAMemory::new();
    cpu.set_instruction_mode(InstructionMode::THUMB);

    cpu.set_register(0, 0x8123_2344);
    cpu.set_register(1, 0x8000_2344);
    cpu.prefetch[0] = Some(0x4008); // ands r0, r1
    cpu.execute_cpu_cycle(&mut memory);
    cpu.execute_cpu_cycle(&mut memory);

    assert_eq!(cpu.get_register(0), 0x8000_2344);
    assert_eq!(cpu.get_flag(FlagsRegister::N), 1);
    assert_eq!(cpu.get_flag(FlagsRegister::Z), 0);
}

#[test]
fn should_eor_two_numbers_together() {
    let mut cpu = CPU::new();
    let mut memory = GBAMemory::new();
    cpu.set_instruction_mode(InstructionMode::THUMB);

    cpu.set_register(0, 0x1010_1010);
    cpu.set_register(1, 0x0101_0101);
    cpu.prefetch[0] = Some(0x4048); // eors r0, r1
    cpu.execute_cpu_cycle(&mut memory);
    cpu.execute_cpu_cycle(&mut memory);

    assert_eq!(cpu.get_register(0), 0x1111_1111);
    assert_eq!(cpu.get_flag(FlagsRegister::N), 0);
    assert_eq!(cpu.get_flag(FlagsRegister::Z), 0);
}

#[test]
fn should_lsl_rd_by_5() {
    let mut cpu = CPU::new();
    let mut memory = GBAMemory::new();
    cpu.set_instruction_mode(InstructionMode::THUMB);

    cpu.set_register(0, 0x0F11_1230);
    cpu.set_register(1, 5);
    cpu.prefetch[0] = Some(0x4088); // lsl r0, r1
    cpu.execute_cpu_cycle(&mut memory);
    cpu.execute_cpu_cycle(&mut memory);

    assert_eq!(cpu.get_register(0), 0xE222_4600);
    assert_eq!(cpu.get_flag(FlagsRegister::N), 1);
    assert_eq!(cpu.get_flag(FlagsRegister::C), 1);
    assert_eq!(cpu.get_flag(FlagsRegister::Z), 0);
}

#[test]
fn should_lsr_rd_by_0() {
    let mut cpu = CPU::new();
    let mut memory = GBAMemory::new();
    cpu.set_instruction_mode(InstructionMode::THUMB);

    cpu.set_register(0, 0x0F11_1230);
    cpu.set_register(1, 0);
    cpu.prefetch[0] = Some(0x40c8); // lsr r0, r1
    cpu.execute_cpu_cycle(&mut memory);
    cpu.execute_cpu_cycle(&mut memory);

    assert_eq!(cpu.get_register(0), 0x0F11_1230);
    assert_eq!(cpu.get_flag(FlagsRegister::N), 0);
    assert_eq!(cpu.get_flag(FlagsRegister::C), 0);
    assert_eq!(cpu.get_flag(FlagsRegister::Z), 0);
}

#[test]
fn should_add_two_regs_together_and_not_affect_flags() {
    let mut cpu = CPU::new();
    let mut memory = GBAMemory::new();
    cpu.set_instruction_mode(InstructionMode::THUMB);

    cpu.set_register(0, 20);
    cpu.set_register(11, 15);
    cpu.set_flag(FlagsRegister::N);
    cpu.prefetch[1] = Some(0x4458); // add r0, r11
    cpu.execute_cpu_cycle(&mut memory);

    assert_eq!(cpu.get_register(0), 35);
    assert_eq!(cpu.get_flag(FlagsRegister::N), 1);
    assert_eq!(cpu.get_flag(FlagsRegister::C), 0);
    assert_eq!(cpu.get_flag(FlagsRegister::Z), 0);
}

#[test]
fn should_cmp_registers_and_set_flags() {
    let mut cpu = CPU::new();
    let mut memory = GBAMemory::new();
    cpu.set_instruction_mode(InstructionMode::THUMB);

    cpu.set_register(0, 20);
    cpu.set_register(11, 20);
    cpu.set_flag(FlagsRegister::N);
    cpu.prefetch[0] = Some(0x4558); // cmp r0, r11
    cpu.execute_cpu_cycle(&mut memory);
    cpu.execute_cpu_cycle(&mut memory);

    assert_eq!(cpu.get_register(0), 20);
    assert_eq!(cpu.get_flag(FlagsRegister::N), 0);
    assert_eq!(cpu.get_flag(FlagsRegister::C), 1);
    assert_eq!(cpu.get_flag(FlagsRegister::Z), 1);
}

#[test]
fn should_mov_register() {
    let mut cpu = CPU::new();
    let mut memory = GBAMemory::new();
    cpu.set_instruction_mode(InstructionMode::THUMB);

    cpu.set_register(0, 20);
    cpu.set_register(11, 55);
    cpu.set_flag(FlagsRegister::N);
    cpu.prefetch[0] = Some(0x4658); // cmp r0, r11
    cpu.execute_cpu_cycle(&mut memory);
    cpu.execute_cpu_cycle(&mut memory);

    assert_eq!(cpu.get_register(0), 55);
}

#[test]
fn should_switch_to_arm_mode_and_align_address() {
    let mut cpu = CPU::new();
    let mut memory = GBAMemory::new();
    cpu.set_instruction_mode(InstructionMode::THUMB);

    cpu.set_register(5, 0x16);
    cpu.prefetch[0] = Some(0x4728); // bx r5
    cpu.execute_cpu_cycle(&mut memory);
    cpu.execute_cpu_cycle(&mut memory);

    assert_eq!(cpu.get_pc(), 0x1C);
    assert!(matches!(
        cpu.get_instruction_mode(),
        InstructionMode::ARM
    ));
}

#[test]
fn should_switch_to_arm_mode_when_pc_operand() {
    let mut cpu = CPU::new();
    let mut memory = GBAMemory::new();
    cpu.set_instruction_mode(InstructionMode::THUMB);

    cpu.set_pc(0x16);
    cpu.prefetch[0] = Some(0x4778); // bx r15
    cpu.execute_cpu_cycle(&mut memory);
    cpu.execute_cpu_cycle(&mut memory);

    assert_eq!(cpu.get_pc(), 0x20);
    assert!(matches!(
        cpu.get_instruction_mode(),
        InstructionMode::ARM
    ));
}

#[test]
fn should_add_12_to_pc() {
    let mut cpu = CPU::new();
    let mut memory = GBAMemory::new();
    cpu.set_instruction_mode(InstructionMode::THUMB);

    cpu.prefetch[0] = Some(0xa503); // add r5, pc, 12
    cpu.set_pc(2);
    cpu.execute_cpu_cycle(&mut memory);
    cpu.execute_cpu_cycle(&mut memory);

    assert_eq!(cpu.get_pc(), 6);
    assert_eq!(cpu.get_register(5), 16);
}

#[test]
fn should_add_16_to_sp_and_store_in_r5() {
    let mut cpu = CPU::new();
    let mut memory = GBAMemory::new();
    cpu.set_instruction_mode(InstructionMode::THUMB);

    cpu.prefetch[0] = Some(0xad04); // add r5, sp, 16
    cpu.set_sp(2);
    cpu.execute_cpu_cycle(&mut memory);
    cpu.execute_cpu_cycle(&mut memory);

    assert_eq!(cpu.get_register(5), 18);
}

#[test]
fn should_add_500_to_sp() {
    let mut cpu = CPU::new();
    let mut memory = GBAMemory::new();
    cpu.set_instruction_mode(InstructionMode::THUMB);

    cpu.prefetch[0] = Some(0xb07d); // add sp, 500
    cpu.set_sp(2);
    cpu.execute_cpu_cycle(&mut memory);
    cpu.execute_cpu_cycle(&mut memory);

    assert_eq!(cpu.get_sp(), 502);
}

#[test]
fn should_sub_500_to_sp() {
    let mut cpu = CPU::new();
    let mut memory = GBAMemory::new();
    cpu.set_instruction_mode(InstructionMode::THUMB);

    cpu.prefetch[0] = Some(0xb0fd); // add sp, 500
    cpu.set_sp(2);
    cpu.execute_cpu_cycle(&mut memory);
    cpu.execute_cpu_cycle(&mut memory);

    assert_eq!(cpu.get_sp(), (2 - 500) as i32 as u32);
}
