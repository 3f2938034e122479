use gba_emulator::arm7tdmi::cpsr::{CPUMode, FlagsRegister, PSR};
use gba_emulator::arm7tdmi::cpu::CPU;
use gba_emulator::memory::memory::GBAMemory;

fn run_arm(cpu: &mut CPU, memory: &mut GBAMemory, opcode: u32) {
    cpu.prefetch[0] = Some(opcode);
    cpu.execute_cpu_cycle(memory);
    cpu.execute_cpu_cycle(memory);
}

fn flags(cpu: &CPU) -> (u32, u32, u32, u32) {
    (
        cpu.get_flag(FlagsRegister::N),
        cpu.get_flag(FlagsRegister::Z),
        cpu.get_flag(FlagsRegister::C),
        cpu.get_flag(FlagsRegister::V),
    )
}

#[test]
fn add_instruction_should_set_carry_flag() {
    let mut cpu = CPU::new();
    let mut memory = GBAMemory::new();
    cpu.set_register(2, u32::MAX);
    cpu.set_register(3, 2);
    run_arm(&mut cpu, &mut memory, 0xe0931002); // adds r1, r3, r2
    assert_eq!(cpu.get_register(1), 1);
    assert_eq!(flags(&cpu), (0, 0, 1, 0));
}

#[test]
fn add_instruction_should_set_overflow_and_carry_flags() {
    let mut cpu = CPU::new();
    let mut memory = GBAMemory::new();
    cpu.set_register(2, 0x8000_0000);
    cpu.set_register(3, 0x8000_0000);
    run_arm(&mut cpu, &mut memory, 0xe0931002);
    assert_eq!(cpu.get_register(1), 0);
    assert_eq!(flags(&cpu), (0, 1, 1, 1));
}

#[test]
fn add_instruction_should_set_n_flag() {
    let mut cpu = CPU::new();
    let mut memory = GBAMemory::new();
    cpu.set_register(2, 0x8000_0000);
    cpu.set_register(3, 0x0000_0001);
    run_arm(&mut cpu, &mut memory, 0xe0931002);
    assert_eq!(cpu.get_register(1), 0x8000_0001);
    assert_eq!(flags(&cpu), (1, 0, 0, 0));
}

#[test]
fn and_instruction_should_set_c_flag() {
    let mut cpu = CPU::new();
    let mut memory = GBAMemory::new();
    cpu.set_register(2, 0x0000_FFFF);
    cpu.set_register(3, 0x0000_0001);
    run_arm(&mut cpu, &mut memory, 0xe01312a2); // ands r1, r3, r2 lsr 5
    assert_eq!(cpu.get_register(1), 1);
    assert_eq!(flags(&cpu), (0, 0, 1, 0));
}

#[test]
fn and_instruction_should_set_n_flag() {
    let mut cpu = CPU::new();
    let mut memory = GBAMemory::new();
    cpu.set_register(2, 0x8000_FFFF);
    cpu.set_register(3, 0x8000_0001);
    run_arm(&mut cpu, &mut memory, 0xe0131002);
    assert_eq!(cpu.get_register(1), 0x8000_0001);
    assert_eq!(flags(&cpu), (1, 0, 0, 0));
}

#[test]
fn and_instruction_should_set_z_flag() {
    let mut cpu = CPU::new();
    let mut memory = GBAMemory::new();
    cpu.set_register(2, 0x8000_FFFF);
    cpu.set_register(3, 0);
    run_arm(&mut cpu, &mut memory, 0xe0131002);
    assert_eq!(cpu.get_register(1), 0);
    assert_eq!(flags(&cpu), (0, 1, 0, 0));
}

#[test]
fn orr_instruction_should_set_z_flag() {
    let mut cpu = CPU::new();
    let mut memory = GBAMemory::new();
    cpu.set_register(2, 0);
    cpu.set_register(3, 0);
    run_arm(&mut cpu, &mut memory, 0xe1931002);
    assert_eq!(cpu.get_register(1), 0);
    assert_eq!(flags(&cpu), (0, 1, 0, 0));
}

#[test]
fn orr_instruction_should_not_set_any_flags() {
    let mut cpu = CPU::new();
    let mut memory = GBAMemory::new();
    cpu.set_register(2, 0);
    cpu.set_register(3, 0);
    run_arm(&mut cpu, &mut memory, 0xe1831002);
    assert_eq!(cpu.get_register(1), 0);
    assert_eq!(flags(&cpu), (0, 0, 0, 0));
}

#[test]
fn eor_instruction_should_set_n_flag() {
    let mut cpu = CPU::new();
    let mut memory = GBAMemory::new();
    cpu.set_register(2, 0x8001_0002);
    cpu.set_register(3, 0x1000_0010);
    run_arm(&mut cpu, &mut memory, 0xe0331002);
    assert_eq!(cpu.get_register(1), 0x9001_0012);
    assert_eq!(flags(&cpu), (1, 0, 0, 0));
}

#[test]
fn teq_instruction_should_set_n_flag() {
    let mut cpu = CPU::new();
    let mut memory = GBAMemory::new();
    cpu.set_register(2, 0x8001_0002);
    cpu.set_register(3, 0x1000_0010);
    run_arm(&mut cpu, &mut memory, 0xe1330002);
    assert_eq!(flags(&cpu), (1, 0, 0, 0));
}

#[test]
fn teq_instruction_should_set_z_flag_when_equal() {
    let mut cpu = CPU::new();
    let mut memory = GBAMemory::new();
    cpu.set_register(2, 0x8001_0002);
    cpu.set_register(3, 0x8001_0002);
    run_arm(&mut cpu, &mut memory, 0xe1330002);
    assert_eq!(flags(&cpu), (0, 1, 0, 0));
}

#[test]
fn tst_instruction_should_set_z_flag_when_no_bits_match() {
    let mut cpu = CPU::new();
    let mut memory = GBAMemory::new();
    cpu.set_register(2, 0x8001_0002);
    cpu.set_register(3, 0x0110_2224);
    run_arm(&mut cpu, &mut memory, 0xe1130002);
    assert_eq!(flags(&cpu), (0, 1, 0, 0));
}

#[test]
fn bic_instruction_should_reset_all_bits() {
    let mut cpu = CPU::new();
    let mut memory = GBAMemory::new();
    cpu.set_register(3, 0x8001_0002);
    cpu.set_register(2, 0x80F1_0102);
    run_arm(&mut cpu, &mut memory, 0xe1d31002);
    assert_eq!(cpu.get_register(1), 0);
    assert_eq!(flags(&cpu), (0, 1, 0, 0));
}

#[test]
fn mov_instruction_should_set_n_flag() {
    let mut cpu = CPU::new();
    let mut memory = GBAMemory::new();
    cpu.set_register(3, 0x8001_0002);
    run_arm(&mut cpu, &mut memory, 0xe1b04003);
    assert_eq!(cpu.get_register(4), cpu.get_register(3));
    assert_eq!(cpu.get_register(4), 0x8001_0002);
    assert_eq!(flags(&cpu), (1, 0, 0, 0));
}

#[test]
fn mvn_instruction_should_set_z_flag() {
    let mut cpu = CPU::new();
    let mut memory = GBAMemory::new();
    cpu.set_register(4, 0xFFFF_FFFF);
    run_arm(&mut cpu, &mut memory, 0xe1f05004);
    assert_eq!(cpu.get_register(5), !cpu.get_register(4));
    assert_eq!(cpu.get_register(5), !0xFFFF_FFFFu32);
    assert_eq!(flags(&cpu), (0, 1, 0, 0));
}

#[test]
fn adc_instruction_should_add_2_registers_and_carry() {
    let mut cpu = CPU::new();
    let mut memory = GBAMemory::new();
    cpu.set_register(1, 25);
    cpu.set_register(2, 32);
    cpu.set_flag(FlagsRegister::C);
    run_arm(&mut cpu, &mut memory, 0xe0b14002);
    assert_eq!(cpu.get_register(4), 58);
    assert_eq!(flags(&cpu), (0, 0, 0, 0));
}

#[test]
fn adc_instruction_should_set_carry_register() {
    let mut cpu = CPU::new();
    let mut memory = GBAMemory::new();
    cpu.set_register(1, 0xFFFF_FFFF);
    cpu.set_register(2, 0);
    cpu.set_flag(FlagsRegister::C);
    run_arm(&mut cpu, &mut memory, 0xe0b14002);
    assert_eq!(cpu.get_register(4), 0);
    assert_eq!(flags(&cpu), (0, 1, 1, 0));
}

#[test]
fn adc_instruction_should_set_v_register() {
    let mut cpu = CPU::new();
    let mut memory = GBAMemory::new();
    cpu.set_register(1, 0x8000_0000);
    cpu.set_register(2, 0x8FFF_FFFF);
    cpu.set_flag(FlagsRegister::C);
    run_arm(&mut cpu, &mut memory, 0xe0b14002);
    assert_eq!(cpu.get_register(4), 0x1000_0000);
    assert_eq!(flags(&cpu), (0, 0, 1, 1));
}

#[test]
fn sub_instruction_should_set_v_flag() {
    let mut cpu = CPU::new();
    let mut memory = GBAMemory::new();
    cpu.set_register(1, 0x7FFF_FFFF);
    cpu.set_register(2, 0xFFFF_FFFF);
    run_arm(&mut cpu, &mut memory, 0xe0514002);
    assert_eq!(cpu.get_register(4), 0x8000_0000);
    assert_eq!(flags(&cpu), (1, 0, 0, 1));
}

#[test]
fn sub_instruction_should_reset_c_flag() {
    let mut cpu = CPU::new();
    let mut memory = GBAMemory::new();
    cpu.set_register(1, 5);
    cpu.set_register(2, 10);
    run_arm(&mut cpu, &mut memory, 0xe0514002);
    assert_eq!(cpu.get_register(4), 0xFFFF_FFFB);
    assert_eq!(flags(&cpu), (1, 0, 0, 0));
}

#[test]
fn sub_instruction_should_set_c_flag() {
    let mut cpu = CPU::new();
    let mut memory = GBAMemory::new();
    cpu.set_register(1, 10);
    cpu.set_register(2, 5);
    run_arm(&mut cpu, &mut memory, 0xe0514002);
    assert_eq!(cpu.get_register(4), 5);
    assert_eq!(flags(&cpu), (0, 0, 1, 0));
}

#[test]
fn register_shift_reads_the_base_four_further_on() {
    let mut cpu = CPU::new();
    let mut memory = GBAMemory::new();
    cpu.prefetch[0] = Some(0xe094131f); // adds r1, r4, r15, lsl r3
    cpu.set_register(3, 0x01);
    cpu.set_register(4, 0x10);
    cpu.set_pc(4);
    cpu.execute_cpu_cycle(&mut memory);
    cpu.execute_cpu_cycle(&mut memory);
    // base r4 read as 0x10 + 4, r15 read as 8 + 4 and shifted left by 1
    assert_eq!(cpu.get_register(1), 0x14 + (12 << 1));
    assert_eq!(flags(&cpu), (0, 0, 0, 0));
}

#[test]
fn data_processing_with_pc_as_operand1_and_register_shift_delays_pc() {
    let mut cpu = CPU::new();
    let mut memory = GBAMemory::new();
    cpu.prefetch[0] = Some(0xe09f1314); // adds r1, pc, r4, lsl r3
    cpu.set_register(3, 0x01);
    cpu.set_register(4, 0);
    let test_pc = 4;
    cpu.set_pc(test_pc);
    cpu.execute_cpu_cycle(&mut memory);
    cpu.execute_cpu_cycle(&mut memory);
    cpu.execute_cpu_cycle(&mut memory);
    assert_eq!(cpu.get_register(1), test_pc + 8);
    assert_eq!(flags(&cpu), (0, 0, 0, 0));
}

#[test]
fn data_processing_with_pc_as_destination_should_start_from_result() {
    let mut cpu = CPU::new();
    let mut memory = GBAMemory::new();
    memory.writeu32(0x3000000, 0xe25f1008);
    memory.writeu32(0x3000004, 0xe1a00000);
    memory.writeu32(0x3000008, 0xe1a00000); // nop
    memory.writeu32(0x300000C, 0xe1a00000); // nop
    memory.writeu32(0x3000010, 0xe1a00000); // nop
    memory.writeu32(0x3000014, 0xe281f000);
    cpu.set_pc(0x3000000);
    for _ in 0..8 {
        cpu.execute_cpu_cycle(&mut memory);
    }
    assert_eq!(cpu.prefetch[1], Some(0xe25f1008));
}

#[test]
fn mrs_copies_cpsr_to_register() {
    for cpsr in [0x0000_00d3u32, 0x3000_00d3] {
        let mut cpu = CPU::new();
        let mut memory = GBAMemory::new();
        cpu.set_cpsr(PSR(cpsr));
        run_arm(&mut cpu, &mut memory, 0xe10f2000);
        assert_eq!(cpu.get_register(2), cpsr);
    }
}

#[test]
fn msr_register_writes_selected_cpsr_fields() {
    let cases: [(u32, CPUMode, u32, u32); 6] = [
        (0xe129f002, CPUMode::SVC, 0x0000_00d3, 0x0000_00d3),
        (0xe129f002, CPUMode::SVC, 0x00FF_FFd3, 0x0000_00d3),
        (0xe129f002, CPUMode::SVC, 0xf0FF_FFf3, 0xf000_00d3),
        (0xe121f002, CPUMode::SVC, 0xF0FF_FFd3, 0x0000_00d3),
        (0xe128f002, CPUMode::SVC, 0xF0FF_FFFF, 0xF000_00d3),
        (0xe129f002, CPUMode::USER, 0xF0FF_FFd3, 0xF000_00d0),
    ];
    for (opcode, mode, value, expected) in cases {
        let mut cpu = CPU::new();
        let mut memory = GBAMemory::new();
        cpu.set_mode(mode);
        cpu.set_register(2, value);
        run_arm(&mut cpu, &mut memory, opcode);
        assert_eq!(cpu.get_cpsr().bits(), expected, "opcode {:#x}", opcode);
    }
}

#[test]
fn msr_register_writes_spsr() {
    let cases: [(CPUMode, u32, u32); 2] = [
        (CPUMode::SVC, 0x0000_00df, 0x0000_00df),
        (CPUMode::ABT, 0xF0FF_FFdf, 0xf000_00df),
    ];
    for (mode, value, expected) in cases {
        let mut cpu = CPU::new();
        let mut memory = GBAMemory::new();
        cpu.set_mode(mode);
        cpu.set_register(2, value);
        run_arm(&mut cpu, &mut memory, 0xe169f002);
        assert_eq!(cpu.get_current_spsr().unwrap().bits(), expected);
    }
}

#[test]
fn msr_immediate_writes_cpsr() {
    let cases: [(u32, u32); 2] = [(0xe329f0d0, 0x0000_00d0), (0xe328f20d, 0xd000_00d3)];
    for (opcode, expected) in cases {
        let mut cpu = CPU::new();
        let mut memory = GBAMemory::new();
        cpu.set_mode(CPUMode::SVC);
        run_arm(&mut cpu, &mut memory, opcode);
        assert_eq!(cpu.get_cpsr().bits(), expected, "opcode {:#x}", opcode);
    }
}

#[test]
fn mrs_copies_spsr_to_register() {
    let mut cpu = CPU::new();
    let mut memory = GBAMemory::new();
    cpu.set_mode(CPUMode::IRQ);
    cpu.set_current_spsr(PSR(0x0000_00d0));
    run_arm(&mut cpu, &mut memory, 0xe14f0000);
    assert_eq!(cpu.get_register(0), 0x0000_00d0);
}
