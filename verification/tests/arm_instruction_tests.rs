use gba_emulator::arm7tdmi::arm::alu::{ArithmeticInstruction, DataProcessingInstruction, LogicalInstruction, Shift, ShiftType};
use gba_emulator::arm7tdmi::cpsr::CPUMode;
use gba_emulator::arm7tdmi::cpu::{CPU, LINK_REGISTER};
use gba_emulator::arm7tdmi::instruction_table::Operand;
use gba_emulator::memory::memory::GBAMemory;

#[test]
fn able_to_execute_data_processing_instruction() {
    let mut cpu = CPU::new();
    let mut memory = GBAMemory::new();

    cpu.set_register(3, 5);
    cpu.set_register(2, 5);
    cpu.execute_data_processing_instruction(
        &mut memory,
        DataProcessingInstruction::Arithmetic(
            ArithmeticInstruction::Add,
            Some(1),
            3,
            Operand::Register(2),
            Shift(ShiftType::LSL, Operand::Immediate(0)),
            true,
        ),
    );

    assert_eq!(cpu.get_register(1), 10);
}

#[test]
fn asr_32_clears_operand() {
    let mut cpu = CPU::new();
    let mut memory = GBAMemory::new();
    cpu.set_register(2, 0x0);
    cpu.set_register(3, 0xFFFF);
    cpu.execute_data_processing_instruction(
        &mut memory,
        DataProcessingInstruction::Logical(
            LogicalInstruction::Eor,
            Some(1),
            Some(2),
            Operand::Register(3),
            Shift(ShiftType::ASR, Operand::Immediate(32)),
            true,
        ),
    );

    assert_eq!(cpu.get_register(1), 0);
}

#[test]
fn branch_ends_up_at_correct_address() {
    let mut cpu = CPU::new();
    let mut memory = GBAMemory::new();

    cpu.prefetch[0] = Some(0xea000002); // b 0x10
    cpu.set_pc(4);

    let expected_destination = 0x10 + 0x8;
    cpu.execute_cpu_cycle(&mut memory);
    cpu.execute_cpu_cycle(&mut memory);

    assert_eq!(cpu.get_pc(), expected_destination);
}

#[test]
fn branch_can_go_backwards() {
    let mut cpu = CPU::new();
    let mut memory = GBAMemory::new();

    cpu.prefetch[0] = Some(0xeafffffa); // b 0x0
    cpu.prefetch[1] = Some(0xe1a00000);

    cpu.set_pc(0x14);

    let expected_destination = 0x8;

    cpu.execute_cpu_cycle(&mut memory);
    cpu.execute_cpu_cycle(&mut memory);

    assert_eq!(cpu.get_pc(), expected_destination);
}

#[test]
fn branch_with_link_stores_the_instruction_correctly() {
    let mut cpu = CPU::new();
    let mut memory = GBAMemory::new();

    cpu.prefetch[0] = Some(0xebfffffa); // b 0
    cpu.set_pc(0x14);

    let expected_destination = 0x8;

    cpu.execute_cpu_cycle(&mut memory);
    cpu.execute_cpu_cycle(&mut memory);

    assert!(cpu.get_pc() == expected_destination);
    assert!(cpu.get_register(LINK_REGISTER) == 0x14);
}

#[test]
fn software_interrupt_goes_to_the_correct_interrupt_vec() {
    let mut cpu = CPU::new();
    let mut memory = GBAMemory::new();
    cpu.set_mode(CPUMode::USER);
    cpu.set_pc(0xF8);

    cpu.prefetch[1] = Some(0xef000000); // SWI
    cpu.execute_cpu_cycle(&mut memory);
    assert_eq!(cpu.get_pc(), 0x10);
    assert!(cpu.get_cpu_mode() == CPUMode::SVC);
    assert_eq!(cpu.get_register(LINK_REGISTER), 0xF4);
}

#[test]
fn swap_instruction_should_store_and_load_at_the_same_time() {
    let mut cpu = CPU::new();
    let mut memory = GBAMemory::new();

    cpu.set_register(1, 0x3000200);
    cpu.set_register(3, 10);
    memory.writeu32(0x3000200, 5);

    cpu.prefetch[0] = Some(0xe1014093); // swp r4, r3, [r1]

    cpu.execute_cpu_cycle(&mut memory);
    cpu.execute_cpu_cycle(&mut memory);

    assert_eq!(cpu.get_register(4), 5);
    assert_eq!(memory.readu32(0x3000200).data, 10);
}

#[test]
fn swap_instruction_should_work_with_equal_rn_and_rm() {
    let mut cpu = CPU::new();
    let mut memory = GBAMemory::new();

    let address = 0x3000200;

    cpu.set_register(1, address);
    memory.writeu32(address as usize, 5);

    cpu.prefetch[0] = Some(0xe1014091); // swp r4, r1, [r1]

    cpu.execute_cpu_cycle(&mut memory);
    cpu.execute_cpu_cycle(&mut memory);

    assert_eq!(cpu.get_register(4), 5);
    assert_eq!(memory.readu32(0x3000200).data, 0x3000200);
}

#[test]
fn swap_should_work_with_equal_rm_and_rd() {
    let mut cpu = CPU::new();
    let mut memory = GBAMemory::new();

    let address = 0x3000200;

    cpu.set_register(4, 15);

    cpu.set_register(1, address);
    memory.writeu32(address as usize, 5);

    cpu.prefetch[0] = Some(0xe1014094); // swp r4, r4, [r1]

    cpu.execute_cpu_cycle(&mut memory);
    cpu.execute_cpu_cycle(&mut memory);

    assert_eq!(cpu.get_register(4), 5);
    assert_eq!(memory.readu32(0x3000200).data, 15);
}

#[test]
fn swpb_should_only_store_and_load_a_byte_and_clear_upper_rd() {
    let mut cpu = CPU::new();
    let mut memory = GBAMemory::new();

    let address = 0x3000200;

    cpu.set_register(3, 0x1234_FABC);
    cpu.set_register(4, 0xFFFF_FFFF);

    cpu.set_register(1, address);
    memory.writeu32(address as usize, 0x7890_DD12);

    cpu.prefetch[0] = Some(0xe1414093); // swpb r4, r3, [r1]

    cpu.execute_cpu_cycle(&mut memory);
    cpu.execute_cpu_cycle(&mut memory);

    assert_eq!(cpu.get_register(4), 0x12);
    assert_eq!(memory.read(0x3000200).data, 0xBC);
}
