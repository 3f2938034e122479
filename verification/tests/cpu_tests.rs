use gba_emulator::arm7tdmi::cpsr::{CPUMode, FlagsRegister, PSR};
use gba_emulator::arm7tdmi::cpu::CPU;
use gba_emulator::arm7tdmi::interrupts::Exceptions;
use gba_emulator::memory::memory::GBAMemory;

#[test]
fn it_sets_and_resets_the_corrects_flags() {
    let mut cpu = CPU::new();

    cpu.set_flag(FlagsRegister::C);
    cpu.set_flag(FlagsRegister::N);
    cpu.set_flag(FlagsRegister::Z);
    cpu.reset_flag(FlagsRegister::Z);

    assert_eq!(cpu.cpsr.get_flag(FlagsRegister::C), true);
    assert_eq!(cpu.cpsr.get_flag(FlagsRegister::N), true);
    assert_eq!(cpu.cpsr.get_flag(FlagsRegister::Z), false);
    assert_eq!(cpu.cpsr.get_flag(FlagsRegister::V), false);

    cpu.reset_flag(FlagsRegister::C);
    assert_eq!(cpu.cpsr.get_flag(FlagsRegister::C), false);
    assert_eq!(cpu.cpsr.get_flag(FlagsRegister::N), true);
}

#[test]
fn cpu_starts_in_svc_mode() {
    let cpu = CPU::new();

    assert!(matches!(cpu.get_cpu_mode(), CPUMode::SVC));
}

#[test]
fn irq_entry_then_spsr_return_restores_the_interrupted_state() {
    let mut cpu = CPU::new();
    let mut memory = GBAMemory::new();
    cpu.set_mode(CPUMode::USER);
    cpu.set_flag(FlagsRegister::C);
    cpu.set_pc(0x0800_0010);
    let before = cpu.get_cpsr().bits();

    cpu.raise_exception(Exceptions::IRQ, &mut memory);
    assert!(matches!(cpu.get_cpu_mode(), CPUMode::IRQ));
    assert_eq!(cpu.get_current_spsr().unwrap().bits(), before);
    assert_eq!(cpu.get_register(14), 0x0800_000C);
    assert_eq!(cpu.get_pc(), 0x18 + 8);
    assert!(!cpu.get_cpsr().irq_enabled());

    cpu.pop_spsr();
    assert_eq!(cpu.get_cpsr().bits(), before);
    assert!(matches!(cpu.get_cpu_mode(), CPUMode::USER));
}

#[test]
fn banked_stack_pointer_survives_a_mode_switch() {
    let mut cpu = CPU::new();
    cpu.set_mode(CPUMode::SVC);
    cpu.set_sp(0x0300_7FE0);
    cpu.set_mode(CPUMode::IRQ);
    cpu.set_sp(0x0300_7FA0);
    cpu.set_mode(CPUMode::SVC);
    assert_eq!(cpu.get_sp(), 0x0300_7FE0);
    cpu.set_mode(CPUMode::IRQ);
    assert_eq!(cpu.get_sp(), 0x0300_7FA0);
}

#[test]
fn halted_cpu_only_counts_a_cycle() {
    let mut cpu = CPU::new();
    let mut memory = GBAMemory::new();
    cpu.prefetch[1] = Some(0xe3a01005); // mov r1, 5
    cpu.halt();
    let cycles = cpu.execute_cpu_cycle(&mut memory);
    assert_eq!(cycles, 1);
    assert_eq!(cpu.get_register(1), 0);
    assert_eq!(cpu.prefetch[1], Some(0xe3a01005));
}

#[test]
fn psr_text_lists_flags_state_and_mode() {
    assert_eq!(PSR(0xF000_00D3).to_string(), "NZCV--ASVC");
    assert_eq!(PSR(0x0000_003F).to_string(), "----IFTSYS");
    assert_eq!(PSR(0x4000_0092).to_string(), "-Z---FAIRQ");
}

#[test]
fn pipeline_refill_needs_fetchable_instructions() {
    let cpu = CPU::new();
    let memory = GBAMemory::new();
    assert!(cpu.can_refill(&memory));
    let mut cpu = CPU::new();
    cpu.set_pc(0x0100_0000);
    assert!(!cpu.can_refill(&memory));
    cpu.set_pc(0x0800_0000);
    assert!(cpu.can_refill(&memory));
}
