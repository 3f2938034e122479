use gba_emulator::arm7tdmi::cpu::CPU;
use gba_emulator::memory::memory::GBAMemory;

fn run_arm_instruction(cpu: &mut CPU, memory: &mut GBAMemory, opcode: u32) {
    cpu.prefetch[0] = Some(opcode);
    cpu.execute_cpu_cycle(memory);
    cpu.execute_cpu_cycle(memory);
}

#[test]
fn push_then_pop_restores_registers() {
    let mut cpu = CPU::new();
    let mut memory = GBAMemory::new();
    cpu.set_sp(0x0300_7F00);
    cpu.set_register(0, 0x1111_1111);
    cpu.set_register(1, 0x2222_2222);
    cpu.set_register(2, 0x3333_3333);

    run_arm_instruction(&mut cpu, &mut memory, 0xE92D_0007); // stmdb sp!, {r0-r2}
    assert_eq!(cpu.get_sp(), 0x0300_7EF4);
    assert_eq!(memory.readu32(0x0300_7EF4).data, 0x1111_1111);
    assert_eq!(memory.readu32(0x0300_7EFC).data, 0x3333_3333);

    cpu.set_register(0, 0);
    cpu.set_register(1, 0);
    cpu.set_register(2, 0);
    run_arm_instruction(&mut cpu, &mut memory, 0xE8BD_0007); // ldmia sp!, {r0-r2}

    assert_eq!(cpu.get_register(0), 0x1111_1111);
    assert_eq!(cpu.get_register(1), 0x2222_2222);
    assert_eq!(cpu.get_register(2), 0x3333_3333);
    assert_eq!(cpu.get_sp(), 0x0300_7F00);
}
