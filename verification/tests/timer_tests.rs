use gba_emulator::io::timers::{Timer, Timers};
use gba_emulator::memory::io_handlers::{IE, IF, IME};
use gba_emulator::memory::memory::{CPUCallbacks, GBAMemory};

fn running(prescaler_value: u32) -> Timer {
    Timer {
        counter: 0,
        cycles: 0,
        timer_enabled: true,
        timer_irq_enable: false,
        count_up_timing: false,
        prescaler_value,
        reload_value: 0,
    }
}

#[test]
fn stopped_timer_does_not_count() {
    let mut timer = Timer::default();
    timer.prescaler_value = 1;
    assert!(!timer.increment(100, false));
    assert_eq!(timer.counter, 0);
}

#[test]
fn prescaler_divides_the_cycles() {
    let mut timer = running(256);
    assert!(!timer.increment(255, false));
    assert_eq!((timer.counter, timer.cycles), (0, 255));
    assert!(!timer.increment(2, false));
    assert_eq!((timer.counter, timer.cycles), (1, 1));
}

#[test]
fn overflow_reloads_the_counter() {
    let mut timer = running(1);
    timer.reload_value = 0xFF;
    assert!(timer.increment(0xFFFF + 1, false));
    assert_eq!(timer.counter, 0xFF + 1);
}

#[test]
fn cascading_timer_counts_overflows_and_raises_its_flag() {
    let mut timers = Timers::new();
    timers.0[0] = running(1);
    timers.set_timer_enabled(1, true);
    timers.set_count_up_timing(1, true);
    timers.set_timer_irq_enable(1, true);
    timers.set_prescalar_value(1, 1);
    let mut memory = GBAMemory::new();
    timers.tick(0xFFFF, &mut memory);
    assert_eq!(timers.read_timer(0), 0);
    assert_eq!(timers.read_timer(1), 1);
    assert_eq!(memory.io_load(IF), 0);
    timers.set_reload_value(1, 0xFFFE);
    timers.reload_timer(1);
    timers.tick(0xFFFF, &mut memory);
    assert_eq!(timers.read_timer(1), 0xFFFE);
    assert_eq!(memory.io_load(IF), 1 << 4);
}

#[test]
fn timer_zero_overflow_with_its_interrupt_enabled_requests_it() {
    let mut memory = GBAMemory::new();
    memory.ppu_io_write(IE, 1 << 3);
    memory.ppu_io_write(IME, 1);
    let mut timers = Timers::new();
    timers.0[0] = running(1);
    timers.0[0].timer_irq_enable = true;
    timers.tick(u16::MAX as u32 + 1, &mut memory);
    assert_eq!(memory.io_load(IF), 1 << 3);
    assert_eq!(memory.cpu_commands.get(0), Some(&CPUCallbacks::RaiseIrq));
}
