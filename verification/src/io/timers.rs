use vstd::prelude::*;

use crate::memory::io_handlers::IF;
use crate::memory::io_handlers::spec_ppu_io_write;
use crate::memory::memory::{view_io, GBAMemory, MemoryView};

verus! {

/// One timer: its counter, the cycles not yet counted, whether it runs,
/// raises an interrupt on overflow or counts the previous timer's
/// overflows, the cycles per tick and the value it restarts from.
#[derive(Debug, Default, Copy, Clone)]
pub struct Timer {
    pub counter: u32,
    pub cycles: u32,
    pub timer_enabled: bool,
    pub timer_irq_enable: bool,
    pub count_up_timing: bool,
    pub prescaler_value: u32,
    pub reload_value: u32,
}

/// Whether a timer counts the previous timer's overflow rather than cycles.
pub open spec fn counts_up(t: Timer, overflow: bool) -> bool {
    t.count_up_timing && overflow
}

/// The counter after the ticks of `cpu_cycles` cycles or of the previous
/// timer's overflow, before any wrap.
pub open spec fn ticked_counter(t: Timer, cpu_cycles: u32, overflow: bool) -> int {
    if counts_up(t, overflow) {
        t.counter + 1
    } else {
        t.counter + (t.cycles + cpu_cycles) / (t.prescaler_value as int)
    }
}

/// Whether a timer can advance: the cycles per tick are not 0 when cycles
/// are counted, and no sum leaves the counters' range.
pub open spec fn increment_ok(t: Timer, cpu_cycles: u32, overflow: bool) -> bool {
    t.timer_enabled ==> {
        &&& !counts_up(t, overflow) ==> t.prescaler_value != 0 && t.cycles + cpu_cycles <= u32::MAX
        &&& ticked_counter(t, cpu_cycles, overflow) <= u32::MAX
        &&& ticked_counter(t, cpu_cycles, overflow) >= 0xFFFF ==> ticked_counter(t, cpu_cycles, overflow)
            - 0xFFFF + t.reload_value <= u32::MAX
    }
}

/// The timer after `cpu_cycles` cycles, and whether it overflowed: a timer
/// that does not run stays; one that reaches 0xFFFF restarts from its
/// reload value plus what it went past.
pub open spec fn spec_increment(t: Timer, cpu_cycles: u32, overflow: bool) -> (Timer, bool) {
    if !t.timer_enabled {
        (t, false)
    } else {
        let counter = ticked_counter(t, cpu_cycles, overflow);
        let cycles = if counts_up(t, overflow) {
            t.cycles
        } else {
            ((t.cycles + cpu_cycles) % (t.prescaler_value as int)) as u32
        };
        if counter >= 0xFFFF {
            (Timer { counter: (counter - 0xFFFF + t.reload_value) as u32, cycles: cycles, ..t }, true)
        } else {
            (Timer { counter: counter as u32, cycles: cycles, ..t }, false)
        }
    }
}

impl Timer {
    /// Advances the timer by `cpu_cycles` cycles, or by one tick when it
    /// counts up and the previous timer overflowed; returns whether it
    /// overflowed.
    pub fn increment(&mut self, cpu_cycles: u32, overflow: bool) -> (r: bool)
        requires
            increment_ok(*old(self), cpu_cycles, overflow),
        ensures
            (*final(self), r) == spec_increment(*old(self), cpu_cycles, overflow),
    {
        if !self.timer_enabled {
            return false;
        }
        if self.count_up_timing && overflow {
            self.counter = self.counter + 1;
        } else {
            self.cycles = self.cycles + cpu_cycles;
            let ticks = self.cycles / self.prescaler_value;
            self.cycles = self.cycles % self.prescaler_value;
            self.counter = self.counter + ticks;
        }
        if self.counter >= 0xFFFF {
            self.counter = self.counter - 0xFFFF;
            self.counter = self.counter + self.reload_value;
            return true;
        }
        false
    }
}

/// The four timers.
#[derive(Debug)]
pub struct Timers(pub [Timer; 4]);

/// The four timers after `cpu_cycles` cycles, each after the one before it
/// so that a timer counting up sees the previous one's overflow, and which
/// of them overflowed.
pub open spec fn spec_tick(t: Seq<Timer>, cpu_cycles: u32) -> (Seq<Timer>, Seq<bool>) {
    let s0 = spec_increment(t[0], cpu_cycles, false);
    let s1 = spec_increment(t[1], cpu_cycles, s0.1);
    let s2 = spec_increment(t[2], cpu_cycles, s1.1);
    let s3 = spec_increment(t[3], cpu_cycles, s2.1);
    (seq![s0.0, s1.0, s2.0, s3.0], seq![s0.1, s1.1, s2.1, s3.1])
}

/// Whether all four timers can advance by `cpu_cycles` cycles in turn.
pub open spec fn tick_ok(t: Seq<Timer>, cpu_cycles: u32) -> bool {
    let s0 = spec_increment(t[0], cpu_cycles, false);
    let s1 = spec_increment(t[1], cpu_cycles, s0.1);
    let s2 = spec_increment(t[2], cpu_cycles, s1.1);
    &&& increment_ok(t[0], cpu_cycles, false)
    &&& increment_ok(t[1], cpu_cycles, s0.1)
    &&& increment_ok(t[2], cpu_cycles, s1.1)
    &&& increment_ok(t[3], cpu_cycles, s2.1)
}

/// The memory after the interrupt requests of timers `0..n`: each timer
/// that overflowed with its interrupt enabled raises its flag (bit 3 + its
/// number) in IF through a privileged write, which checks the interrupts.
pub open spec fn raised_flags(v: MemoryView, t: Seq<Timer>, overflowed: Seq<bool>, n: int) -> MemoryView
    decreases n,
{
    if n <= 0 {
        v
    } else {
        let before = raised_flags(v, t, overflowed, n - 1);
        if overflowed[n - 1] && t[n - 1].timer_irq_enable {
            spec_ppu_io_write(before, IF, view_io(before, IF) | (1u16 << ((3 + n - 1) as u16)))
        } else {
            before
        }
    }
}

impl Timers {
    pub fn new() -> (r: Timers)
        ensures
            forall|i: int|
                0 <= i < 4 ==> !(#[trigger] r.0@[i]).timer_enabled && r.0@[i].counter == 0 && r.0@[i].cycles == 0
                    && !r.0@[i].timer_irq_enable && !r.0@[i].count_up_timing && r.0@[i].prescaler_value == 0
                    && r.0@[i].reload_value == 0,
    {
        let t = Timer {
            counter: 0,
            cycles: 0,
            timer_enabled: false,
            timer_irq_enable: false,
            count_up_timing: false,
            prescaler_value: 0,
            reload_value: 0,
        };
        Timers([t, t, t, t])
    }

    /// Advances the timers by `cpu_cycles` cycles and raises the timer
    /// interrupt request flag of each that overflowed with its interrupt
    /// enabled.
    pub fn tick(&mut self, cpu_cycles: u32, memory: &mut GBAMemory)
        requires
            tick_ok(old(self).0@, cpu_cycles),
            (IF >> 1) < old(memory).ioram@.len(),
        ensures
            final(self).0@ == spec_tick(old(self).0@, cpu_cycles).0,
            final(memory)@ == raised_flags(old(memory)@, old(self).0@, spec_tick(old(self).0@, cpu_cycles).1, 4),
    {
        let ghost start = self.0@;
        let ghost start_memory = *memory;
        let ghost ticked = spec_tick(start, cpu_cycles);
        let mut previous_timer_overflowed = false;
        let mut i: usize = 0;
        while i < 4
            invariant
                i <= 4,
                tick_ok(start, cpu_cycles),
                (IF >> 1) < start_memory.ioram@.len(),
                ticked == spec_tick(start, cpu_cycles),
                self.0@.len() == 4,
                forall|j: int| 0 <= j < i ==> self.0@[j] == ticked.0[j],
                forall|j: int| i <= j < 4 ==> self.0@[j] == start[j],
                i > 0 ==> previous_timer_overflowed == ticked.1[i - 1],
                i == 0 ==> !previous_timer_overflowed,
                memory@ == raised_flags(start_memory@, start, ticked.1, i as int),
                memory.ioram@.len() == start_memory.ioram@.len(),
            decreases 4 - i,
        {
            let mut timer = self.0[i];
            previous_timer_overflowed = timer.increment(cpu_cycles, previous_timer_overflowed);
            self.0[i] = timer;
            if previous_timer_overflowed && timer.timer_irq_enable {
                let if_flag = memory.io_load(IF);
                let shift: u16 = 3 + i as u16;
                proof {
                    crate::bits::lemma_offset_bits(IF);
                    crate::memory::io_handlers::lemma_ppu_io_write_keeps_len(memory@, IF, if_flag | (1u16 << shift));
                }
                memory.ppu_io_write(IF, if_flag | (1u16 << shift));
            }
            i = i + 1;
        }
        assert(self.0@ =~= ticked.0);
    }
}

impl Timers {
    /// The counter of timer `timer_num`.
    pub fn read_timer(&self, timer_num: usize) -> (r: u32)
        requires
            timer_num < 4,
        ensures
            r == self.0@[timer_num as int].counter,
    {
        self.0[timer_num].counter
    }

    /// Restarts timer `timer_num` from its reload value.
    pub fn reload_timer(&mut self, timer_num: usize)
        requires
            timer_num < 4,
        ensures
            final(self).0@ == old(self).0@.update(
                timer_num as int,
                Timer { counter: old(self).0@[timer_num as int].reload_value, ..old(self).0@[timer_num as int] },
            ),
    {
        let mut t = self.0[timer_num];
        t.counter = t.reload_value;
        self.0[timer_num] = t;
    }

    /// Sets the value it restarts from of timer `timer_num`.
    pub fn set_reload_value(&mut self, timer_num: usize, reload_value: u32)
        requires
            timer_num < 4,
        ensures
            final(self).0@ == old(self).0@.update(
                timer_num as int,
                Timer { reload_value: reload_value, ..old(self).0@[timer_num as int] },
            ),
    {
        let mut t = self.0[timer_num];
        t.reload_value = reload_value;
        self.0[timer_num] = t;
    }

    /// Sets whether it runs of timer `timer_num`.
    pub fn set_timer_enabled(&mut self, timer_num: usize, enabled: bool)
        requires
            timer_num < 4,
        ensures
            final(self).0@ == old(self).0@.update(
                timer_num as int,
                Timer { timer_enabled: enabled, ..old(self).0@[timer_num as int] },
            ),
    {
        let mut t = self.0[timer_num];
        t.timer_enabled = enabled;
        self.0[timer_num] = t;
    }

    /// Sets whether it counts the previous timer's overflows of timer `timer_num`.
    pub fn set_count_up_timing(&mut self, timer_num: usize, enabled: bool)
        requires
            timer_num < 4,
        ensures
            final(self).0@ == old(self).0@.update(
                timer_num as int,
                Timer { count_up_timing: enabled, ..old(self).0@[timer_num as int] },
            ),
    {
        let mut t = self.0[timer_num];
        t.count_up_timing = enabled;
        self.0[timer_num] = t;
    }

    /// Sets its cycles per tick of timer `timer_num`.
    pub fn set_prescalar_value(&mut self, timer_num: usize, prescalar_value: u32)
        requires
            timer_num < 4,
        ensures
            final(self).0@ == old(self).0@.update(
                timer_num as int,
                Timer { prescaler_value: prescalar_value, ..old(self).0@[timer_num as int] },
            ),
    {
        let mut t = self.0[timer_num];
        t.prescaler_value = prescalar_value;
        self.0[timer_num] = t;
    }

    /// Sets whether it raises an interrupt on overflow of timer `timer_num`.
    pub fn set_timer_irq_enable(&mut self, timer_num: usize, enabled: bool)
        requires
            timer_num < 4,
        ensures
            final(self).0@ == old(self).0@.update(
                timer_num as int,
                Timer { timer_irq_enable: enabled, ..old(self).0@[timer_num as int] },
            ),
    {
        let mut t = self.0[timer_num];
        t.timer_irq_enable = enabled;
        self.0[timer_num] = t;
    }
}

} // verus!
