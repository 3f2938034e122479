use vstd::prelude::*;

use crate::arm7tdmi::cpu::CPU;
use crate::graphics::ppu::{PPUAction, PPU};
use crate::io::timers::{raised_flags, spec_tick, tick_ok, Timers};
use crate::memory::io_handlers::{spec_ppu_io_write, IF};
use crate::memory::memory::{CPUCallbacks, GBAMemory, MemoryView};
use crate::memory::wrappers::dma::{preempt_dma, spec_preempt, DMAControl, StartTiming};
use crate::types::CYCLES;

verus! {

/// The whole machine: the processor, the memory map, the picture unit and
/// the four DMA channels, one of which may be moving data.
pub struct GBA {
    pub cpu: CPU,
    pub memory: GBAMemory,
    pub ppu: PPU,
    pub dma_controllers: [DMAControl; 4],
    pub active_dma: Option<usize>,
}

/// The CPU after the commands that register writes left for it, in order:
/// a halt or a stop halts it, an interrupt request marks an interrupt as
/// pending.
pub open spec fn after_commands(cpu: CPU, commands: Seq<CPUCallbacks>) -> CPU
    decreases commands.len(),
{
    if commands.len() == 0 {
        cpu
    } else {
        let before = after_commands(cpu, commands.drop_last());
        match commands.last() {
            CPUCallbacks::RaiseIrq => CPU { interrupt_triggered: true, ..before },
            _ => CPU { is_halted: true, ..before },
        }
    }
}

/// The picture unit's register writes keep the timers and the number of
/// registers.
proof fn lemma_ppu_keeps_timers(v: MemoryView, next_v: MemoryView, ppu: PPU, cycles: u8, next: PPU, action: PPUAction)
    requires
        ppu.advanced(v, cycles, next, next_v, action),
    ensures
        next_v.3 == v.3,
        next_v.1.len() == v.1.len(),
{
    let d = crate::memory::io_handlers::DISPSTAT;
    let first = spec_ppu_io_write(v, d, crate::graphics::ppu::dispstat_after(
        crate::memory::memory::view_io(v, d),
        next.current_mode,
        next.y,
    ));
    crate::memory::io_handlers::lemma_ppu_io_write_keeps_len(v, d, crate::graphics::ppu::dispstat_after(
        crate::memory::memory::view_io(v, d),
        next.current_mode,
        next.y,
    ));
    crate::memory::io_handlers::lemma_ppu_io_write_keeps_len(first, crate::memory::io_handlers::VCOUNT, next.y as u16);
}

impl GBA {
    /// The machine around `memory`, which holds the BIOS and the cartridge:
    /// the processor after reset with its pipeline filled from address 0,
    /// the picture unit at the start of a frame and no DMA channel active.
    pub fn new(memory: GBAMemory) -> (r: GBA)
        requires
            memory.bios.memory@.len() >= 8,
        ensures
            r.memory == memory,
            exists|fresh: CPU| #[trigger] fresh.reset_state() && fresh.flushed(memory, r.cpu),
            r.ppu.usable_cycles == 0,
            r.ppu.available_dots == 0,
            r.ppu.current_mode == crate::graphics::ppu::PPUModes::HDRAW,
            r.ppu.x == 0 && r.ppu.y == 0,
            r.ppu.current_line_objects@.len() == 0,
            !r.ppu.show_borders,
            forall|i: int| 0 <= i < 4 ==> #[trigger] r.dma_controllers@[i] == DMAControl::spec_idle(),
            r.active_dma is None,
    {
        let mut memory = memory;
        let mut cpu = CPU::new();
        let ghost fresh = cpu;
        proof {
            crate::bits::lemma_word_align(0u32);
            crate::bits::lemma_word_align(0b1101_0011u32);
            crate::bits::lemma_offset_bits(0usize);
            crate::bits::lemma_offset_bits(4usize);
            assert(fresh.step() == 4);
            assert(fresh.pc() == 0);
            assert(fresh.next_pc() == 4);
            assert(memory.fits(0usize, 4usize));
            assert(memory.fits(4usize, 4usize));
        }
        cpu.flush_pipeline(&mut memory);
        GBA {
            cpu,
            memory,
            ppu: PPU::new(),
            dma_controllers: [DMAControl::default(), DMAControl::default(), DMAControl::default(), DMAControl::default()],
            active_dma: None,
        }
    }

    /// Whether the first part of a step can run: the active DMA channel can
    /// move its next unit, or, with none active, the CPU can run a cycle.
    pub open spec fn unit_ok(self) -> bool {
        match self.active_dma {
            Some(d) => d < 4 && self.dma_controllers@[d as int].transfer_ok(d, self.memory@),
            None => self.cpu.can_cycle(self.memory),
        }
    }

    /// `next` is this machine after the first part of a step, which took `r`
    /// cycles: the active DMA channel moved a unit and, once it has none
    /// left, the next channel that starts at once takes over; or, with no
    /// channel active, the CPU ran a cycle.
    pub open spec fn unit_ran(self, next: GBA, r: u8) -> bool {
        &&& next.ppu == self.ppu
        &&& match self.active_dma {
            Some(d) => {
                &&& next.cpu == self.cpu
                &&& self.dma_controllers@[d as int].transfer_ran(
                    d,
                    self.memory@,
                    next.dma_controllers@[d as int],
                    next.memory@,
                    r,
                )
                &&& next.dma_controllers@ == self.dma_controllers@.update(d as int, next.dma_controllers@[d as int])
                &&& next.active_dma == if next.dma_controllers@[d as int].word_count == 0 {
                    spec_preempt(None, next.memory@, StartTiming::Immediately)
                } else {
                    Some(d)
                }
            },
            None => {
                &&& self.cpu.cycle_ran(self.memory, next.cpu, next.memory, r)
                &&& next.dma_controllers == self.dma_controllers
                &&& next.active_dma == self.active_dma
            },
        }
    }

    /// Whether the timers can then run for `cycles` cycles and raise their
    /// flags in IF.
    pub open spec fn timers_ok(self, cycles: u8) -> bool {
        &&& tick_ok(self.memory.timers.0@, cycles as u32)
        &&& (IF >> 1) < self.memory.ioram@.len()
    }

    /// `next` is this machine after the timers ran for `cycles` cycles,
    /// raising in IF the flag of each that overflowed with its interrupt
    /// enabled, and after the CPU took the commands that were left for it,
    /// which are then cleared.
    pub open spec fn timers_and_commands_ran(self, cycles: u8, next: GBA) -> bool {
        let ticked = spec_tick(self.memory.timers.0@, cycles as u32);
        let raised: MemoryView = raised_flags(self.memory@, self.memory.timers.0@, ticked.1, 4);
        &&& next.cpu == after_commands(self.cpu, raised.2)
        &&& next.memory@ == (raised.0, raised.1, Seq::<CPUCallbacks>::empty(), ticked.0)
        &&& next.ppu == self.ppu
        &&& next.dma_controllers == self.dma_controllers
        &&& next.active_dma == self.active_dma
    }

    /// `next` is this machine after the picture unit ran for `cycles`
    /// cycles; `action` is what the display learns.
    pub open spec fn ppu_ran(self, cycles: u8, next: GBA, action: PPUAction) -> bool {
        &&& self.ppu.advanced(self.memory@, cycles, next.ppu, next.memory@, action)
        &&& next.cpu == self.cpu
        &&& next.dma_controllers == self.dma_controllers
        &&& next.active_dma == self.active_dma
    }

    /// Whether a whole step can run: its first part can, the picture unit
    /// is at a dot of its phase, and the timers can run after every outcome
    /// of the first part.
    pub open spec fn can_step(self) -> bool {
        &&& self.unit_ok()
        &&& self.ppu.wf()
        &&& forall|mid: GBA, r: u8| #[trigger] self.unit_ran(mid, r) ==> mid.timers_ok(r)
    }

    /// `next` is this machine after one step, which took `r` cycles:
    /// the first part, then the picture unit, then the timers and the
    /// commands for the CPU.
    pub open spec fn stepped(self, next: GBA, r: u8) -> bool {
        exists|mid: GBA, drawn: GBA, action: PPUAction|
            #[trigger] self.unit_ran(mid, r) && #[trigger] mid.ppu_ran(r, drawn, action)
                && drawn.timers_and_commands_ran(r, next)
    }

    /// Runs the machine for one step: a unit of the active DMA transfer, or
    /// else a CPU cycle; then the timers for the cycles that took; then the
    /// commands that register writes left for the CPU. Returns the cycles.
    pub fn step(&mut self) -> (r: CYCLES)
        requires
            old(self).can_step(),
        ensures
            old(self).stepped(*final(self), r),
    {
        let cpu_cycles = match self.active_dma {
            Some(dma) => {
                let mut controller = self.dma_controllers[dma];
                let cycles = controller.handle_dma_transfer(dma, &mut self.memory);
                self.dma_controllers[dma] = controller;
                if controller.word_count == 0 {
                    self.active_dma = preempt_dma(None, &self.memory, StartTiming::Immediately);
                }
                cycles
            },
            None => self.cpu.execute_cpu_cycle(&mut self.memory),
        };
        let ghost mid = *self;
        assert(old(self).unit_ran(mid, cpu_cycles));
        assert(mid.timers_ok(cpu_cycles));
        proof {
            crate::bits::lemma_offset_bits(crate::memory::io_handlers::VCOUNT);
            crate::bits::lemma_offset_bits(IF);
        }
        let action = self.ppu.advance_ppu(cpu_cycles, &mut self.memory);
        let ghost drawn = *self;
        assert(mid.ppu_ran(cpu_cycles, drawn, action));
        proof {
            lemma_ppu_keeps_timers(mid.memory@, drawn.memory@, mid.ppu, cpu_cycles, drawn.ppu, action);
        }
        let mut timers = Timers(self.memory.timers.0);
        timers.tick(cpu_cycles as u32, &mut self.memory);
        self.memory.timers = timers;
        let ghost raised = self.memory@;
        let mut i: usize = 0;
        let n = self.memory.cpu_commands.len();
        while i < n
            invariant
                i <= n,
                n == self.memory.cpu_commands@.len(),
                self.memory@ == raised,
                self.cpu == after_commands(drawn.cpu, raised.2.take(i as int)),
                self.ppu == drawn.ppu,
                self.dma_controllers == drawn.dma_controllers,
                self.active_dma == drawn.active_dma,
            decreases n - i,
        {
            assert(raised.2.take(i + 1).drop_last() =~= raised.2.take(i as int));
            match self.memory.cpu_commands[i] {
                CPUCallbacks::RaiseIrq => {
                    self.cpu.interrupt_triggered = true;
                },
                _ => {
                    self.cpu.halt();
                },
            }
            i = i + 1;
        }
        assert(raised.2.take(n as int) =~= raised.2);
        self.memory.cpu_commands = Vec::new();
        proof {
            assert(self.memory@.2 =~= Seq::<CPUCallbacks>::empty());
            assert(self.memory@ =~= (raised.0, raised.1, Seq::<CPUCallbacks>::empty(), raised.3));
            assert(drawn.timers_and_commands_ran(cpu_cycles, *self));
        }
        cpu_cycles
    }

    /// Back to the state after reset: the processor and the picture unit
    /// restart; memory keeps its contents.
    pub fn reset(&mut self)
        ensures
            final(self).memory == old(self).memory,
            final(self).cpu.wf(),
            final(self).cpu.cpsr.0 == 0b1101_0011u32,
            final(self).cpu.registers.zeroed(),
            final(self).cpu.prefetch@ == seq![None::<u32>, None::<u32>],
            final(self).cpu.cycles == 0,
            !final(self).cpu.is_halted,
            !final(self).cpu.interrupt_triggered,
            final(self).ppu.usable_cycles == 0,
            final(self).ppu.available_dots == 0,
            final(self).ppu.x == 0 && final(self).ppu.y == 0,
            final(self).ppu.current_line_objects@.len() == 0,
            final(self).ppu.show_borders == old(self).ppu.show_borders,
            final(self).dma_controllers == old(self).dma_controllers,
            final(self).active_dma == old(self).active_dma,
    {
        self.memory.clear_ram();
        self.cpu.reset();
        self.ppu.reset();
    }
}

} // verus!
