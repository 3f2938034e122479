use vstd::prelude::*;

use crate::bits::{bit_is_set16, bit_of16};
use crate::memory::io_handlers::DMA0CNT_H;
use crate::memory::memory::{
    io_stored, region_of, view_fits, view_io, view_load16, view_load32, view_store16, view_store32, wait16, wait32,
    CPUCallbacks, GBAMemory, MemoryView,
};

verus! {

/// How a DMA channel moves its destination address after each unit.
#[derive(Debug, Clone, Copy, PartialEq, Eq, Structural)]
pub enum DestinationAddressControlMode {
    Increment,
    Decrement,
    Fixed,
    IncrementReload,
}

/// How a DMA channel moves its source address after each unit.
#[derive(Debug, Clone, Copy, PartialEq, Eq, Structural)]
pub enum SourceAddressControlMode {
    Increment,
    Decrement,
    Fixed,
    Prohibited,
}

/// The unit that a DMA channel moves: a half word or a word.
#[derive(Debug, Clone, Copy, PartialEq, Eq, Structural)]
pub enum DMATransferType {
    Bit16,
    Bit32,
}

/// When a DMA channel starts.
#[derive(Debug, Clone, Copy, PartialEq, Eq, Structural)]
pub enum StartTiming {
    Immediately,
    VBlank,
    HBlank,
    Special,
}

/// A DMA channel's control register.
#[derive(Debug, Clone, Copy)]
pub struct DmaCNTH(pub u16);

/// The destination mode that bits 5-6 of a control value select.
pub open spec fn destination_mode_of(v: u16) -> DestinationAddressControlMode {
    let f = (v >> 5u16) & 0b11u16;
    if f == 0 {
        DestinationAddressControlMode::Increment
    } else if f == 1 {
        DestinationAddressControlMode::Decrement
    } else if f == 2 {
        DestinationAddressControlMode::Fixed
    } else {
        DestinationAddressControlMode::IncrementReload
    }
}

/// The source mode that bits 7-8 of a control value select.
pub open spec fn source_mode_of(v: u16) -> SourceAddressControlMode {
    let f = (v >> 7u16) & 0b11u16;
    if f == 0 {
        SourceAddressControlMode::Increment
    } else if f == 1 {
        SourceAddressControlMode::Decrement
    } else if f == 2 {
        SourceAddressControlMode::Fixed
    } else {
        SourceAddressControlMode::Prohibited
    }
}

/// The start timing that bits 12-13 of a control value select.
pub open spec fn start_timing_of(v: u16) -> StartTiming {
    let f = (v >> 12u16) & 0b11u16;
    if f == 0 {
        StartTiming::Immediately
    } else if f == 1 {
        StartTiming::VBlank
    } else if f == 2 {
        StartTiming::HBlank
    } else {
        StartTiming::Special
    }
}

/// The bytes in one unit of a transfer: bit 10 selects words.
pub open spec fn transfer_size(v: u16) -> usize {
    if bit_of16(v, 10) {
        4
    } else {
        2
    }
}

impl DMATransferType {
    /// The bytes in one unit.
    pub fn word_size(&self) -> (r: usize)
        ensures
            r == (match self {
                DMATransferType::Bit16 => 2usize,
                DMATransferType::Bit32 => 4usize,
            }),
    {
        match self {
            DMATransferType::Bit16 => 2,
            DMATransferType::Bit32 => 4,
        }
    }
}

impl DmaCNTH {
    pub fn destination_address_control(&self) -> (r: DestinationAddressControlMode)
        ensures
            r == destination_mode_of(self.0),
    {
        let f = (self.0 >> 5u16) & 0b11u16;
        if f == 0 {
            DestinationAddressControlMode::Increment
        } else if f == 1 {
            DestinationAddressControlMode::Decrement
        } else if f == 2 {
            DestinationAddressControlMode::Fixed
        } else {
            DestinationAddressControlMode::IncrementReload
        }
    }

    pub fn source_address_control(&self) -> (r: SourceAddressControlMode)
        ensures
            r == source_mode_of(self.0),
    {
        let f = (self.0 >> 7u16) & 0b11u16;
        if f == 0 {
            SourceAddressControlMode::Increment
        } else if f == 1 {
            SourceAddressControlMode::Decrement
        } else if f == 2 {
            SourceAddressControlMode::Fixed
        } else {
            SourceAddressControlMode::Prohibited
        }
    }

    pub fn dma_repeat(&self) -> (r: bool)
        ensures
            r == bit_of16(self.0, 9),
    {
        bit_is_set16(self.0, 9)
    }

    pub fn dma_transfer_type(&self) -> (r: DMATransferType)
        ensures
            r == if bit_of16(self.0, 10) {
                DMATransferType::Bit32
            } else {
                DMATransferType::Bit16
            },
    {
        if bit_is_set16(self.0, 10) {
            DMATransferType::Bit32
        } else {
            DMATransferType::Bit16
        }
    }

    pub fn gamepak_drq(&self) -> (r: bool)
        ensures
            r == bit_of16(self.0, 11),
    {
        bit_is_set16(self.0, 11)
    }

    pub fn start_timing(&self) -> (r: StartTiming)
        ensures
            r == start_timing_of(self.0),
    {
        let f = (self.0 >> 12u16) & 0b11u16;
        if f == 0 {
            StartTiming::Immediately
        } else if f == 1 {
            StartTiming::VBlank
        } else if f == 2 {
            StartTiming::HBlank
        } else {
            StartTiming::Special
        }
    }

    pub fn irq_at_end(&self) -> (r: bool)
        ensures
            r == bit_of16(self.0, 14),
    {
        bit_is_set16(self.0, 14)
    }

    pub fn dma_enabled(&self) -> (r: bool)
        ensures
            r == bit_of16(self.0, 15),
    {
        bit_is_set16(self.0, 15)
    }
}

/// The I/O offset of the control register of DMA channel `dma_num`.
pub open spec fn dma_control_offset(dma_num: usize) -> usize {
    (DMA0CNT_H + 0xC * dma_num) as usize
}

/// The source address after one unit of `size` bytes.
pub open spec fn moved_source(address: usize, size: usize, mode: SourceAddressControlMode) -> int {
    match mode {
        SourceAddressControlMode::Increment => address + size,
        SourceAddressControlMode::Decrement => address - size,
        _ => address as int,
    }
}

/// The destination address after one unit of `size` bytes.
pub open spec fn moved_destination(address: usize, size: usize, mode: DestinationAddressControlMode) -> int {
    match mode {
        DestinationAddressControlMode::Increment => address + size,
        DestinationAddressControlMode::IncrementReload => address + size,
        DestinationAddressControlMode::Decrement => address - size,
        DestinationAddressControlMode::Fixed => address as int,
    }
}

/// The extra cycles an access to the region of `address` costs a DMA: two
/// past the cartridge's first region (but for SRAM), else one.
pub open spec fn region_access_cost(address: usize) -> u8 {
    if region_of(address) > 8 && region_of(address) != 0xE {
        2
    } else {
        1
    }
}

/// The memory after one unit of `size` bytes is read at `source` and
/// written at `destination`.
pub open spec fn unit_moved(v: MemoryView, source: usize, destination: usize, size: usize) -> MemoryView {
    if size == 2 {
        view_store16(v, destination, view_load16(v, source))
    } else {
        view_store32(v, destination, view_load32(v, source))
    }
}

/// The wait cycles of the read and the write of one unit.
pub open spec fn unit_cycles(source: usize, destination: usize, size: usize) -> int {
    if size == 2 {
        wait16(region_of(destination)) + wait16(region_of(source))
    } else {
        wait32(region_of(destination)) + wait32(region_of(source))
    }
}

/// Whether channel `i` is enabled and starts on `condition` or at once.
pub open spec fn dma_ready(v: MemoryView, i: usize, condition: StartTiming) -> bool {
    let cnt = view_io(v, dma_control_offset(i));
    bit_of16(cnt, 15) && (start_timing_of(cnt) == condition || start_timing_of(cnt) == StartTiming::Immediately)
}

/// The state of a DMA channel's transfer: where it reads and writes next,
/// how many units are left, and what a repeat restarts from.
#[derive(Debug, Clone, Copy, PartialEq, Eq, Structural)]
pub struct DMAControl {
    pub immediately: bool,
    pub source: usize,
    pub destination: usize,
    pub word_count: usize,
    pub start_destination: usize,
    pub start_word_count: usize,
}

impl DMAControl {
    /// A channel with nothing to move.
    pub open spec fn spec_idle() -> DMAControl {
        DMAControl {
            immediately: false,
            source: 0,
            destination: 0,
            word_count: 0,
            start_destination: 0,
            start_word_count: 0,
        }
    }
}

impl Default for DMAControl {
    fn default() -> (r: Self)
        ensures
            r == DMAControl::spec_idle(),
    {
        DMAControl {
            immediately: false,
            source: 0,
            destination: 0,
            word_count: 0,
            start_destination: 0,
            start_word_count: 0,
        }
    }
}

impl DMAControl {
    /// Whether channel `dma_num` can move its next unit in memory `v`: the
    /// source mode is not the prohibited one, both accesses can be served,
    /// and neither address leaves the machine's range.
    pub open spec fn transfer_ok(self, dma_num: usize, v: MemoryView) -> bool {
        &&& dma_num < 4
        &&& self.word_count > 0 ==> {
            let cnt = view_io(v, dma_control_offset(dma_num));
            let size = transfer_size(cnt);
            &&& source_mode_of(cnt) != SourceAddressControlMode::Prohibited
            &&& view_fits(v, self.source, size)
            &&& view_fits(v, self.destination, size)
            &&& 0 <= moved_source(self.source, size, source_mode_of(cnt)) <= usize::MAX
            &&& 0 <= moved_destination(self.destination, size, destination_mode_of(cnt)) <= usize::MAX
        }
    }

    /// `next` and `next_memory` are this channel and memory `v` after one
    /// step of the transfer, which took `r` cycles. With no unit left nothing
    /// happens. Otherwise one unit is moved and both addresses move on; when
    /// that was the last unit, a repeating channel reloads its count (and,
    /// in reload mode, its destination), any other is disabled in its
    /// control register, and an interrupt is requested if the channel asks
    /// for one at the end.
    pub open spec fn transfer_ran(self, dma_num: usize, v: MemoryView, next: DMAControl, next_memory: MemoryView, r: u8) -> bool {
        if self.word_count == 0 {
            next == self && next_memory == v && r == 0
        } else {
            let cnt = view_io(v, dma_control_offset(dma_num));
            let size = transfer_size(cnt);
            let moved = unit_moved(v, self.source, self.destination, size);
            let source = moved_source(self.source, size, source_mode_of(cnt)) as usize;
            let destination = moved_destination(self.destination, size, destination_mode_of(cnt)) as usize;
            let count = (self.word_count - 1) as usize;
            let repeat = bit_of16(cnt, 9);
            &&& r == region_access_cost(self.source) + region_access_cost(self.destination) + unit_cycles(
                self.source,
                self.destination,
                size,
            )
            &&& next.source == source
            &&& next.start_destination == self.start_destination
            &&& next.start_word_count == self.start_word_count
            &&& if count > 0 {
                &&& next.immediately == self.immediately
                &&& next.destination == destination
                &&& next.word_count == count
                &&& next_memory == moved
            } else {
                &&& next.immediately == false
                &&& next.destination == if repeat && destination_mode_of(cnt)
                    == DestinationAddressControlMode::IncrementReload {
                    self.start_destination
                } else {
                    destination
                }
                &&& next.word_count == if repeat {
                    self.start_word_count
                } else {
                    0
                }
                &&& next_memory.0 == moved.0
                &&& next_memory.1 == if repeat {
                    moved.1
                } else {
                    io_stored(moved.1, (dma_control_offset(dma_num) >> 1) as int, cnt & !0x8000u16)
                }
                &&& next_memory.2 == if bit_of16(cnt, 14) {
                    moved.2.push(CPUCallbacks::RaiseIrq)
                } else {
                    moved.2
                }
                &&& next_memory.3 == moved.3
            }
        }
    }

    /// Moves one unit of channel `dma_num`'s transfer and returns the
    /// cycles it took.
    pub fn handle_dma_transfer(&mut self, dma_num: usize, memory: &mut GBAMemory) -> (r: u8)
        requires
            old(self).transfer_ok(dma_num, old(memory)@),
        ensures
            old(self).transfer_ran(dma_num, old(memory)@, *final(self), final(memory)@, r),
    {
        if self.word_count == 0 {
            return 0;
        }
        let mut cycles: u8 = 0;
        let dma_io_address_start = 0xB0 + 0xC * dma_num;
        let dmacnt = DmaCNTH(memory.io_load(dma_io_address_start + 10));
        cycles = cycles + update_cycles_from_region(self.source, self.destination);
        let dmatransfer_type = dmacnt.dma_transfer_type();
        let word_size = dmatransfer_type.word_size();
        self.word_count = self.word_count - 1;
        match dmatransfer_type {
            DMATransferType::Bit16 => {
                let read = memory.readu16(self.source);
                cycles = cycles + memory.writeu16(self.destination, read.data);
                adjust_source_address(&mut self.source, word_size, dmacnt.source_address_control());
                adjust_destination_address(&mut self.destination, word_size, dmacnt.destination_address_control());
                cycles = cycles + read.cycles;
            },
            DMATransferType::Bit32 => {
                let read = memory.readu32(self.source);
                cycles = cycles + memory.writeu32(self.destination, read.data);
                adjust_source_address(&mut self.source, word_size, dmacnt.source_address_control());
                adjust_destination_address(&mut self.destination, word_size, dmacnt.destination_address_control());
                cycles = cycles + read.cycles;
            },
        }
        if self.word_count == 0 {
            self.immediately = false;
            if dmacnt.dma_repeat() {
                self.word_count = self.start_word_count;
                if dmacnt.destination_address_control() == DestinationAddressControlMode::IncrementReload {
                    self.destination = self.start_destination;
                }
            } else {
                let disabled_dmacnt = dmacnt.0 & !0x8000u16;
                memory.io_store(DMA0CNT_H + 0xC * dma_num, disabled_dmacnt);
            }
            if dmacnt.irq_at_end() {
                memory.cpu_commands.push(CPUCallbacks::RaiseIrq);
            }
        }
        cycles
    }
}

fn adjust_source_address(source_address: &mut usize, word_size: usize, control_mode: SourceAddressControlMode)
    requires
        control_mode != SourceAddressControlMode::Prohibited,
        0 <= moved_source(*old(source_address), word_size, control_mode) <= usize::MAX,
    ensures
        *final(source_address) == moved_source(*old(source_address), word_size, control_mode),
{
    match control_mode {
        SourceAddressControlMode::Increment => *source_address = *source_address + word_size,
        SourceAddressControlMode::Decrement => *source_address = *source_address - word_size,
        SourceAddressControlMode::Fixed => {},
        SourceAddressControlMode::Prohibited => {},
    }
}

fn adjust_destination_address(
    destination_address: &mut usize,
    word_size: usize,
    control_mode: DestinationAddressControlMode,
)
    requires
        0 <= moved_destination(*old(destination_address), word_size, control_mode) <= usize::MAX,
    ensures
        *final(destination_address) == moved_destination(*old(destination_address), word_size, control_mode),
{
    match control_mode {
        DestinationAddressControlMode::Increment => *destination_address = *destination_address + word_size,
        DestinationAddressControlMode::Decrement => *destination_address = *destination_address - word_size,
        DestinationAddressControlMode::Fixed => {},
        DestinationAddressControlMode::IncrementReload => *destination_address = *destination_address + word_size,
    }
}

fn update_cycles_from_region(dma_start_address: usize, dma_destination_address: usize) -> (r: u8)
    ensures
        r == region_access_cost(dma_start_address) + region_access_cost(dma_destination_address),
{
    let mut cycles: u8 = 0;
    let start_region = dma_start_address >> 24;
    if start_region > 0x8 && start_region != 0xE {
        cycles = cycles + 2;
    } else {
        cycles = cycles + 1;
    }
    let destination_region = dma_destination_address >> 24;
    if destination_region > 0x8 && destination_region != 0xE {
        cycles = cycles + 2;
    } else {
        cycles = cycles + 1;
    }
    cycles
}

/// When the last unit of a transfer that does not repeat has moved, the
/// channel is done: no unit is left and its control register's enable bit
/// reads as clear.
#[verifier::rlimit(40)]
pub proof fn lemma_finished_transfer_disables_channel(
    ctl: DMAControl,
    dma_num: usize,
    v: MemoryView,
    next: DMAControl,
    next_v: MemoryView,
    r: u8,
)
    requires
        dma_num < 4,
        (dma_control_offset(dma_num) >> 1) < v.1.len(),
        ctl.word_count == 1,
        !bit_of16(view_io(v, dma_control_offset(dma_num)), 9),
        ctl.transfer_ran(dma_num, v, next, next_v, r),
    ensures
        next.word_count == 0,
        !bit_of16(view_io(next_v, dma_control_offset(dma_num)), 15),
{
    let cnt = view_io(v, dma_control_offset(dma_num));
    let moved = unit_moved(v, ctl.source, ctl.destination, transfer_size(cnt));
    assert(moved.1.len() == v.1.len());
    crate::bits::lemma_half_bits(cnt, 0);
}

/// The first channel from `i` up to (not including) `limit` that is ready
/// on `condition`, if any.
pub open spec fn first_ready(v: MemoryView, condition: StartTiming, i: int, limit: int) -> Option<usize>
    decreases limit - i,
{
    if i >= limit {
        None
    } else if dma_ready(v, i as usize, condition) {
        Some(i as usize)
    } else {
        first_ready(v, condition, i + 1, limit)
    }
}

/// The channel that should run when `current` is active: channel 0 stays;
/// otherwise the first ready channel below it (below 4 when none is
/// active), and `current` when there is none.
pub open spec fn spec_preempt(current: Option<usize>, v: MemoryView, condition: StartTiming) -> Option<usize> {
    if current == Some(0usize) {
        current
    } else {
        let limit = match current {
            Some(i) => i as int,
            None => 4,
        };
        match first_ready(v, condition, 0, limit) {
            Some(i) => Some(i),
            None => current,
        }
    }
}

/// The channel that should run: the active channel 0 is never preempted;
/// otherwise the first channel below the active one (or below 4 when none
/// is active) that is enabled and starts on `condition` or at once, and the
/// active one when there is none.
pub fn preempt_dma(current_dma: Option<usize>, memory: &GBAMemory, condition: StartTiming) -> (r: Option<usize>)
    requires
        current_dma is Some ==> current_dma->0 <= 4,
    ensures
        current_dma == Some(0usize) ==> r == current_dma,
        r == spec_preempt(current_dma, memory@, condition),
        current_dma != Some(0usize) ==> {
            let limit = if current_dma is Some {
                current_dma->0
            } else {
                4
            };
            if exists|j: usize| j < limit && #[trigger] dma_ready(memory@, j, condition) {
                &&& r is Some
                &&& r->0 < limit
                &&& dma_ready(memory@, r->0, condition)
                &&& forall|j: usize| j < r->0 ==> !#[trigger] dma_ready(memory@, j, condition)
            } else {
                r == current_dma
            }
        },
{
    let old_dma: usize = match current_dma {
        Some(0) => return current_dma,
        Some(i) => i,
        None => 4,
    };
    let mut i: usize = 0;
    while i < old_dma
        invariant
            i <= old_dma <= 4,
            old_dma == (if current_dma is Some {
                current_dma->0
            } else {
                4
            }),
            current_dma != Some(0usize),
            forall|j: usize| j < i ==> !#[trigger] dma_ready(memory@, j, condition),
            first_ready(memory@, condition, 0, old_dma as int) == first_ready(memory@, condition, i as int, old_dma as int),
        decreases old_dma - i,
    {
        let dmacnt = DmaCNTH(memory.io_load(DMA0CNT_H + 0xC * i));
        if dmacnt.dma_enabled() && (dmacnt.start_timing() == condition || dmacnt.start_timing()
            == StartTiming::Immediately) {
            assert(dma_ready(memory@, i, condition));
            return Some(i);
        }
        assert(first_ready(memory@, condition, i as int, old_dma as int) == first_ready(
            memory@,
            condition,
            i + 1,
            old_dma as int,
        ));
        i = i + 1;
    }
    current_dma
}

} // verus!
