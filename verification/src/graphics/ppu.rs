use vstd::prelude::*;

use crate::memory::io_handlers::{spec_ppu_io_write, DISPSTAT, VCOUNT};
use crate::memory::memory::{view_io, GBAMemory, MemoryView};
use crate::memory::oam::Oam;

verus! {

/// The visible width and the horizontal blank, in dots; the visible height
/// and the vertical blank, in lines.
pub const HDRAW: i32 = 240;
pub const HBLANK: i32 = 68;
pub const VDRAW: i32 = 160;
pub const VBLANK: i32 = 68;

/// The bits of DISPSTAT: the blank and counter-match flags and the
/// interrupt enables of the blanks.
pub const VBLANK_FLAG: u16 = 1;
pub const HBLANK_FLAG: u16 = 2;
pub const VCOUNTER_FLAG: u16 = 4;
pub const VBLANK_ENABLE: u16 = 8;
pub const HBLANK_ENABLE: u16 = 16;

/// The phase the picture processing unit is in.
#[derive(Debug, Clone, Copy, PartialEq, Eq, Structural)]
pub enum PPUModes {
    HDRAW,
    HBLANK,
    VBLANK,
}

/// The state of the picture processing unit: the cycles and dots not yet
/// spent, its phase, the dot and line it is at, and the objects on the
/// current line.
#[derive(Debug)]
pub struct PPU {
    pub usable_cycles: u32,
    pub available_dots: u32,
    pub current_mode: PPUModes,
    pub x: i32,
    pub y: i32,
    pub current_line_objects: Vec<Oam>,
    pub show_borders: bool,
}

/// What the display learns from a step of the unit: nothing, that line
/// `y` has been drawn (the visible part of it ended), or that a frame is
/// complete (the vertical blank began).
#[derive(Debug, Clone, Copy, PartialEq, Eq, Structural)]
pub enum PPUAction {
    Nothing,
    DrawLine(i32),
    ShowFrame,
}

/// The dot at which a phase of a line ends: the visible part ends at 240,
/// the horizontal blank and a line of the vertical blank at 308.
pub open spec fn phase_end(mode: PPUModes) -> int {
    match mode {
        PPUModes::HDRAW => 240,
        _ => 308,
    }
}

/// Whether dot `x` of line `y` lies in phase `mode`: lines 0-159 are drawn
/// and then blanked, lines 160-227 form the vertical blank.
pub open spec fn line_wf(mode: PPUModes, x: i32, y: i32) -> bool {
    match mode {
        PPUModes::HDRAW => 0 <= x < 240 && 0 <= y < 160,
        PPUModes::HBLANK => 240 <= x < 308 && 0 <= y < 160,
        PPUModes::VBLANK => 0 <= x < 308 && 160 <= y < 228,
    }
}

/// The phase, dot and line after phase `mode` of line `y` ends, and what
/// the display learns: the visible part ends with the line drawn; the last
/// horizontal blank ends with the frame shown; the last line of the
/// vertical blank leads back to line 0.
pub open spec fn next_phase(mode: PPUModes, y: i32) -> (PPUModes, i32, i32, PPUAction) {
    match mode {
        PPUModes::HDRAW => (PPUModes::HBLANK, 240, y, PPUAction::DrawLine(y)),
        PPUModes::HBLANK => if y + 1 < 160 {
            (PPUModes::HDRAW, 0, (y + 1) as i32, PPUAction::Nothing)
        } else {
            (PPUModes::VBLANK, 0, (y + 1) as i32, PPUAction::ShowFrame)
        },
        PPUModes::VBLANK => if y + 1 < 228 {
            (PPUModes::VBLANK, 0, (y + 1) as i32, PPUAction::Nothing)
        } else {
            (PPUModes::HDRAW, 0, 0, PPUAction::Nothing)
        },
    }
}

/// The phase, dot and line after `dots` more dots, and what the display
/// learnt at the last phase end (`action` when none ends).
pub open spec fn run_dots(mode: PPUModes, x: i32, y: i32, dots: int, action: PPUAction) -> (PPUModes, i32, i32, PPUAction)
    decreases dots,
{
    if dots <= 0 {
        (mode, x, y, action)
    } else if x + dots < phase_end(mode) || phase_end(mode) - x < 1 {
        (mode, (x + dots) as i32, y, action)
    } else {
        let n = next_phase(mode, y);
        run_dots(n.0, n.1, n.2, dots - (phase_end(mode) - x), n.3)
    }
}

/// DISPSTAT once the unit is in phase `mode` at line `y`: the vertical and
/// horizontal blank flags tell the phase, and the counter flag whether the
/// line is the one the register's V-count setting names; the other bits stay.
pub open spec fn dispstat_after(dispstat: u16, mode: PPUModes, y: i32) -> u16 {
    (dispstat & !7u16) | (if mode == PPUModes::VBLANK { 1u16 } else { 0u16 }) | (if mode == PPUModes::HBLANK {
        2u16
    } else {
        0u16
    }) | (if y as u16 == dispstat >> 7u16 { 4u16 } else { 0u16 })
}

/// `v / 8` rounded toward zero.
pub open spec fn truncated_div8(v: i32) -> int {
    if v >= 0 {
        v / 8
    } else {
        -((-v) / 8)
    }
}

impl PPU {
    /// The unit is at a dot of its phase, and its cycle and dot counters
    /// hold less than a dot and no dot.
    pub open spec fn wf(self) -> bool {
        &&& line_wf(self.current_mode, self.x, self.y)
        &&& self.usable_cycles < 4
        &&& self.available_dots == 0
    }

    /// `next` and `next_v` are this unit and memory `v` after `cycles` more
    /// cycles, four to a dot: the unit moves on by the whole dots, keeping
    /// the cycles left over; when it moved at all, DISPSTAT's flags are set
    /// for its new phase and line and VCOUNT to its line, both written as
    /// the unit writes registers (which raises the blank interrupts that
    /// DISPSTAT enables). `action` is what the display learns.
    pub open spec fn advanced(self, v: MemoryView, cycles: u8, next: PPU, next_v: MemoryView, action: PPUAction) -> bool {
        let total = self.usable_cycles + cycles;
        let dots = total / 4;
        let moved = run_dots(self.current_mode, self.x, self.y, dots, PPUAction::Nothing);
        &&& next.usable_cycles == total % 4
        &&& next.available_dots == 0
        &&& next.current_mode == moved.0
        &&& next.x == moved.1
        &&& next.y == moved.2
        &&& action == moved.3
        &&& next.current_line_objects@ == self.current_line_objects@
        &&& next.show_borders == self.show_borders
        &&& next_v == if dots == 0 {
            v
        } else {
            spec_ppu_io_write(
                spec_ppu_io_write(v, DISPSTAT, dispstat_after(view_io(v, DISPSTAT), moved.0, moved.2)),
                VCOUNT,
                moved.2 as u16,
            )
        }
    }

    /// Runs the unit for `cycles` more cycles and says what the display
    /// learns.
    pub fn advance_ppu(&mut self, cycles: u8, memory: &mut GBAMemory) -> (r: PPUAction)
        requires
            old(self).wf(),
            (VCOUNT >> 1) < old(memory).ioram@.len(),
        ensures
            final(self).wf(),
            old(self).advanced(old(memory)@, cycles, *final(self), final(memory)@, r),
    {
        self.usable_cycles = self.usable_cycles + cycles as u32;
        self.available_dots = self.available_dots + self.usable_cycles / 4;
        self.usable_cycles = self.usable_cycles % 4;
        let ghost total_dots: int = self.available_dots as int;
        if self.available_dots < 1 {
            return PPUAction::Nothing;
        }
        proof {
            crate::bits::lemma_offset_bits(DISPSTAT);
            crate::bits::lemma_offset_bits(VCOUNT);
        }
        let dispstat = memory.io_load(DISPSTAT);
        let mut action = PPUAction::Nothing;
        let mut dots = self.available_dots;
        while dots > 0
            invariant
                line_wf(self.current_mode, self.x, self.y),
                run_dots(self.current_mode, self.x, self.y, dots as int, action) == run_dots(
                    old(self).current_mode,
                    old(self).x,
                    old(self).y,
                    total_dots,
                    PPUAction::Nothing,
                ),
                self.usable_cycles < 4,
                self.usable_cycles == (old(self).usable_cycles + cycles) % 4,
                self.current_line_objects == old(self).current_line_objects,
                self.show_borders == old(self).show_borders,
            decreases dots,
        {
            let end: i32 = match self.current_mode {
                PPUModes::HDRAW => 240,
                _ => 308,
            };
            let remaining = (end - self.x) as u32;
            if dots < remaining {
                self.x = self.x + dots as i32;
                dots = 0;
            } else {
                dots = dots - remaining;
                match self.current_mode {
                    PPUModes::HDRAW => {
                        self.current_mode = PPUModes::HBLANK;
                        self.x = 240;
                        action = PPUAction::DrawLine(self.y);
                    },
                    PPUModes::HBLANK => {
                        self.x = 0;
                        self.y = self.y + 1;
                        if self.y < 160 {
                            self.current_mode = PPUModes::HDRAW;
                            action = PPUAction::Nothing;
                        } else {
                            self.current_mode = PPUModes::VBLANK;
                            action = PPUAction::ShowFrame;
                        }
                    },
                    PPUModes::VBLANK => {
                        self.x = 0;
                        if self.y + 1 < 228 {
                            self.y = self.y + 1;
                        } else {
                            self.y = 0;
                            self.current_mode = PPUModes::HDRAW;
                        }
                        action = PPUAction::Nothing;
                    },
                }
            }
        }
        self.available_dots = 0;
        let flags = (dispstat & !7u16) | (if self.current_mode == PPUModes::VBLANK { 1u16 } else { 0u16 }) | (
        if self.current_mode == PPUModes::HBLANK {
            2u16
        } else {
            0u16
        }) | (if self.y as u16 == dispstat >> 7u16 { 4u16 } else { 0u16 });
        proof {
            crate::memory::io_handlers::lemma_ppu_io_write_keeps_len(memory@, DISPSTAT, flags);
        }
        memory.ppu_io_write(DISPSTAT, flags);
        memory.ppu_io_write(VCOUNT, self.y as u16);
        action
    }

    /// The unit at the start of a frame.
    pub fn new() -> (r: PPU)
        ensures
            r.wf(),
            r.usable_cycles == 0,
            r.available_dots == 0,
            r.current_mode == PPUModes::HDRAW,
            r.x == 0 && r.y == 0,
            r.current_line_objects@.len() == 0,
            !r.show_borders,
    {
        PPU {
            usable_cycles: 0,
            available_dots: 0,
            current_mode: PPUModes::HDRAW,
            x: 0,
            y: 0,
            current_line_objects: Vec::new(),
            show_borders: false,
        }
    }

    /// Back to the start of a frame; whether borders are shown is kept.
    pub fn reset(&mut self)
        ensures
            final(self).wf(),
            final(self).usable_cycles == 0,
            final(self).available_dots == 0,
            final(self).current_mode == PPUModes::HDRAW,
            final(self).x == 0 && final(self).y == 0,
            final(self).current_line_objects@.len() == 0,
            final(self).show_borders == old(self).show_borders,
    {
        self.usable_cycles = 0;
        self.available_dots = 0;
        self.current_mode = PPUModes::HDRAW;
        self.x = 0;
        self.y = 0;
        self.current_line_objects = Vec::new();
    }

    /// The tile and the pixel within it of a point: (tile x, tile y, pixel
    /// x, pixel y), tiles being 8 pixels square. The division truncates
    /// toward zero, so a negative coordinate gives a negative pixel offset.
    pub fn get_tile_coordinates(x: i32, y: i32) -> (r: (i32, i32, i32, i32))
        ensures
            r.0 == truncated_div8(x),
            r.1 == truncated_div8(y),
            r.2 == x - 8 * truncated_div8(x),
            r.3 == y - 8 * truncated_div8(y),
    {
        let tile_x = x / 8;
        let tile_y = y / 8;
        let pixel_x = x % 8;
        let pixel_y = y % 8;
        (tile_x, tile_y, pixel_x, pixel_y)
    }
}

} // verus!
