use vstd::prelude::*;

use crate::bits::{rotate_right, spec_rotate_right};
use crate::io::timers::{Timer, Timers};
use crate::memory::io_handlers::{
    io_access_ok, io_load16, io_load32, io_load8, io_store16, io_store32, io_store8, KEYINPUT, SOUNDBIAS,
};
use crate::memory::memory_block::{block_offset, SimpleMemoryBlock};
use crate::memory::{le16, le32, le_bytes16, le_bytes32, overwrite, MemoryFetch};
use crate::types::{CYCLES, HWORD, WORD};

verus! {

pub const BIOS_REGION: usize = 0x0;
pub const EXWRAM_REGION: usize = 0x2;
pub const IWRAM_REGION: usize = 0x3;
pub const IORAM_REGION: usize = 0x4;
pub const BGRAM_REGION: usize = 0x5;
pub const VRAM_REGION: usize = 0x6;
pub const OAM_REGION: usize = 0x7;
pub const ROM0A_REGION: usize = 0x8;
pub const ROM2B_REGION: usize = 0xD;
pub const SRAM_REGION: usize = 0xE;

pub const BIOS_SIZE: usize = 0x4000;
pub const EXWRAM_SIZE: usize = 0x40000;
pub const IWRAM_SIZE: usize = 0x8000;
pub const IORAM_SIZE: usize = 0x3FF;
pub const BGRAM_SIZE: usize = 0x400;
pub const VRAM_SIZE: usize = 0x18000;
pub const OAM_SIZE: usize = 0x400;
pub const ROM_SIZE: usize = 0x1000000;
pub const SRAM_SIZE: usize = 0x10000;

pub const EX_WRAM_MIRROR_MASK: usize = 0x3FFFF;
pub const IWRAM_MIRROR_MASK: usize = 0x7FFF;
pub const BGRAM_MIRROR_MASK: usize = 0x3FF;
pub const OAM_MIRROR_MASK: usize = 0x3FF;
pub const NO_MIRROR_MASK: usize = 0xFFFFFF;

/// What a write to the I/O registers asks of the CPU.
#[derive(Clone, Copy, Debug, PartialEq, Eq, Structural)]
pub enum CPUCallbacks {
    Halt,
    Stop,
    RaiseIrq,
}

/// Why a memory access failed.
#[derive(Debug, Clone, Copy, PartialEq, Eq, Structural)]
pub enum MemoryError {
    NoIODefinition(usize),
    ReadError(usize),
    WriteError(usize, u32),
}

/// The region of the address map that an address falls in: its top byte.
pub open spec fn region_of(address: usize) -> usize {
    address >> 24
}

/// Whether the address lies in a region of the map. Region 1 is unused and
/// there are fifteen regions.
pub open spec fn mapped(address: usize) -> bool {
    region_of(address) != 1 && region_of(address) < 15
}

/// The mirror mask of a region's block.
pub open spec fn region_mask(r: usize) -> usize {
    if r == EXWRAM_REGION {
        EX_WRAM_MIRROR_MASK
    } else if r == IWRAM_REGION {
        IWRAM_MIRROR_MASK
    } else if r == BGRAM_REGION {
        BGRAM_MIRROR_MASK
    } else if r == OAM_REGION {
        OAM_MIRROR_MASK
    } else {
        NO_MIRROR_MASK
    }
}

/// The wait cycles of a byte or half-word access to a region.
pub open spec fn wait16(r: usize) -> u8 {
    if r == 0 || r == 3 || r == 4 || r == 5 || r == 6 || r == 7 {
        1
    } else if r == 2 {
        3
    } else if 8 <= r <= 14 {
        5
    } else {
        0
    }
}

/// The wait cycles of a word access to a region.
pub open spec fn wait32(r: usize) -> u8 {
    if r == 0 || r == 3 || r == 4 || r == 7 {
        1
    } else if r == 5 || r == 6 {
        2
    } else if r == 2 {
        6
    } else if 8 <= r <= 13 {
        8
    } else {
        0
    }
}

/// `s` with `value` stored at `index`, when `index` is inside it.
pub open spec fn io_stored(s: Seq<u16>, index: int, value: u16) -> Seq<u16> {
    if 0 <= index < s.len() {
        s.update(index, value)
    } else {
        s
    }
}

/// The half word of the I/O registers after a byte write at `address`: the
/// other byte of the half word is kept.
pub open spec fn io_byte_merged(current: u16, address: usize, value: u8) -> u16 {
    if address & 1 == 0 {
        (current & 0xFF00u16) | (value as u16)
    } else {
        (current & 0x00FFu16) | ((value as u16) << 8u16)
    }
}

/// The contents of the memory map: the bytes of each storage block (BIOS,
/// external work RAM, internal work RAM, palette RAM, VRAM, OAM, ROM and
/// SRAM, in that order), the I/O register half words, the commands that
/// register writes left for the CPU, and the timers.
pub type MemoryView = (Seq<Seq<u8>>, Seq<u16>, Seq<CPUCallbacks>, Seq<Timer>);

/// The storage block that serves region `r`: the cartridge regions share
/// the ROM; 8 stands for none.
pub open spec fn storage_of(r: usize) -> int {
    if r == BIOS_REGION {
        0
    } else if r == EXWRAM_REGION {
        1
    } else if r == IWRAM_REGION {
        2
    } else if r == BGRAM_REGION {
        3
    } else if r == VRAM_REGION {
        4
    } else if r == OAM_REGION {
        5
    } else if 8 <= r <= 13 {
        6
    } else if r == SRAM_REGION {
        7
    } else {
        8
    }
}

/// The bytes of the block that serves region `r`.
pub open spec fn view_block(v: MemoryView, r: usize) -> Seq<u8> {
    if storage_of(r) < 8 {
        v.0[storage_of(r)]
    } else {
        Seq::empty()
    }
}

/// The block offset of an access of `size` bytes at `address`.
pub open spec fn view_offset(address: usize, size: usize) -> int {
    block_offset(address, size, region_mask(region_of(address))) as int
}

/// Whether an access of `size` bytes at `address` can be served: the
/// address is mapped; in the I/O registers, the registers it touches are in
/// the register table; elsewhere the access lands inside its block.
pub open spec fn view_fits(v: MemoryView, address: usize, size: usize) -> bool {
    &&& mapped(address)
    &&& if region_of(address) == IORAM_REGION {
        io_access_ok(address, size)
    } else {
        view_offset(address, size) + size <= view_block(v, region_of(address)).len()
    }
}

/// Byte `k` of an access of `size` bytes at `address`.
pub open spec fn view_byte(v: MemoryView, address: usize, size: usize, k: int) -> u8 {
    view_block(v, region_of(address))[view_offset(address, size) + k]
}

/// The I/O register half word at offset `offset`; offsets past the
/// registers read as 0.
pub open spec fn view_io(v: MemoryView, offset: usize) -> u16 {
    if (offset >> 1) < v.1.len() {
        v.1[(offset >> 1) as int]
    } else {
        0
    }
}

/// What a byte read at `address` gives.
pub open spec fn view_load8(v: MemoryView, address: usize) -> u8 {
    if region_of(address) == IORAM_REGION {
        io_load8(v, address)
    } else {
        view_byte(v, address, 1, 0)
    }
}

/// What a half-word read at `address` gives.
pub open spec fn view_load16(v: MemoryView, address: usize) -> u16 {
    if region_of(address) == IORAM_REGION {
        io_load16(v, address)
    } else {
        le16(view_byte(v, address, 2, 0), view_byte(v, address, 2, 1))
    }
}

/// The aligned word that holds `address`.
pub open spec fn view_aligned_word(v: MemoryView, address: usize) -> u32 {
    if region_of(address) == IORAM_REGION {
        io_load32(v, address)
    } else {
        le32(view_byte(v, address, 4, 0), view_byte(v, address, 4, 1), view_byte(v, address, 4, 2), view_byte(v, address, 4, 3))
    }
}

/// What a word read at `address` gives: the aligned word, rotated right by
/// eight times the address's offset in it.
pub open spec fn view_load32(v: MemoryView, address: usize) -> u32 {
    spec_rotate_right(view_aligned_word(v, address), (8 * ((address & 3usize) as u32)) as u32)
}

/// The regions whose blocks take writes.
pub open spec fn writable_region(r: usize) -> bool {
    r == EXWRAM_REGION || r == IWRAM_REGION || r == BGRAM_REGION || r == VRAM_REGION || r == OAM_REGION || r
        == SRAM_REGION
}

/// The contents after `bytes` were written to the block at `address`,
/// aligned for an access of `size` bytes; the BIOS and the ROM ignore it.
pub open spec fn view_store_block(v: MemoryView, address: usize, size: usize, bytes: Seq<u8>) -> MemoryView {
    let s = storage_of(region_of(address));
    if writable_region(region_of(address)) {
        (v.0.update(s, overwrite(v.0[s], view_offset(address, size), bytes)), v.1, v.2, v.3)
    } else {
        v
    }
}

/// The contents after a byte write at `address`.
pub open spec fn view_store8(v: MemoryView, address: usize, value: u8) -> MemoryView {
    if region_of(address) == IORAM_REGION {
        io_store8(v, address, value)
    } else {
        view_store_block(v, address, 1, seq![value])
    }
}

/// The contents after a half-word write at `address`.
pub open spec fn view_store16(v: MemoryView, address: usize, value: u16) -> MemoryView {
    if region_of(address) == IORAM_REGION {
        io_store16(v, address, value)
    } else {
        view_store_block(v, address, 2, le_bytes16(value))
    }
}

/// The contents after a word write at `address`.
pub open spec fn view_store32(v: MemoryView, address: usize, value: u32) -> MemoryView {
    if region_of(address) == IORAM_REGION {
        io_store32(v, address, value)
    } else {
        view_store_block(v, address, 4, le_bytes32(value))
    }
}

/// The memory map: a block per region, and the I/O registers as half words.
pub struct GBAMemory {
    pub bios: SimpleMemoryBlock<NO_MIRROR_MASK>,
    pub exwram: SimpleMemoryBlock<EX_WRAM_MIRROR_MASK>,
    pub iwram: SimpleMemoryBlock<IWRAM_MIRROR_MASK>,
    pub ioram: Vec<u16>,
    pub pallete_ram: SimpleMemoryBlock<BGRAM_MIRROR_MASK>,
    pub vram: SimpleMemoryBlock<NO_MIRROR_MASK>,
    pub oam: SimpleMemoryBlock<OAM_MIRROR_MASK>,
    pub rom: SimpleMemoryBlock<NO_MIRROR_MASK>,
    pub sram: SimpleMemoryBlock<NO_MIRROR_MASK>,
    pub cpu_commands: Vec<CPUCallbacks>,
    pub timers: Timers,
}

impl View for GBAMemory {
    type V = MemoryView;

    open spec fn view(&self) -> MemoryView {
        (
            seq![
                self.bios.memory@,
                self.exwram.memory@,
                self.iwram.memory@,
                self.pallete_ram.memory@,
                self.vram.memory@,
                self.oam.memory@,
                self.rom.memory@,
                self.sram.memory@,
            ],
            self.ioram@,
            self.cpu_commands@,
            self.timers.0@,
        )
    }
}

impl GBAMemory {
    /// The bytes of the block that serves region `r`; the cartridge regions
    /// share the ROM.
    pub open spec fn block(self, r: usize) -> Seq<u8> {
        view_block(self@, r)
    }

    /// The block offset of an access of `size` bytes at `address`.
    pub open spec fn offset_of(address: usize, size: usize) -> int {
        view_offset(address, size)
    }

    /// Whether an access of `size` bytes at `address` can be served.
    pub open spec fn fits(self, address: usize, size: usize) -> bool {
        view_fits(self@, address, size)
    }

    /// Whether a write of `size` bytes at `address` can be served: the BIOS
    /// and the cartridge ROM ignore any write; elsewhere the access must fit.
    pub open spec fn write_ok(self, address: usize, size: usize) -> bool {
        ||| region_of(address) == BIOS_REGION
        ||| 8 <= region_of(address) <= 13
        ||| self.fits(address, size)
    }

    /// Byte `k` of an access of `size` bytes at `address`.
    pub open spec fn byte(self, address: usize, size: usize, k: int) -> u8 {
        view_byte(self@, address, size, k)
    }

    /// The I/O register half word at offset `offset`.
    pub open spec fn io_value(self, offset: usize) -> u16 {
        view_io(self@, offset)
    }

    /// What a byte read at `address` gives.
    pub open spec fn load8(self, address: usize) -> u8 {
        view_load8(self@, address)
    }

    /// What a half-word read at `address` gives.
    pub open spec fn load16(self, address: usize) -> u16 {
        view_load16(self@, address)
    }

    /// The aligned word that holds `address`.
    pub open spec fn aligned_word(self, address: usize) -> u32 {
        view_aligned_word(self@, address)
    }

    /// What a word read at `address` gives.
    pub open spec fn load32(self, address: usize) -> u32 {
        view_load32(self@, address)
    }

    /// `next` is this memory with `bytes` written at offset `offset` of the
    /// block of region `r`; the BIOS and the ROM ignore writes.
    pub open spec fn block_written(self, next: GBAMemory, r: usize, offset: int, bytes: Seq<u8>) -> bool {
        &&& next.bios == self.bios
        &&& next.rom == self.rom
        &&& next.ioram == self.ioram
        &&& next.cpu_commands == self.cpu_commands
        &&& next.timers == self.timers
        &&& next.exwram.memory@ == if r == EXWRAM_REGION {
            overwrite(self.exwram.memory@, offset, bytes)
        } else {
            self.exwram.memory@
        }
        &&& next.iwram.memory@ == if r == IWRAM_REGION {
            overwrite(self.iwram.memory@, offset, bytes)
        } else {
            self.iwram.memory@
        }
        &&& next.pallete_ram.memory@ == if r == BGRAM_REGION {
            overwrite(self.pallete_ram.memory@, offset, bytes)
        } else {
            self.pallete_ram.memory@
        }
        &&& next.vram.memory@ == if r == VRAM_REGION {
            overwrite(self.vram.memory@, offset, bytes)
        } else {
            self.vram.memory@
        }
        &&& next.oam.memory@ == if r == OAM_REGION {
            overwrite(self.oam.memory@, offset, bytes)
        } else {
            self.oam.memory@
        }
        &&& next.sram.memory@ == if r == SRAM_REGION {
            overwrite(self.sram.memory@, offset, bytes)
        } else {
            self.sram.memory@
        }
    }

    /// `next` is this memory with only the I/O registers changed to `io`.
    pub open spec fn io_written(self, next: GBAMemory, io: Seq<u16>) -> bool {
        &&& next.bios == self.bios
        &&& next.exwram == self.exwram
        &&& next.iwram == self.iwram
        &&& next.pallete_ram == self.pallete_ram
        &&& next.vram == self.vram
        &&& next.oam == self.oam
        &&& next.rom == self.rom
        &&& next.sram == self.sram
        &&& next.ioram@ == io
        &&& next.cpu_commands == self.cpu_commands
        &&& next.timers == self.timers
    }

    /// Every block cleared, the sound bias and keypad registers at their reset
    /// values.
    pub fn new() -> (r: GBAMemory)
        ensures
            r.bios.memory@.len() == BIOS_SIZE + 4,
            r.exwram.memory@.len() == EXWRAM_SIZE + 4,
            r.iwram.memory@.len() == IWRAM_SIZE + 4,
            r.pallete_ram.memory@.len() == BGRAM_SIZE + 4,
            r.vram.memory@.len() == VRAM_SIZE + 4,
            r.oam.memory@.len() == OAM_SIZE + 4,
            r.rom.memory@.len() == ROM_SIZE + 4,
            r.sram.memory@.len() == SRAM_SIZE + 4,
            r.ioram@.len() == IORAM_SIZE / 2,
            forall|i: int| 0 <= i < r.exwram.memory@.len() ==> r.exwram.memory@[i] == 0,
            forall|i: int| 0 <= i < r.iwram.memory@.len() ==> r.iwram.memory@[i] == 0,
            forall|i: int| 0 <= i < r.vram.memory@.len() ==> r.vram.memory@[i] == 0,
            forall|i: int| 0 <= i < r.rom.memory@.len() ==> r.rom.memory@[i] == 0,
            r.io_value(SOUNDBIAS) == 0x200,
            r.io_value(KEYINPUT) == 0x03FF,
            forall|i: int| 0 <= i < r.ioram@.len() && i != SOUNDBIAS / 2 && i != KEYINPUT / 2 ==> r.ioram@[i] == 0,
    {
        let mut memory = GBAMemory {
            bios: SimpleMemoryBlock::new(BIOS_SIZE),
            exwram: SimpleMemoryBlock::new(EXWRAM_SIZE),
            iwram: SimpleMemoryBlock::new(IWRAM_SIZE),
            ioram: vec![0u16; IORAM_SIZE >> 1],
            pallete_ram: SimpleMemoryBlock::new(BGRAM_SIZE),
            vram: SimpleMemoryBlock::new(VRAM_SIZE),
            oam: SimpleMemoryBlock::new(OAM_SIZE),
            rom: SimpleMemoryBlock::new(ROM_SIZE),
            sram: SimpleMemoryBlock::new(SRAM_SIZE),
            cpu_commands: Vec::new(),
            timers: Timers::new(),
        };
        proof {
            lemma_io_constants();
        }
        memory.io_store(SOUNDBIAS, 0x200);
        memory.io_store(KEYINPUT, 0x03FF);
        memory
    }

    /// Puts the BIOS image `contents` at the start of the BIOS block; nothing
    /// else changes. An image longer than the block is refused.
    pub fn initialize_bios(&mut self, contents: &Vec<u8>)
        requires
            contents.len() <= old(self).bios.memory.len(),
        ensures
            final(self).bios.memory@ == overwrite(old(self).bios.memory@, 0, contents@),
            final(self).exwram == old(self).exwram,
            final(self).iwram == old(self).iwram,
            final(self).ioram == old(self).ioram,
            final(self).pallete_ram == old(self).pallete_ram,
            final(self).vram == old(self).vram,
            final(self).oam == old(self).oam,
            final(self).rom == old(self).rom,
            final(self).sram == old(self).sram,
            final(self).cpu_commands == old(self).cpu_commands,
            final(self).timers == old(self).timers,
    {
        self.bios.load(contents);
    }

    /// Puts the cartridge image `contents` at the start of the ROM block;
    /// nothing else changes. An image longer than the block is refused.
    pub fn initialize_rom(&mut self, contents: &Vec<u8>)
        requires
            contents.len() <= old(self).rom.memory.len(),
        ensures
            final(self).rom.memory@ == overwrite(old(self).rom.memory@, 0, contents@),
            final(self).bios == old(self).bios,
            final(self).exwram == old(self).exwram,
            final(self).iwram == old(self).iwram,
            final(self).ioram == old(self).ioram,
            final(self).pallete_ram == old(self).pallete_ram,
            final(self).vram == old(self).vram,
            final(self).oam == old(self).oam,
            final(self).sram == old(self).sram,
            final(self).cpu_commands == old(self).cpu_commands,
            final(self).timers == old(self).timers,
    {
        self.rom.load(contents);
    }

    /// Clearing the work RAM on reset is left to the blocks' creation:
    /// nothing changes.
    pub fn clear_ram(&mut self)
        ensures
            *final(self) == *old(self),
    {
    }

    /// The I/O register half word at `address` (an offset into the
    /// registers); past the registers it reads as 0.
    pub fn io_load(&self, address: usize) -> (r: u16)
        ensures
            r == self.io_value(address),
    {
        let index = address >> 1;
        if index < self.ioram.len() {
            self.ioram[index]
        } else {
            0
        }
    }

    /// Stores an I/O register half word; past the registers it is dropped.
    pub fn io_store(&mut self, address: usize, value: u16)
        ensures
            old(self).io_written(*final(self), io_stored(old(self).ioram@, (address >> 1) as int, value)),
    {
        let index = address >> 1;
        if index < self.ioram.len() {
            self.ioram.set(index, value);
        }
    }

    fn wait_cycles_u16(region: usize) -> (r: u8)
        ensures
            r == wait16(region),
    {
        if region == 0 || region == 3 || region == 4 || region == 5 || region == 6 || region == 7 {
            1
        } else if region == 2 {
            3
        } else if 8 <= region && region <= 14 {
            5
        } else {
            0
        }
    }

    fn wait_cycles_u32(region: usize) -> (r: u8)
        ensures
            r == wait32(region),
    {
        if region == 0 || region == 3 || region == 4 || region == 7 {
            1
        } else if region == 5 || region == 6 {
            2
        } else if region == 2 {
            6
        } else if 8 <= region && region <= 13 {
            8
        } else {
            0
        }
    }
}

impl GBAMemory {
    fn block_readu8(&self, region: usize, address: usize) -> (r: u8)
        requires
            region == region_of(address),
            region != IORAM_REGION,
            self.fits(address, 1),
        ensures
            r == self.byte(address, 1, 0),
    {
        if region == BIOS_REGION {
            self.bios.readu8(address)
        } else if region == EXWRAM_REGION {
            self.exwram.readu8(address)
        } else if region == IWRAM_REGION {
            self.iwram.readu8(address)
        } else if region == BGRAM_REGION {
            self.pallete_ram.readu8(address)
        } else if region == VRAM_REGION {
            self.vram.readu8(address)
        } else if region == OAM_REGION {
            self.oam.readu8(address)
        } else if 8 <= region && region <= 13 {
            self.rom.readu8(address)
        } else {
            self.sram.readu8(address)
        }
    }

    fn block_readu16(&self, region: usize, address: usize) -> (r: u16)
        requires
            region == region_of(address),
            region != IORAM_REGION,
            self.fits(address, 2),
        ensures
            r == le16(self.byte(address, 2, 0), self.byte(address, 2, 1)),
    {
        if region == BIOS_REGION {
            self.bios.readu16(address)
        } else if region == EXWRAM_REGION {
            self.exwram.readu16(address)
        } else if region == IWRAM_REGION {
            self.iwram.readu16(address)
        } else if region == BGRAM_REGION {
            self.pallete_ram.readu16(address)
        } else if region == VRAM_REGION {
            self.vram.readu16(address)
        } else if region == OAM_REGION {
            self.oam.readu16(address)
        } else if 8 <= region && region <= 13 {
            self.rom.readu16(address)
        } else {
            self.sram.readu16(address)
        }
    }

    fn block_readu32(&self, region: usize, address: usize) -> (r: u32)
        requires
            region == region_of(address),
            region != IORAM_REGION,
            self.fits(address, 4),
        ensures
            r == le32(self.byte(address, 4, 0), self.byte(address, 4, 1), self.byte(address, 4, 2), self.byte(address, 4, 3)),
    {
        if region == BIOS_REGION {
            self.bios.readu32(address)
        } else if region == EXWRAM_REGION {
            self.exwram.readu32(address)
        } else if region == IWRAM_REGION {
            self.iwram.readu32(address)
        } else if region == BGRAM_REGION {
            self.pallete_ram.readu32(address)
        } else if region == VRAM_REGION {
            self.vram.readu32(address)
        } else if region == OAM_REGION {
            self.oam.readu32(address)
        } else if 8 <= region && region <= 13 {
            self.rom.readu32(address)
        } else {
            self.sram.readu32(address)
        }
    }

    /// Whether an access of `size` bytes (1, 2 or 4) at `address` can be
    /// served.
    pub fn can_access(&self, address: usize, size: usize) -> (r: bool)
        requires
            size == 1 || size == 2 || size == 4,
        ensures
            r == self.fits(address, size),
    {
        let region = address >> 24;
        if region == 1 || region >= 15 {
            false
        } else if region == IORAM_REGION {
            Self::io_access_allowed(address, size)
        } else if region == BIOS_REGION {
            self.bios.can_access(address, size)
        } else if region == EXWRAM_REGION {
            self.exwram.can_access(address, size)
        } else if region == IWRAM_REGION {
            self.iwram.can_access(address, size)
        } else if region == BGRAM_REGION {
            self.pallete_ram.can_access(address, size)
        } else if region == VRAM_REGION {
            self.vram.can_access(address, size)
        } else if region == OAM_REGION {
            self.oam.can_access(address, size)
        } else if 8 <= region && region <= 13 {
            self.rom.can_access(address, size)
        } else {
            self.sram.can_access(address, size)
        }
    }

    /// Reads a byte; the access takes the region's half-word wait cycles.
    pub fn read(&self, address: usize) -> (r: MemoryFetch<u8>)
        requires
            self.fits(address, 1),
        ensures
            r.data == self.load8(address),
            r.cycles == wait16(region_of(address)),
    {
        let region = address >> 24;
        let read = if region == IORAM_REGION {
            self.io_readu8(address).unwrap()
        } else {
            self.block_readu8(region, address)
        };
        MemoryFetch { cycles: Self::wait_cycles_u16(region), data: read }
    }

    /// Reads a byte without counting cycles.
    pub fn read_raw(&self, address: usize) -> (r: u8)
        requires
            self.fits(address, 1),
        ensures
            r == self.load8(address),
    {
        let region = address >> 24;
        if region == IORAM_REGION {
            self.io_readu8(address).unwrap()
        } else {
            self.block_readu8(region, address)
        }
    }

    /// Reads the half word that holds `address`.
    pub fn readu16(&self, address: usize) -> (r: MemoryFetch<HWORD>)
        requires
            self.fits(address, 2),
        ensures
            r.data == self.load16(address),
            r.cycles == wait16(region_of(address)),
    {
        let region = address >> 24;
        let read = if region == IORAM_REGION {
            self.io_readu16(address).unwrap()
        } else {
            self.block_readu16(region, address)
        };
        MemoryFetch { cycles: Self::wait_cycles_u16(region), data: read }
    }

    /// Reads the word that holds `address`, rotated so that the addressed
    /// byte comes first.
    pub fn readu32(&self, address: usize) -> (r: MemoryFetch<WORD>)
        requires
            self.fits(address, 4),
        ensures
            r.data == self.load32(address),
            r.cycles == wait32(region_of(address)),
    {
        let region = address >> 24;
        let data = if region == IORAM_REGION {
            self.io_readu32(address).unwrap()
        } else {
            self.block_readu32(region, address)
        };
        proof {
            crate::bits::lemma_offset_bits(address);
        }
        let rotation = 8 * ((address & 3) as u32);
        MemoryFetch { cycles: Self::wait_cycles_u32(region), data: rotate_right(data, rotation) }
    }
}

impl GBAMemory {
    fn block_writeu8(&mut self, region: usize, address: usize, value: u8)
        requires
            region == region_of(address),
            region != IORAM_REGION,
            old(self).write_ok(address, 1),
        ensures
            old(self).block_written(*final(self), region, GBAMemory::offset_of(address, 1), seq![value]),
    {
        if region == EXWRAM_REGION {
            self.exwram.writeu8(address, value);
        } else if region == IWRAM_REGION {
            self.iwram.writeu8(address, value);
        } else if region == BGRAM_REGION {
            self.pallete_ram.writeu8(address, value);
        } else if region == VRAM_REGION {
            self.vram.writeu8(address, value);
        } else if region == OAM_REGION {
            self.oam.writeu8(address, value);
        } else if region == SRAM_REGION {
            self.sram.writeu8(address, value);
        }
    }

    fn block_writeu16(&mut self, region: usize, address: usize, value: u16)
        requires
            region == region_of(address),
            region != IORAM_REGION,
            old(self).write_ok(address, 2),
        ensures
            old(self).block_written(*final(self), region, GBAMemory::offset_of(address, 2), le_bytes16(value)),
    {
        if region == EXWRAM_REGION {
            self.exwram.writeu16(address, value);
        } else if region == IWRAM_REGION {
            self.iwram.writeu16(address, value);
        } else if region == BGRAM_REGION {
            self.pallete_ram.writeu16(address, value);
        } else if region == VRAM_REGION {
            self.vram.writeu16(address, value);
        } else if region == OAM_REGION {
            self.oam.writeu16(address, value);
        } else if region == SRAM_REGION {
            self.sram.writeu16(address, value);
        }
    }

    fn block_writeu32(&mut self, region: usize, address: usize, value: u32)
        requires
            region == region_of(address),
            region != IORAM_REGION,
            old(self).write_ok(address, 4),
        ensures
            old(self).block_written(*final(self), region, GBAMemory::offset_of(address, 4), le_bytes32(value)),
    {
        if region == EXWRAM_REGION {
            self.exwram.writeu32(address, value);
        } else if region == IWRAM_REGION {
            self.iwram.writeu32(address, value);
        } else if region == BGRAM_REGION {
            self.pallete_ram.writeu32(address, value);
        } else if region == VRAM_REGION {
            self.vram.writeu32(address, value);
        } else if region == OAM_REGION {
            self.oam.writeu32(address, value);
        } else if region == SRAM_REGION {
            self.sram.writeu32(address, value);
        }
    }

    /// Writes a byte; the BIOS and the ROM ignore it. Takes the region's
    /// half-word wait cycles.
    pub fn write(&mut self, address: usize, value: u8) -> (r: CYCLES)
        requires
            old(self).write_ok(address, 1),
        ensures
            r == wait16(region_of(address)),
            final(self)@ == view_store8(old(self)@, address, value),
            region_of(address) != IORAM_REGION ==> old(self).block_written(
                *final(self),
                region_of(address),
                GBAMemory::offset_of(address, 1),
                seq![value],
            ),
    {
        let region = address >> 24;
        if region == IORAM_REGION {
            let _ = self.io_writeu8(address, value);
        } else {
            self.block_writeu8(region, address, value);
        }
        Self::wait_cycles_u16(region)
    }

    /// Writes the half word that holds `address`.
    pub fn writeu16(&mut self, address: usize, value: u16) -> (r: CYCLES)
        requires
            old(self).write_ok(address, 2),
        ensures
            r == wait16(region_of(address)),
            final(self)@ == view_store16(old(self)@, address, value),
            region_of(address) != IORAM_REGION ==> old(self).block_written(
                *final(self),
                region_of(address),
                GBAMemory::offset_of(address, 2),
                le_bytes16(value),
            ),
    {
        let region = address >> 24;
        if region == IORAM_REGION {
            let _ = self.io_writeu16(address, value);
        } else {
            self.block_writeu16(region, address, value);
        }
        Self::wait_cycles_u16(region)
    }

    /// Writes the word that holds `address`.
    pub fn writeu32(&mut self, address: usize, value: u32) -> (r: CYCLES)
        requires
            old(self).write_ok(address, 4),
        ensures
            r == wait32(region_of(address)),
            final(self)@ == view_store32(old(self)@, address, value),
            region_of(address) != IORAM_REGION ==> old(self).block_written(
                *final(self),
                region_of(address),
                GBAMemory::offset_of(address, 4),
                le_bytes32(value),
            ),
    {
        let region = address >> 24;
        if region == IORAM_REGION {
            let _ = self.io_writeu32(address, value);
        } else {
            self.block_writeu32(region, address, value);
        }
        Self::wait_cycles_u32(region)
    }
}

/// A word written to a block that takes writes reads back as written: the
/// word that holds the address is the value.
pub proof fn lemma_memory_word_read_back(v: MemoryView, address: usize, value: u32)
    requires
        v.0.len() == 8,
        view_fits(v, address, 4),
        writable_region(region_of(address)),
    ensures
        view_fits(view_store32(v, address, value), address, 4),
        view_aligned_word(view_store32(v, address, value), address) == value,
{
    crate::memory::lemma_le32_round_trip(value);
}

/// A half word written to a block that takes writes reads back as written.
pub proof fn lemma_memory_half_word_read_back(v: MemoryView, address: usize, value: u16)
    requires
        v.0.len() == 8,
        view_fits(v, address, 2),
        writable_region(region_of(address)),
    ensures
        view_fits(view_store16(v, address, value), address, 2),
        view_load16(view_store16(v, address, value), address) == value,
{
    crate::memory::lemma_le16_round_trip(value);
}

/// A byte written to a block that takes writes reads back as written.
pub proof fn lemma_memory_byte_read_back(v: MemoryView, address: usize, value: u8)
    requires
        v.0.len() == 8,
        view_fits(v, address, 1),
        writable_region(region_of(address)),
    ensures
        view_fits(view_store8(v, address, value), address, 1),
        view_load8(view_store8(v, address, value), address) == value,
{
}

/// The BIOS and the cartridge ROM ignore writes.
pub proof fn lemma_read_only_regions(v: MemoryView, address: usize, value: u32)
    requires
        region_of(address) == BIOS_REGION || 8 <= region_of(address) <= 13,
    ensures
        view_store32(v, address, value) == v,
        view_store16(v, address, value as u16) == v,
        view_store8(v, address, value as u8) == v,
{
}

/// A write to one block leaves every other block, and the I/O registers,
/// as they were.
pub proof fn lemma_store_keeps_other_blocks(v: MemoryView, address: usize, value: u32, r: usize)
    requires
        region_of(address) != IORAM_REGION,
        storage_of(r) != storage_of(region_of(address)),
        storage_of(region_of(address)) < 8,
        v.0.len() == 8,
    ensures
        view_block(view_store32(v, address, value), r) == view_block(v, r),
        view_block(view_store16(v, address, value as u16), r) == view_block(v, r),
        view_block(view_store8(v, address, value as u8), r) == view_block(v, r),
        view_store32(v, address, value).1 == v.1,
{
}

/// A write keeps every block's length, so whatever access could be served
/// before still can.
pub proof fn lemma_store_keeps_fits(v: MemoryView, address: usize, value: u32)
    requires
        v.0.len() == 8,
    ensures
        view_store32(v, address, value).0.len() == 8,
        view_store16(v, address, value as u16).0.len() == 8,
        view_store8(v, address, value as u8).0.len() == 8,
        forall|b: usize, size: usize| #[trigger] view_fits(view_store32(v, address, value), b, size) == view_fits(v, b, size),
        forall|b: usize, size: usize| #[trigger] view_fits(view_store16(v, address, value as u16), b, size) == view_fits(v, b, size),
        forall|b: usize, size: usize| #[trigger] view_fits(view_store8(v, address, value as u8), b, size) == view_fits(v, b, size),
{
    assert forall|r: usize| #[trigger] view_block(view_store32(v, address, value), r).len() == view_block(v, r).len() by {}
    assert forall|r: usize| #[trigger] view_block(view_store16(v, address, value as u16), r).len() == view_block(v, r).len() by {}
    assert forall|r: usize| #[trigger] view_block(view_store8(v, address, value as u8), r).len() == view_block(v, r).len() by {}
}

/// In the mirrored regions an address and the address one block further on
/// reach the same offsets, and the same position in a word.
proof fn lemma_mirror_offsets(a: usize)
    by (bit_vector)
    ensures
        ((a + 0x40000usize) as usize & !3usize) & 0x3FFFFusize == (a & !3usize) & 0x3FFFFusize,
        ((a + 0x40000usize) as usize & !1usize) & 0x3FFFFusize == (a & !1usize) & 0x3FFFFusize,
        ((a + 0x40000usize) as usize) & 0x3FFFFusize == a & 0x3FFFFusize,
        ((a + 0x40000usize) as usize) & 3usize == a & 3usize,
        ((a + 0x8000usize) as usize & !3usize) & 0x7FFFusize == (a & !3usize) & 0x7FFFusize,
        ((a + 0x8000usize) as usize & !1usize) & 0x7FFFusize == (a & !1usize) & 0x7FFFusize,
        ((a + 0x8000usize) as usize) & 0x7FFFusize == a & 0x7FFFusize,
        ((a + 0x8000usize) as usize) & 3usize == a & 3usize,
        ((a + 0x400usize) as usize & !3usize) & 0x3FFusize == (a & !3usize) & 0x3FFusize,
        ((a + 0x400usize) as usize & !1usize) & 0x3FFusize == (a & !1usize) & 0x3FFusize,
        ((a + 0x400usize) as usize) & 0x3FFusize == a & 0x3FFusize,
        ((a + 0x400usize) as usize) & 3usize == a & 3usize,
{
}

/// Work RAM, palette RAM and OAM repeat through their regions: an address
/// and the address one block size further on, in the same region, serve
/// the same accesses and read alike.
pub proof fn lemma_mirrored_access(v: MemoryView, a: usize)
    requires
        v.0.len() == 8,
        region_of(a) == EXWRAM_REGION || region_of(a) == IWRAM_REGION || region_of(a) == BGRAM_REGION
            || region_of(a) == OAM_REGION,
        a + region_mask(region_of(a)) + 1 <= usize::MAX,
        region_of((a + region_mask(region_of(a)) + 1) as usize) == region_of(a),
    ensures
        ({
            let b = (a + region_mask(region_of(a)) + 1) as usize;
            &&& forall|size: usize| size == 1 || size == 2 || size == 4 ==> #[trigger] view_fits(v, b, size) == view_fits(v, a, size)
            &&& view_load8(v, b) == view_load8(v, a)
            &&& view_load16(v, b) == view_load16(v, a)
            &&& view_load32(v, b) == view_load32(v, a)
        }),
{
    lemma_mirror_offsets(a);
    let b = (a + region_mask(region_of(a)) + 1) as usize;
    assert(view_offset(b, 1) == view_offset(a, 1));
    assert(view_offset(b, 2) == view_offset(a, 2));
    assert(view_offset(b, 4) == view_offset(a, 4));
    assert(b & 3usize == a & 3usize);
}

/// The I/O registers hold half words: the register file has half as many
/// entries as bytes, and the registers set at reset sit at these entries.
proof fn lemma_io_constants()
    by (bit_vector)
    ensures
        (IORAM_SIZE >> 1) == IORAM_SIZE / 2,
        (SOUNDBIAS >> 1) == 0x44,
        (KEYINPUT >> 1) == 0x98,
{
}

} // verus!
