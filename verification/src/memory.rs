use vstd::prelude::*;

use crate::types::{BYTE, CYCLES, HWORD, WORD};

pub mod dispcnt;
pub mod io_handlers;
pub mod memory;
pub mod memory_block;
pub mod oam;


pub mod wrappers;

verus! {

/// The number of memory segments of the address map.
pub const NUM_SEGMENTS: usize = 11;

/// The widths of an access: 0 for a byte, 1 for a half word, 2 for a word.
pub const EIGHT: usize = 0;
pub const SIXTEEN: usize = 1;
pub const THIRTYTWO: usize = 2;

/// The privilege of an access. Every segment treats both alike.
#[derive(Debug, Clone, Copy, PartialEq, Eq, Structural)]
pub enum AccessFlags {
    User,
    Privileged,
}

/// A value read from memory and the cycles the access took.
pub struct MemoryFetch<T> {
    pub cycles: CYCLES,
    pub data: T,
}

/// The first address of segment `i`.
pub open spec fn seg_start(i: int) -> int {
    if i == 0 {
        0x0
    } else if i == 1 {
        0x2000000
    } else if i == 2 {
        0x3000000
    } else if i == 3 {
        0x4000000
    } else if i == 4 {
        0x5000000
    } else if i == 5 {
        0x6000000
    } else if i == 6 {
        0x7000000
    } else if i == 7 {
        0x8000000
    } else if i == 8 {
        0xa000000
    } else if i == 9 {
        0xc000000
    } else if i == 10 {
        0xe000000
    } else {
        0
    }
}

/// The address just past segment `i`.
pub open spec fn seg_end(i: int) -> int {
    if i == 0 {
        0x3fff
    } else if i == 1 {
        0x2040000
    } else if i == 2 {
        0x3008000
    } else if i == 3 {
        0x5000000
    } else if i == 4 {
        0x5000400
    } else if i == 5 {
        0x6017fff
    } else if i == 6 {
        0x7000400
    } else if i == 7 {
        0xa000000
    } else if i == 8 {
        0xc000000
    } else if i == 9 {
        0xe000000
    } else if i == 10 {
        0xe001000
    } else {
        0
    }
}

/// The wait states of an access of width `w` to segment `i`.
pub open spec fn seg_wait(i: int, w: int) -> u8 {
    if i == 0 {
        if w == 0 { 1 } else if w == 1 { 1 } else { 1 }
    } else if i == 1 {
        if w == 0 { 3 } else if w == 1 { 3 } else { 6 }
    } else if i == 2 {
        if w == 0 { 1 } else if w == 1 { 1 } else { 1 }
    } else if i == 3 {
        if w == 0 { 1 } else if w == 1 { 1 } else { 1 }
    } else if i == 4 {
        if w == 0 { 1 } else if w == 1 { 1 } else { 2 }
    } else if i == 5 {
        if w == 0 { 1 } else if w == 1 { 1 } else { 2 }
    } else if i == 6 {
        if w == 0 { 1 } else if w == 1 { 1 } else { 1 }
    } else if i == 7 {
        if w == 0 { 5 } else if w == 1 { 5 } else { 8 }
    } else if i == 8 {
        if w == 0 { 5 } else if w == 1 { 5 } else { 8 }
    } else if i == 9 {
        if w == 0 { 5 } else if w == 1 { 5 } else { 8 }
    } else if i == 10 {
        if w == 0 { 1 } else if w == 1 { 0 } else { 0 }
    } else {
        0
    }
}

/// Whether segment `i` can be read with width `w`.
pub open spec fn seg_readable(i: int, w: int) -> bool {
    if i == 0 {
        if w == 0 { true } else if w == 1 { true } else { true }
    } else if i == 1 {
        if w == 0 { true } else if w == 1 { true } else { true }
    } else if i == 2 {
        if w == 0 { true } else if w == 1 { true } else { true }
    } else if i == 3 {
        if w == 0 { true } else if w == 1 { true } else { true }
    } else if i == 4 {
        if w == 0 { true } else if w == 1 { true } else { true }
    } else if i == 5 {
        if w == 0 { true } else if w == 1 { true } else { true }
    } else if i == 6 {
        if w == 0 { true } else if w == 1 { true } else { true }
    } else if i == 7 {
        if w == 0 { true } else if w == 1 { true } else { true }
    } else if i == 8 {
        if w == 0 { true } else if w == 1 { true } else { true }
    } else if i == 9 {
        if w == 0 { true } else if w == 1 { true } else { true }
    } else if i == 10 {
        if w == 0 { true } else if w == 1 { false } else { false }
    } else {
        false
    }
}

/// Whether segment `i` can be written with width `w`.
pub open spec fn seg_writable(i: int, w: int) -> bool {
    if i == 0 {
        if w == 0 { false } else if w == 1 { false } else { false }
    } else if i == 1 {
        if w == 0 { true } else if w == 1 { true } else { true }
    } else if i == 2 {
        if w == 0 { true } else if w == 1 { true } else { true }
    } else if i == 3 {
        if w == 0 { true } else if w == 1 { true } else { true }
    } else if i == 4 {
        if w == 0 { false } else if w == 1 { true } else { true }
    } else if i == 5 {
        if w == 0 { false } else if w == 1 { true } else { true }
    } else if i == 6 {
        if w == 0 { false } else if w == 1 { true } else { true }
    } else if i == 7 {
        if w == 0 { false } else if w == 1 { false } else { false }
    } else if i == 8 {
        if w == 0 { false } else if w == 1 { false } else { false }
    } else if i == 9 {
        if w == 0 { false } else if w == 1 { false } else { false }
    } else if i == 10 {
        if w == 0 { true } else if w == 1 { false } else { false }
    } else {
        false
    }
}

/// Whether segment `i` holds `address`.
pub open spec fn seg_contains(i: int, address: int) -> bool {
    seg_start(i) <= address < seg_end(i)
}

/// The segment that holds `address`, if any: the segments do not overlap.
pub open spec fn segment_of(address: int) -> Option<int> {
    if exists|i: int| 0 <= i < NUM_SEGMENTS && #[trigger] seg_contains(i, address) {
        Some(choose|i: int| 0 <= i < NUM_SEGMENTS && #[trigger] seg_contains(i, address))
    } else {
        None
    }
}

/// The segments do not overlap.
pub proof fn lemma_segments_disjoint(i: int, j: int, address: int)
    requires
        0 <= i < NUM_SEGMENTS,
        0 <= j < NUM_SEGMENTS,
        seg_contains(i, address),
        seg_contains(j, address),
    ensures
        i == j,
{
}

/// The segment that an access of width `w` at `address` reaches: the one
/// that holds the address, when it allows such a read (or write).
pub open spec fn access_segment(address: int, w: int, write: bool) -> Option<int> {
    match segment_of(address) {
        Some(i) => if (if write { seg_writable(i, w) } else { seg_readable(i, w) }) {
            Some(i)
        } else {
            None
        },
        None => None,
    }
}

/// The segment of an access, found by walking the address map.
fn find_segment(address: usize, w: usize, write: bool) -> (r: Option<usize>)
    requires
        w < 3,
    ensures
        match r {
            Some(i) => access_segment(address as int, w as int, write) == Some(i as int),
            None => access_segment(address as int, w as int, write) is None,
        },
{
    let mut i: usize = 0;
    while i < NUM_SEGMENTS
        invariant
            i <= NUM_SEGMENTS,
            w < 3,
            forall|j: int| 0 <= j < i ==> !(seg_contains(j, address as int) && (if write { seg_writable(j, w as int) } else { seg_readable(j, w as int) })),
        decreases NUM_SEGMENTS - i,
    {
        let start = segment_start(i);
        let end = segment_end(i);
        if start <= address && address < end {
            let allowed = if write { segment_writable(i, w) } else { segment_readable(i, w) };
            if allowed {
                proof {
                    assert(segment_of(address as int) == Some(i as int)) by {
                        assert(seg_contains(i as int, address as int));
                        let k = choose|k: int| 0 <= k < NUM_SEGMENTS && seg_contains(k, address as int);
                        lemma_segments_disjoint(k, i as int, address as int);
                    }
                }
                return Some(i);
            }
            proof {
                assert(segment_of(address as int) == Some(i as int)) by {
                    assert(seg_contains(i as int, address as int));
                    let k = choose|k: int| 0 <= k < NUM_SEGMENTS && seg_contains(k, address as int);
                    lemma_segments_disjoint(k, i as int, address as int);
                }
            }
            return None;
        }
        i = i + 1;
    }
    proof {
        if segment_of(address as int) is Some {
            let k = choose|k: int| 0 <= k < NUM_SEGMENTS && seg_contains(k, address as int);
            assert(!(seg_contains(k, address as int) && (if write { seg_writable(k, w as int) } else { seg_readable(k, w as int) })));
        }
    }
    None
}

fn segment_start(i: usize) -> (r: usize)
    requires
        i < NUM_SEGMENTS,
    ensures
        r == seg_start(i as int),
{
        if i == 0 {
            0x0
        } else if i == 1 {
            0x2000000
        } else if i == 2 {
            0x3000000
        } else if i == 3 {
            0x4000000
        } else if i == 4 {
            0x5000000
        } else if i == 5 {
            0x6000000
        } else if i == 6 {
            0x7000000
        } else if i == 7 {
            0x8000000
        } else if i == 8 {
            0xa000000
        } else if i == 9 {
            0xc000000
        } else if i == 10 {
            0xe000000
        } else {
            0
        }
}

fn segment_end(i: usize) -> (r: usize)
    requires
        i < NUM_SEGMENTS,
    ensures
        r == seg_end(i as int),
{
        if i == 0 {
            0x3fff
        } else if i == 1 {
            0x2040000
        } else if i == 2 {
            0x3008000
        } else if i == 3 {
            0x5000000
        } else if i == 4 {
            0x5000400
        } else if i == 5 {
            0x6017fff
        } else if i == 6 {
            0x7000400
        } else if i == 7 {
            0xa000000
        } else if i == 8 {
            0xc000000
        } else if i == 9 {
            0xe000000
        } else if i == 10 {
            0xe001000
        } else {
            0
        }
}

fn segment_wait(i: usize, w: usize) -> (r: u8)
    requires
        i < NUM_SEGMENTS,
        w < 3,
    ensures
        r == seg_wait(i as int, w as int),
{
        if i == 0 {
            if w == 0 { 1 } else if w == 1 { 1 } else { 1 }
        } else if i == 1 {
            if w == 0 { 3 } else if w == 1 { 3 } else { 6 }
        } else if i == 2 {
            if w == 0 { 1 } else if w == 1 { 1 } else { 1 }
        } else if i == 3 {
            if w == 0 { 1 } else if w == 1 { 1 } else { 1 }
        } else if i == 4 {
            if w == 0 { 1 } else if w == 1 { 1 } else { 2 }
        } else if i == 5 {
            if w == 0 { 1 } else if w == 1 { 1 } else { 2 }
        } else if i == 6 {
            if w == 0 { 1 } else if w == 1 { 1 } else { 1 }
        } else if i == 7 {
            if w == 0 { 5 } else if w == 1 { 5 } else { 8 }
        } else if i == 8 {
            if w == 0 { 5 } else if w == 1 { 5 } else { 8 }
        } else if i == 9 {
            if w == 0 { 5 } else if w == 1 { 5 } else { 8 }
        } else if i == 10 {
            if w == 0 { 1 } else if w == 1 { 0 } else { 0 }
        } else {
            0
        }
}

fn segment_readable(i: usize, w: usize) -> (r: bool)
    requires
        i < NUM_SEGMENTS,
        w < 3,
    ensures
        r == seg_readable(i as int, w as int),
{
        if i == 0 {
            if w == 0 { true } else if w == 1 { true } else { true }
        } else if i == 1 {
            if w == 0 { true } else if w == 1 { true } else { true }
        } else if i == 2 {
            if w == 0 { true } else if w == 1 { true } else { true }
        } else if i == 3 {
            if w == 0 { true } else if w == 1 { true } else { true }
        } else if i == 4 {
            if w == 0 { true } else if w == 1 { true } else { true }
        } else if i == 5 {
            if w == 0 { true } else if w == 1 { true } else { true }
        } else if i == 6 {
            if w == 0 { true } else if w == 1 { true } else { true }
        } else if i == 7 {
            if w == 0 { true } else if w == 1 { true } else { true }
        } else if i == 8 {
            if w == 0 { true } else if w == 1 { true } else { true }
        } else if i == 9 {
            if w == 0 { true } else if w == 1 { true } else { true }
        } else if i == 10 {
            if w == 0 { true } else if w == 1 { false } else { false }
        } else {
            false
        }
}

fn segment_writable(i: usize, w: usize) -> (r: bool)
    requires
        i < NUM_SEGMENTS,
        w < 3,
    ensures
        r == seg_writable(i as int, w as int),
{
        if i == 0 {
            if w == 0 { false } else if w == 1 { false } else { false }
        } else if i == 1 {
            if w == 0 { true } else if w == 1 { true } else { true }
        } else if i == 2 {
            if w == 0 { true } else if w == 1 { true } else { true }
        } else if i == 3 {
            if w == 0 { true } else if w == 1 { true } else { true }
        } else if i == 4 {
            if w == 0 { false } else if w == 1 { true } else { true }
        } else if i == 5 {
            if w == 0 { false } else if w == 1 { true } else { true }
        } else if i == 6 {
            if w == 0 { false } else if w == 1 { true } else { true }
        } else if i == 7 {
            if w == 0 { false } else if w == 1 { false } else { false }
        } else if i == 8 {
            if w == 0 { false } else if w == 1 { false } else { false }
        } else if i == 9 {
            if w == 0 { false } else if w == 1 { false } else { false }
        } else if i == 10 {
            if w == 0 { true } else if w == 1 { false } else { false }
        } else {
            false
        }
}

/// The memory of the machine, one byte vector per segment of the address map.
pub struct Memory {
    pub bios: Vec<BYTE>,
    pub board_wram: Vec<BYTE>,
    pub chip_wram: Vec<BYTE>,
    pub io_ram: Vec<BYTE>,
    pub bg_ram: Vec<BYTE>,
    pub vram: Vec<BYTE>,
    pub oam: Vec<BYTE>,
    pub flash_rom_0: Vec<BYTE>,
    pub flash_rom_1: Vec<BYTE>,
    pub flash_rom_2: Vec<BYTE>,
    pub sram: Vec<BYTE>,
}

impl Memory {
    /// The contents of segment `i`.
    pub open spec fn region(self, i: int) -> Seq<u8> {
            if i == 0 {
                self.bios@
            } else if i == 1 {
                self.board_wram@
            } else if i == 2 {
                self.chip_wram@
            } else if i == 3 {
                self.io_ram@
            } else if i == 4 {
                self.bg_ram@
            } else if i == 5 {
                self.vram@
            } else if i == 6 {
                self.oam@
            } else if i == 7 {
                self.flash_rom_0@
            } else if i == 8 {
                self.flash_rom_1@
            } else if i == 9 {
                self.flash_rom_2@
            } else if i == 10 {
                self.sram@
            } else {
                Seq::empty()
            }
        
    }

    /// Every segment's vector is as long as the segment.
    pub open spec fn wf(self) -> bool {
        forall|i: int| 0 <= i < NUM_SEGMENTS ==> #[trigger] self.region(i).len() == seg_end(i) - seg_start(i)
    }

    /// The byte at `address`, which segment `i` holds.
    pub open spec fn byte_at(self, i: int, address: int) -> u8 {
        self.region(i)[address - seg_start(i)]
    }

    /// Every segment cleared.
    pub fn new() -> (r: Memory)
        ensures
            r.wf(),
            forall|i: int, a: int| 0 <= i < NUM_SEGMENTS && seg_contains(i, a) ==> #[trigger] r.byte_at(i, a) == 0,
    {
        let mem = Memory {
            bios: vec_of_zeros(0x3fff),
            board_wram: vec_of_zeros(0x40000),
            chip_wram: vec_of_zeros(0x8000),
            io_ram: vec_of_zeros(0x1000000),
            bg_ram: vec_of_zeros(0x400),
            vram: vec_of_zeros(0x17fff),
            oam: vec_of_zeros(0x400),
            flash_rom_0: vec_of_zeros(0x2000000),
            flash_rom_1: vec_of_zeros(0x2000000),
            flash_rom_2: vec_of_zeros(0x2000000),
            sram: vec_of_zeros(0x1000),
        };
        proof {
            assert forall|i: int| 0 <= i < NUM_SEGMENTS implies #[trigger] mem.region(i).len() == seg_end(i) - seg_start(i) by {
            }
        }
        mem
    }

    /// `next` is this memory with `bytes` written into segment `i` from
    /// `offset` on, and every other segment as it was.
    pub open spec fn written(self, next: Memory, i: int, offset: int, bytes: Seq<u8>) -> bool {
        &&& next.wf()
        &&& forall|j: int| 0 <= j < NUM_SEGMENTS ==> #[trigger] next.region(j) == if j == i {
            overwrite(self.region(j), offset, bytes)
        } else {
            self.region(j)
        }
    }

    /// A read of width `w` at `address` stays inside its segment.
    pub open spec fn in_bounds(address: int, w: int, size: int, write: bool) -> bool {
        match access_segment(address, w, write) {
            Some(i) => address + size <= seg_end(i),
            None => true,
        }
    }

    fn region_byte(&self, i: usize, offset: usize) -> (r: u8)
        requires
            self.wf(),
            i < NUM_SEGMENTS,
            offset < seg_end(i as int) - seg_start(i as int),
        ensures
            r == self.region(i as int)[offset as int],
    {
        proof {
            assert(self.region(i as int).len() == seg_end(i as int) - seg_start(i as int));
        }
            if i == 0 {
                self.bios[offset]
            } else if i == 1 {
                self.board_wram[offset]
            } else if i == 2 {
                self.chip_wram[offset]
            } else if i == 3 {
                self.io_ram[offset]
            } else if i == 4 {
                self.bg_ram[offset]
            } else if i == 5 {
                self.vram[offset]
            } else if i == 6 {
                self.oam[offset]
            } else if i == 7 {
                self.flash_rom_0[offset]
            } else if i == 8 {
                self.flash_rom_1[offset]
            } else if i == 9 {
                self.flash_rom_2[offset]
            } else if i == 10 {
                self.sram[offset]
            } else {
                0
            }
    }

    fn set_region_byte(&mut self, i: usize, offset: usize, value: u8)
        requires
            old(self).wf(),
            i < NUM_SEGMENTS,
            offset < seg_end(i as int) - seg_start(i as int),
        ensures
            final(self).wf(),
            forall|j: int| 0 <= j < NUM_SEGMENTS ==> #[trigger] final(self).region(j) == if j == i {
                old(self).region(j).update(offset as int, value)
            } else {
                old(self).region(j)
            },
    {
        proof {
            assert(self.region(i as int).len() == seg_end(i as int) - seg_start(i as int));
        }
            if i == 0 {
                self.bios.set(offset, value);
            } else if i == 1 {
                self.board_wram.set(offset, value);
            } else if i == 2 {
                self.chip_wram.set(offset, value);
            } else if i == 3 {
                self.io_ram.set(offset, value);
            } else if i == 4 {
                self.bg_ram.set(offset, value);
            } else if i == 5 {
                self.vram.set(offset, value);
            } else if i == 6 {
                self.oam.set(offset, value);
            } else if i == 7 {
                self.flash_rom_0.set(offset, value);
            } else if i == 8 {
                self.flash_rom_1.set(offset, value);
            } else if i == 9 {
                self.flash_rom_2.set(offset, value);
            } else if i == 10 {
                self.sram.set(offset, value);
            } else {
                
            }
        proof {
            assert forall|j: int| 0 <= j < NUM_SEGMENTS implies #[trigger] self.region(j).len() == seg_end(j) - seg_start(j) by {
                assert(old(self).region(j).len() == seg_end(j) - seg_start(j));
            }
        }
    }
}

/// A little-endian half word from two bytes.
pub open spec fn le16(b0: u8, b1: u8) -> u16 {
    (b0 as u16) | ((b1 as u16) << 8u16)
}

/// A little-endian word from four bytes.
pub open spec fn le32(b0: u8, b1: u8, b2: u8, b3: u8) -> u32 {
    (b0 as u32) | ((b1 as u32) << 8u32) | ((b2 as u32) << 16u32) | ((b3 as u32) << 24u32)
}

/// Byte `k` (from the least significant) of a word.
pub open spec fn byte_of(v: u32, k: u32) -> u8 {
    ((v >> (8 * k) as u32) & 0xFFu32) as u8
}

/// Byte `k` (from the least significant) of a half word.
pub open spec fn byte_of16(v: u16, k: u16) -> u8 {
    ((v >> (8 * k) as u16) & 0xFFu16) as u8
}

/// `s` with `bytes` written from `offset` on.
pub open spec fn overwrite(s: Seq<u8>, offset: int, bytes: Seq<u8>) -> Seq<u8> {
    Seq::new(s.len(), |k: int| if offset <= k < offset + bytes.len() { bytes[k - offset] } else { s[k] })
}

/// The bytes of a half word and of a word, in memory order.
pub open spec fn le_bytes16(v: u16) -> Seq<u8> {
    seq![byte_of16(v, 0), byte_of16(v, 1)]
}

pub open spec fn le_bytes32(v: u32) -> Seq<u8> {
    seq![byte_of(v, 0), byte_of(v, 1), byte_of(v, 2), byte_of(v, 3)]
}

/// Splitting a word into bytes and joining them again gives the word back.
pub proof fn lemma_le32_round_trip(v: u32)
    ensures
        le32(byte_of(v, 0), byte_of(v, 1), byte_of(v, 2), byte_of(v, 3)) == v,
{
    assert(((((v >> 0u32) & 0xFFu32) as u8) as u32) | (((((v >> 8u32) & 0xFFu32) as u8) as u32) << 8u32)
        | (((((v >> 16u32) & 0xFFu32) as u8) as u32) << 16u32) | (((((v >> 24u32) & 0xFFu32) as u8) as u32) << 24u32) == v) by (bit_vector);
}

/// Splitting a half word into bytes and joining them again gives it back.
pub proof fn lemma_le16_round_trip(v: u16)
    ensures
        le16(byte_of16(v, 0), byte_of16(v, 1)) == v,
{
    assert(((((v >> 0u16) & 0xFFu16) as u8) as u16) | (((((v >> 8u16) & 0xFFu16) as u8) as u16) << 8u16) == v) by (bit_vector);
}

impl Memory {
    /// Reads a byte. An address outside every readable segment reads as 0.
    pub fn read(&self, address: usize, access_flags: AccessFlags) -> (r: MemoryFetch<BYTE>)
        requires
            self.wf(),
        ensures
            match access_segment(address as int, 0, false) {
                Some(i) => r.data == self.byte_at(i, address as int) && r.cycles == seg_wait(i, 0),
                None => r.data == 0 && r.cycles == 1,
            },
    {
        match find_segment(address, EIGHT, false) {
            Some(i) => {
                let start = segment_start(i);
                MemoryFetch { data: self.region_byte(i, address - start), cycles: segment_wait(i, EIGHT) }
            },
            None => MemoryFetch { cycles: 1, data: 0 },
        }
    }

    /// Reads a little-endian half word. An address outside every segment
    /// readable by half words reads as 0.
    pub fn readu16(&self, address: usize, access_flags: AccessFlags) -> (r: MemoryFetch<HWORD>)
        requires
            self.wf(),
            Memory::in_bounds(address as int, 1, 2, false),
        ensures
            match access_segment(address as int, 1, false) {
                Some(i) => r.data == le16(self.byte_at(i, address as int), self.byte_at(i, address + 1))
                    && r.cycles == seg_wait(i, 1),
                None => r.data == 0 && r.cycles == 1,
            },
    {
        match find_segment(address, SIXTEEN, false) {
            Some(i) => {
                let offset = address - segment_start(i);
                let b0 = self.region_byte(i, offset);
                let b1 = self.region_byte(i, offset + 1);
                MemoryFetch { data: (b0 as u16) | ((b1 as u16) << 8u16), cycles: segment_wait(i, SIXTEEN) }
            },
            None => MemoryFetch { cycles: 1, data: 0 },
        }
    }

    /// Reads a little-endian word. An address outside every segment
    /// readable by words reads as 0.
    pub fn readu32(&self, address: usize, access_flags: AccessFlags) -> (r: MemoryFetch<WORD>)
        requires
            self.wf(),
            Memory::in_bounds(address as int, 2, 4, false),
        ensures
            match access_segment(address as int, 2, false) {
                Some(i) => r.data == le32(
                    self.byte_at(i, address as int),
                    self.byte_at(i, address + 1),
                    self.byte_at(i, address + 2),
                    self.byte_at(i, address + 3),
                ) && r.cycles == seg_wait(i, 2),
                None => r.data == 0 && r.cycles == 1,
            },
    {
        match find_segment(address, THIRTYTWO, false) {
            Some(i) => {
                let offset = address - segment_start(i);
                let b0 = self.region_byte(i, offset);
                let b1 = self.region_byte(i, offset + 1);
                let b2 = self.region_byte(i, offset + 2);
                let b3 = self.region_byte(i, offset + 3);
                MemoryFetch {
                    data: (b0 as u32) | ((b1 as u32) << 8u32) | ((b2 as u32) << 16u32) | ((b3 as u32) << 24u32),
                    cycles: segment_wait(i, THIRTYTWO),
                }
            },
            None => MemoryFetch { cycles: 1, data: 0 },
        }
    }

    /// Writes a byte; a write outside every segment writable by bytes is
    /// ignored and takes one cycle.
    pub fn write(&mut self, address: usize, value: BYTE, access_flags: AccessFlags) -> (r: CYCLES)
        requires
            old(self).wf(),
        ensures
            match access_segment(address as int, 0, true) {
                Some(i) => old(self).written(*final(self), i, address - seg_start(i), seq![value])
                    && r == seg_wait(i, 0),
                None => old(self).written(*final(self), 0, 0, Seq::empty()) && r == 1,
            },
    {
        match find_segment(address, EIGHT, true) {
            Some(i) => {
                let offset = address - segment_start(i);
                self.set_region_byte(i, offset, value);
                proof {
                    assert forall|j: int| 0 <= j < NUM_SEGMENTS implies #[trigger] self.region(j) == if j == i {
                        overwrite(old(self).region(j), offset as int, seq![value])
                    } else {
                        old(self).region(j)
                    } by {
                        if j == i {
                            assert(self.region(j) =~= overwrite(old(self).region(j), offset as int, seq![value]));
                        }
                    }
                }
                segment_wait(i, EIGHT)
            },
            None => {
                proof {
                    assert forall|j: int| 0 <= j < NUM_SEGMENTS implies #[trigger] self.region(j) == if j == 0 {
                        overwrite(old(self).region(j), 0, Seq::empty())
                    } else {
                        old(self).region(j)
                    } by {
                        assert(overwrite(old(self).region(j), 0, Seq::empty()) =~= old(self).region(j));
                    }
                }
                1
            },
        }
    }

    /// Writes a little-endian half word to an even address; a write outside
    /// every segment writable by half words is ignored and takes one cycle.
    pub fn writeu16(&mut self, address: usize, value: HWORD, access_flags: AccessFlags) -> (r: CYCLES)
        requires
            old(self).wf(),
            address % 2 == 0,
            Memory::in_bounds(address as int, 1, 2, true),
        ensures
            match access_segment(address as int, 1, true) {
                Some(i) => old(self).written(*final(self), i, address - seg_start(i), le_bytes16(value))
                    && r == seg_wait(i, 1),
                None => old(self).written(*final(self), 0, 0, Seq::empty()) && r == 1,
            },
    {
        match find_segment(address, SIXTEEN, true) {
            Some(i) => {
                let offset = address - segment_start(i);
                let b0 = (value & 0xFF) as u8;
                let b1 = ((value >> 8u16) & 0xFF) as u8;
                self.set_region_byte(i, offset, b0);
                self.set_region_byte(i, offset + 1, b1);
                proof {
                    assert(b0 == byte_of16(value, 0)) by {
                        crate::bits::lemma_half_bits(value, 0);
                    }
                    assert forall|j: int| 0 <= j < NUM_SEGMENTS implies #[trigger] self.region(j) == if j == i {
                        overwrite(old(self).region(j), offset as int, le_bytes16(value))
                    } else {
                        old(self).region(j)
                    } by {
                        if j == i {
                            assert(self.region(j) =~= overwrite(old(self).region(j), offset as int, le_bytes16(value)));
                        }
                    }
                }
                segment_wait(i, SIXTEEN)
            },
            None => {
                proof {
                    assert forall|j: int| 0 <= j < NUM_SEGMENTS implies #[trigger] self.region(j) == if j == 0 {
                        overwrite(old(self).region(j), 0, Seq::empty())
                    } else {
                        old(self).region(j)
                    } by {
                        assert(overwrite(old(self).region(j), 0, Seq::empty()) =~= old(self).region(j));
                    }
                }
                1
            },
        }
    }

    /// Writes a little-endian word to an address that is a multiple of four;
    /// a write outside every segment writable by words is ignored and takes
    /// one cycle.
    pub fn writeu32(&mut self, address: usize, value: WORD, access_flags: AccessFlags) -> (r: CYCLES)
        requires
            old(self).wf(),
            address % 4 == 0,
            Memory::in_bounds(address as int, 2, 4, true),
        ensures
            match access_segment(address as int, 2, true) {
                Some(i) => old(self).written(*final(self), i, address - seg_start(i), le_bytes32(value))
                    && r == seg_wait(i, 2),
                None => old(self).written(*final(self), 0, 0, Seq::empty()) && r == 1,
            },
    {
        match find_segment(address, THIRTYTWO, true) {
            Some(i) => {
                let offset = address - segment_start(i);
                let b0 = (value & 0xFF) as u8;
                let b1 = ((value >> 8u32) & 0xFF) as u8;
                let b2 = ((value >> 16u32) & 0xFF) as u8;
                let b3 = ((value >> 24u32) & 0xFF) as u8;
                self.set_region_byte(i, offset, b0);
                self.set_region_byte(i, offset + 1, b1);
                self.set_region_byte(i, offset + 2, b2);
                self.set_region_byte(i, offset + 3, b3);
                proof {
                    assert(b0 == byte_of(value, 0)) by {
                        crate::bits::lemma_word_align(value);
                    }
                    assert forall|j: int| 0 <= j < NUM_SEGMENTS implies #[trigger] self.region(j) == if j == i {
                        overwrite(old(self).region(j), offset as int, le_bytes32(value))
                    } else {
                        old(self).region(j)
                    } by {
                        if j == i {
                            assert(self.region(j) =~= overwrite(old(self).region(j), offset as int, le_bytes32(value)));
                        }
                    }
                }
                segment_wait(i, THIRTYTWO)
            },
            None => {
                proof {
                    assert forall|j: int| 0 <= j < NUM_SEGMENTS implies #[trigger] self.region(j) == if j == 0 {
                        overwrite(old(self).region(j), 0, Seq::empty())
                    } else {
                        old(self).region(j)
                    } by {
                        assert(overwrite(old(self).region(j), 0, Seq::empty()) =~= old(self).region(j));
                    }
                }
                1
            },
        }
    }
}

/// A word written to memory reads back as the same word, and no byte outside
/// the four written ones changes.
pub proof fn lemma_word_write_read_back(m0: Memory, m1: Memory, i: int, offset: int, v: u32)
    requires
        m0.wf(),
        0 <= i < NUM_SEGMENTS,
        0 <= offset,
        offset + 4 <= seg_end(i) - seg_start(i),
        m0.written(m1, i, offset, le_bytes32(v)),
    ensures
        le32(m1.region(i)[offset], m1.region(i)[offset + 1], m1.region(i)[offset + 2], m1.region(i)[offset + 3]) == v,
        forall|k: int| 0 <= k < m1.region(i).len() && !(offset <= k < offset + 4) ==> m1.region(i)[k] == m0.region(i)[k],
        forall|j: int| 0 <= j < NUM_SEGMENTS && j != i ==> m1.region(j) == m0.region(j),
{
    assert(m1.region(i) == overwrite(m0.region(i), offset, le_bytes32(v)));
    assert(m0.region(i).len() == seg_end(i) - seg_start(i));
    lemma_le32_round_trip(v);
    assert forall|j: int| 0 <= j < NUM_SEGMENTS && j != i implies m1.region(j) == m0.region(j) by {
        assert(m1.region(j) == m0.region(j));
    }
}

/// A half word written to memory reads back as the same half word, and no
/// byte outside the two written ones changes.
pub proof fn lemma_half_word_write_read_back(m0: Memory, m1: Memory, i: int, offset: int, v: u16)
    requires
        m0.wf(),
        0 <= i < NUM_SEGMENTS,
        0 <= offset,
        offset + 2 <= seg_end(i) - seg_start(i),
        m0.written(m1, i, offset, le_bytes16(v)),
    ensures
        le16(m1.region(i)[offset], m1.region(i)[offset + 1]) == v,
        forall|k: int| 0 <= k < m1.region(i).len() && !(offset <= k < offset + 2) ==> m1.region(i)[k] == m0.region(i)[k],
        forall|j: int| 0 <= j < NUM_SEGMENTS && j != i ==> m1.region(j) == m0.region(j),
{
    assert(m1.region(i) == overwrite(m0.region(i), offset, le_bytes16(v)));
    assert(m0.region(i).len() == seg_end(i) - seg_start(i));
    lemma_le16_round_trip(v);
    assert forall|j: int| 0 <= j < NUM_SEGMENTS && j != i implies m1.region(j) == m0.region(j) by {
        assert(m1.region(j) == m0.region(j));
    }
}

/// A byte written to memory reads back as the same byte, and no other byte
/// changes.
pub proof fn lemma_byte_write_read_back(m0: Memory, m1: Memory, i: int, offset: int, v: u8)
    requires
        m0.wf(),
        0 <= i < NUM_SEGMENTS,
        0 <= offset < seg_end(i) - seg_start(i),
        m0.written(m1, i, offset, seq![v]),
    ensures
        m1.region(i)[offset] == v,
        forall|k: int| 0 <= k < m1.region(i).len() && k != offset ==> m1.region(i)[k] == m0.region(i)[k],
        forall|j: int| 0 <= j < NUM_SEGMENTS && j != i ==> m1.region(j) == m0.region(j),
{
    assert(m1.region(i) == overwrite(m0.region(i), offset, seq![v]));
    assert(m0.region(i).len() == seg_end(i) - seg_start(i));
    assert forall|j: int| 0 <= j < NUM_SEGMENTS && j != i implies m1.region(j) == m0.region(j) by {
        assert(m1.region(j) == m0.region(j));
    }
}

fn vec_of_zeros(n: usize) -> (r: Vec<u8>)
    ensures
        r@.len() == n,
        forall|i: int| 0 <= i < n ==> r@[i] == 0,
{
    vec![0u8; n]
}

} // verus!
