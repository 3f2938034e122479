use vstd::prelude::*;

use crate::memory::{byte_of, byte_of16, le16, le32, le_bytes16, le_bytes32, overwrite};

verus! {

/// The offset inside a block of an access of `size` bytes (1, 2 or 4) at
/// `address`: the address aligned down to the access size, then folded into
/// the block by its mirror mask.
pub open spec fn block_offset(address: usize, size: usize, mask: usize) -> usize {
    if size == 4 {
        (address & !3usize) & mask
    } else if size == 2 {
        (address & !1usize) & mask
    } else {
        address & mask
    }
}

/// A plain block of memory whose contents repeat every `MASK + 1` bytes of
/// the address space.
pub struct SimpleMemoryBlock<const MASK: usize> {
    pub memory: Vec<u8>,
}

impl<const MASK: usize> SimpleMemoryBlock<MASK> {
    /// Whether an access of `size` bytes at `address` lands inside the block.
    pub open spec fn fits(&self, address: usize, size: usize) -> bool {
        block_offset(address, size, MASK) + size <= self.memory@.len()
    }

    /// The offset that an access of `size` bytes at `address` reads.
    pub open spec fn offset(address: usize, size: usize) -> int {
        block_offset(address, size, MASK) as int
    }

    /// A block of `size` bytes, with four bytes of slack at its end, all 0.
    pub fn new(size: usize) -> (r: Self)
        requires
            size + 4 <= usize::MAX,
        ensures
            r.memory@.len() == size + 4,
            forall|i: int| 0 <= i < size + 4 ==> r.memory@[i] == 0,
    {
        SimpleMemoryBlock { memory: vec![0u8; size + 4] }
    }

    fn aligned_offset(address: usize, size: usize) -> (r: usize)
        requires
            size == 1 || size == 2 || size == 4,
        ensures
            r == block_offset(address, size, MASK),
    {
        if size == 4 {
            (address & !3usize) & MASK
        } else if size == 2 {
            (address & !1usize) & MASK
        } else {
            address & MASK
        }
    }

    /// Whether an access of `size` bytes (1, 2 or 4) at `address` lands
    /// inside the block.
    pub fn can_access(&self, address: usize, size: usize) -> (r: bool)
        requires
            size == 1 || size == 2 || size == 4,
        ensures
            r == self.fits(address, size),
    {
        let offset = Self::aligned_offset(address, size);
        let len = self.memory.len();
        offset < len && size <= len - offset
    }

    pub fn readu8(&self, address: usize) -> (r: u8)
        requires
            self.fits(address, 1),
        ensures
            r == self.memory@[Self::offset(address, 1)],
    {
        let offset = Self::aligned_offset(address, 1);
        self.memory[offset]
    }

    /// Reads a little-endian half word at `address` aligned down to 2.
    pub fn readu16(&self, address: usize) -> (r: u16)
        requires
            self.fits(address, 2),
        ensures
            r == le16(self.memory@[Self::offset(address, 2)], self.memory@[Self::offset(address, 2) + 1]),
    {
        let len = self.memory.len();
        let offset = Self::aligned_offset(address, 2);
        let b0 = self.memory[offset];
        let b1 = self.memory[offset + 1];
        (b0 as u16) | ((b1 as u16) << 8u16)
    }

    /// Reads a little-endian word at `address` aligned down to 4.
    pub fn readu32(&self, address: usize) -> (r: u32)
        requires
            self.fits(address, 4),
        ensures
            r == le32(
                self.memory@[Self::offset(address, 4)],
                self.memory@[Self::offset(address, 4) + 1],
                self.memory@[Self::offset(address, 4) + 2],
                self.memory@[Self::offset(address, 4) + 3],
            ),
    {
        let len = self.memory.len();
        let offset = Self::aligned_offset(address, 4);
        let b0 = self.memory[offset];
        let b1 = self.memory[offset + 1];
        let b2 = self.memory[offset + 2];
        let b3 = self.memory[offset + 3];
        (b0 as u32) | ((b1 as u32) << 8u32) | ((b2 as u32) << 16u32) | ((b3 as u32) << 24u32)
    }

    /// Copies `contents` over the start of the block, byte for byte; the
    /// rest of the block keeps its bytes.
    pub fn load(&mut self, contents: &Vec<u8>)
        requires
            contents.len() <= old(self).memory.len(),
        ensures
            final(self).memory@ == overwrite(old(self).memory@, 0, contents@),
    {
        let mut index: usize = 0;
        while index < contents.len()
            invariant
                index <= contents.len() <= self.memory.len(),
                self.memory@.len() == old(self).memory@.len(),
                forall|i: int| 0 <= i < index ==> self.memory@[i] == contents@[i],
                forall|i: int| index <= i < self.memory@.len() ==> self.memory@[i] == old(self).memory@[i],
            decreases contents.len() - index,
        {
            self.memory.set(index, contents[index]);
            index = index + 1;
        }
        proof {
            assert(self.memory@ =~= overwrite(old(self).memory@, 0, contents@));
        }
    }

    pub fn writeu8(&mut self, address: usize, value: u8)
        requires
            old(self).fits(address, 1),
        ensures
            final(self).memory@ == overwrite(old(self).memory@, Self::offset(address, 1), seq![value]),
    {
        let offset = Self::aligned_offset(address, 1);
        self.memory.set(offset, value);
        proof {
            assert(self.memory@ =~= overwrite(old(self).memory@, offset as int, seq![value]));
        }
    }

    /// Writes a little-endian half word at `address` aligned down to 2.
    pub fn writeu16(&mut self, address: usize, value: u16)
        requires
            old(self).fits(address, 2),
        ensures
            final(self).memory@ == overwrite(old(self).memory@, Self::offset(address, 2), le_bytes16(value)),
    {
        let len = self.memory.len();
        let offset = Self::aligned_offset(address, 2);
        let b0 = (value & 0xFF) as u8;
        let b1 = ((value >> 8u16) & 0xFF) as u8;
        self.memory.set(offset, b0);
        self.memory.set(offset + 1, b1);
        proof {
            assert(b0 == byte_of16(value, 0)) by {
                crate::bits::lemma_half_bits(value, 0);
            }
            assert(self.memory@ =~= overwrite(old(self).memory@, offset as int, le_bytes16(value)));
        }
    }

    /// Writes a little-endian word at `address` aligned down to 4.
    pub fn writeu32(&mut self, address: usize, value: u32)
        requires
            old(self).fits(address, 4),
        ensures
            final(self).memory@ == overwrite(old(self).memory@, Self::offset(address, 4), le_bytes32(value)),
    {
        let len = self.memory.len();
        let offset = Self::aligned_offset(address, 4);
        let b0 = (value & 0xFF) as u8;
        let b1 = ((value >> 8u32) & 0xFF) as u8;
        let b2 = ((value >> 16u32) & 0xFF) as u8;
        let b3 = ((value >> 24u32) & 0xFF) as u8;
        self.memory.set(offset, b0);
        self.memory.set(offset + 1, b1);
        self.memory.set(offset + 2, b2);
        self.memory.set(offset + 3, b3);
        proof {
            assert(b0 == byte_of(value, 0)) by {
                crate::bits::lemma_word_align(value);
            }
            assert(self.memory@ =~= overwrite(old(self).memory@, offset as int, le_bytes32(value)));
        }
    }
}

} // verus!
