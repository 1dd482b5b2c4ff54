//! Read-only memory backed by an immutable byte image (the bytes of a ROM
//! file, loaded by the caller). Writes are ignored and reads past the image
//! yield 0; neither ever fails.
use vstd::prelude::*;

use crate::memory::{region_byte, region_endian, region_size, region_word, word_from, wrap8,
    Endian, Memory, RegionView};
use crate::ram::word_of;

verus! {

pub struct ROM {
    memory: Vec<u8>,
    endian: Endian,
}

impl View for ROM {
    type V = RegionView;

    closed spec fn view(&self) -> RegionView {
        RegionView::Rom { bytes: self.memory@, endian: self.endian }
    }
}

impl ROM {
    /// A read-only region holding `bytes` verbatim. The region covers as many
    /// addresses as the image has bytes; `size` is the nominal size of the
    /// mapped window and does not limit the image.
    pub fn new(size: usize, endian: Endian, bytes: Vec<u8>) -> (r: ROM)
        ensures
            r@ == (RegionView::Rom { bytes: bytes@, endian }),
    {
        let _ = size;
        ROM { memory: bytes, endian }
    }

    /// Direct shared access to the image bytes.
    pub fn get_raw(&self) -> (r: &[u8])
        ensures
            self@ == (RegionView::Rom { bytes: r@, endian: region_endian(self@) }),
    {
        self.memory.as_slice()
    }
}

/// A read-only region always models as the `Rom` shape.
pub broadcast proof fn lemma_rom_view_shape(r: &ROM)
    ensures
        #[trigger] r@ is Rom,
{
}

impl Memory for ROM {
    open spec fn mem_size(&self) -> nat {
        region_size(self@)
    }

    open spec fn can_read(&self, addr: int) -> bool {
        true
    }

    open spec fn can_write(&self, addr: int) -> bool {
        true
    }

    open spec fn can_read_word(&self, addr: int) -> bool {
        addr < usize::MAX
    }

    open spec fn can_write_word(&self, addr: int) -> bool {
        true
    }

    open spec fn can_read_word_zero(&self, addr: u8) -> bool {
        true
    }

    open spec fn can_write_word_zero(&self, addr: u8) -> bool {
        true
    }

    /// Writing into ROM has no effect.
    fn write(&mut self, addr: usize, data: u8)
        ensures
            final(self)@ == old(self)@,
    {
    }

    fn read(&self, addr: usize) -> (r: u8)
        ensures
            r == region_byte(self@, addr as int),
    {
        if addr < self.memory.len() {
            self.memory[addr]
        } else {
            0u8
        }
    }

    fn is_valid(&self, addr: usize) -> (r: bool) {
        addr < self.memory.len()
    }

    fn read_word(&self, addr: usize) -> (r: u16)
        ensures
            r == region_word(self@, addr as int),
    {
        let low = self.read(addr);
        let high = self.read(addr + 1);
        word_of(low, high, self.endian)
    }

    /// Writing into ROM has no effect.
    fn write_word(&mut self, addr: usize, word: u16)
        ensures
            final(self)@ == old(self)@,
    {
    }

    fn read_word_zero(&self, addr: u8) -> (r: u16)
        ensures
            r == word_from(
                region_byte(self@, addr as int),
                region_byte(self@, wrap8(addr + 1) as int),
                region_endian(self@),
            ),
    {
        let low = self.read(addr as usize);
        let high = self.read(addr.wrapping_add(1) as usize);
        word_of(low, high, self.endian)
    }

    /// Writing into ROM has no effect.
    fn write_word_zero(&mut self, addr: u8, word: u16)
        ensures
            final(self)@ == old(self)@,
    {
    }

    fn size(&self) -> (r: usize) {
        self.memory.len()
    }
}

} // verus!
