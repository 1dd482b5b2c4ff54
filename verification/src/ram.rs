//! Writable memory backed by an owned byte buffer. Accesses outside the
//! buffer are programmer errors and are ruled out by the contracts.
use vstd::prelude::*;

use crate::memory::{region_byte, region_endian, region_size, region_word, region_write, word_from,
    word_hi, word_lo, wrap8, Endian, Memory, RegionView};

verus! {

pub struct RAM {
    memory: Vec<u8>,
    endian: Endian,
}

impl View for RAM {
    type V = RegionView;

    closed spec fn view(&self) -> RegionView {
        RegionView::Ram { bytes: self.memory@, endian: self.endian }
    }
}

impl RAM {
    /// A zero-filled writable region of `size` bytes.
    pub fn new(size: usize, endian: Endian) -> (r: RAM)
        ensures
            r@ == (RegionView::Ram { bytes: Seq::new(size as nat, |i: int| 0u8), endian }),
    {
        let v: Vec<u8> = vec![0u8; size];
        let r = RAM { memory: v, endian };
        proof {
            assert(r.memory@ =~= Seq::new(size as nat, |i: int| 0u8));
        }
        r
    }

    /// Copies `program` into the buffer starting at `addr`.
    pub fn load_bytes(&mut self, addr: usize, program: &[u8])
        requires
            addr + program@.len() <= region_size(old(self)@),
        ensures
            region_size(final(self)@) == region_size(old(self)@),
            final(self)@ is Ram,
            region_endian(final(self)@) == region_endian(old(self)@),
            forall|j: int|
                0 <= j < region_size(final(self)@) ==> region_byte(final(self)@, j) == (
                if addr <= j < addr + program@.len() {
                    program@[j - addr]
                } else {
                    region_byte(old(self)@, j)
                }),
    {
        let n = program.len();
        let total = self.memory.len();
        let mut i: usize = 0;
        while i < n
            invariant
                n == program@.len(),
                addr + n <= total,
                total == region_size(self@),
                0 <= i <= n,
                self@ is Ram,
                region_size(self@) == region_size(old(self)@),
                region_endian(self@) == region_endian(old(self)@),
                forall|j: int|
                    0 <= j < region_size(self@) ==> region_byte(self@, j) == (
                    if addr <= j < addr + i {
                        program@[j - addr]
                    } else {
                        region_byte(old(self)@, j)
                    }),
            decreases n - i,
        {
            let b = program[i];
            let ghost pre = self@;
            self.write(addr + i, b);
            proof {
                assert forall|j: int| 0 <= j < region_size(self@) implies region_byte(self@, j)
                    == (if addr <= j < addr + i + 1 {
                    program@[j - addr]
                } else {
                    region_byte(old(self)@, j)
                }) by {
                    if j == addr + i {
                        assert(region_byte(self@, j) == b);
                    } else {
                        assert(region_byte(self@, j) == region_byte(pre, j));
                    }
                }
            }
            i = i + 1;
        }
    }

    /// Direct shared access to the backing bytes.
    pub fn get_raw(&self) -> (r: &[u8])
        ensures
            self@ == (RegionView::Ram { bytes: r@, endian: region_endian(self@) }),
    {
        self.memory.as_slice()
    }

    /// Direct exclusive access to the backing bytes.
    pub fn get_raw_mut(&mut self) -> (r: &mut [u8])
        ensures
            old(self)@ == (RegionView::Ram { bytes: r@, endian: region_endian(old(self)@) }),
            final(self)@ == (RegionView::Ram {
                bytes: final(r)@,
                endian: region_endian(old(self)@),
            }),
    {
        self.memory.as_mut_slice()
    }
}

/// A writable region always models as the `Ram` shape.
pub broadcast proof fn lemma_ram_view_shape(r: &RAM)
    ensures
        #[trigger] r@ is Ram,
{
}

impl Memory for RAM {
    open spec fn mem_size(&self) -> nat {
        region_size(self@)
    }

    open spec fn can_read(&self, addr: int) -> bool {
        0 <= addr < region_size(self@)
    }

    open spec fn can_write(&self, addr: int) -> bool {
        0 <= addr < region_size(self@)
    }

    open spec fn can_read_word(&self, addr: int) -> bool {
        0 <= addr && addr + 1 < region_size(self@)
    }

    open spec fn can_write_word(&self, addr: int) -> bool {
        0 <= addr && addr + 1 < region_size(self@)
    }

    open spec fn can_read_word_zero(&self, addr: u8) -> bool {
        addr < region_size(self@) && wrap8(addr + 1) < region_size(self@)
    }

    open spec fn can_write_word_zero(&self, addr: u8) -> bool {
        addr < region_size(self@) && wrap8(addr + 1) < region_size(self@)
    }

    fn write(&mut self, addr: usize, data: u8)
        ensures
            final(self)@ == region_write(old(self)@, addr as int, data),
    {
        self.memory[addr] = data;
    }

    fn read(&self, addr: usize) -> (r: u8)
        ensures
            r == region_byte(self@, addr as int),
    {
        self.memory[addr]
    }

    fn is_valid(&self, addr: usize) -> (r: bool) {
        addr < self.memory.len()
    }

    fn read_word(&self, addr: usize) -> (r: u16)
        ensures
            r == region_word(self@, addr as int),
    {
        let total = self.memory.len();
        assert(addr + 1 < total);
        let low = self.read(addr);
        let high = self.read(addr + 1);
        word_of(low, high, self.endian)
    }

    fn write_word(&mut self, addr: usize, word: u16)
        ensures
            final(self)@ == region_write(
                region_write(old(self)@, addr as int, first_byte(word, region_endian(old(self)@))),
                addr as int + 1,
                second_byte(word, region_endian(old(self)@)),
            ),
    {
        let total = self.memory.len();
        assert(addr + 1 < total);
        let low = lo_byte(word);
        let high = hi_byte(word);
        match self.endian {
            Endian::Little => {
                self.write(addr, low);
                self.write(addr + 1, high);
            },
            Endian::Big => {
                self.write(addr, high);
                self.write(addr + 1, low);
            },
        }
    }

    fn read_word_zero(&self, addr: u8) -> (r: u16)
        ensures
            r == word_from(
                region_byte(self@, addr as int),
                region_byte(self@, wrap8(addr + 1) as int),
                region_endian(self@),
            ),
    {
        let low = self.read(addr as usize);
        let high = self.read(addr.wrapping_add(1) as usize);
        word_of(low, high, self.endian)
    }

    fn write_word_zero(&mut self, addr: u8, word: u16)
        ensures
            final(self)@ == region_write(
                region_write(old(self)@, addr as int, first_byte(word, region_endian(old(self)@))),
                wrap8(addr + 1) as int,
                second_byte(word, region_endian(old(self)@)),
            ),
    {
        let low = lo_byte(word);
        let high = hi_byte(word);
        match self.endian {
            Endian::Little => {
                self.write(addr as usize, low);
                self.write(addr.wrapping_add(1) as usize, high);
            },
            Endian::Big => {
                self.write(addr as usize, high);
                self.write(addr.wrapping_add(1) as usize, low);
            },
        }
    }

    fn size(&self) -> (r: usize) {
        self.memory.len()
    }
}

/// The byte stored at the lower address when `word` is written.
pub open spec fn first_byte(word: u16, e: Endian) -> u8 {
    match e {
        Endian::Little => word_lo(word),
        Endian::Big => word_hi(word),
    }
}

/// The byte stored at the higher address when `word` is written.
pub open spec fn second_byte(word: u16, e: Endian) -> u8 {
    match e {
        Endian::Little => word_hi(word),
        Endian::Big => word_lo(word),
    }
}

/// Low half of a 16-bit word.
pub fn lo_byte(word: u16) -> (r: u8)
    ensures
        r == word_lo(word),
{
    (word % 256) as u8
}

/// High half of a 16-bit word.
pub fn hi_byte(word: u16) -> (r: u8)
    ensures
        r == word_hi(word),
{
    (word / 256) as u8
}

/// Assembles a word from the byte at the lower address and the byte at the
/// higher address.
pub fn word_of(first: u8, second: u8, e: Endian) -> (r: u16)
    ensures
        r == word_from(first, second, e),
{
    match e {
        Endian::Big => (first as u16) * 256 + (second as u16),
        Endian::Little => (second as u16) * 256 + (first as u16),
    }
}

} // verus!
