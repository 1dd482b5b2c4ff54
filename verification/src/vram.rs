//! Video memory. It owns no bytes: every in-bounds write is recorded as an
//! `(offset, byte)` event for the display to consume, and reads yield 0.
use vstd::prelude::*;

use crate::memory::{region_endian, region_size, region_write, wrap8, Endian, Memory, RegionView};
use crate::ram::{first_byte, hi_byte, lo_byte, second_byte};

verus! {

pub struct VRAM {
    size: usize,
    endian: Endian,
    events: Vec<(usize, u8)>,
}

impl View for VRAM {
    type V = RegionView;

    closed spec fn view(&self) -> RegionView {
        RegionView::Vram { size: self.size as nat, endian: self.endian, events: self.events@ }
    }
}

impl VRAM {
    /// A video region of `size` cells with no pending display events.
    pub fn new(size: usize, endian: Endian) -> (r: VRAM)
        ensures
            r@ == (RegionView::Vram {
                size: size as nat,
                endian,
                events: Seq::<(usize, u8)>::empty(),
            }),
    {
        let v: Vec<(usize, u8)> = Vec::new();
        VRAM { size, endian, events: v }
    }

    /// Hands out the pending display events, leaving none behind.
    pub fn take_events(&mut self) -> (r: Vec<(usize, u8)>)
        ensures
            r@ == events_of(old(self)@),
            final(self)@ == (RegionView::Vram {
                size: region_size(old(self)@),
                endian: region_endian(old(self)@),
                events: Seq::<(usize, u8)>::empty(),
            }),
    {
        let mut out: Vec<(usize, u8)> = Vec::new();
        core::mem::swap(&mut out, &mut self.events);
        out
    }
}

/// The display events a video region has recorded, oldest first.
pub open spec fn events_of(r: RegionView) -> Seq<(usize, u8)> {
    match r {
        RegionView::Vram { events, .. } => events,
        _ => Seq::empty(),
    }
}

/// A video region always models as the `Vram` shape.
pub broadcast proof fn lemma_vram_view_shape(r: &VRAM)
    ensures
        #[trigger] r@ is Vram,
{
}

impl Memory for VRAM {
    open spec fn mem_size(&self) -> nat {
        region_size(self@)
    }

    open spec fn can_read(&self, addr: int) -> bool {
        0 <= addr < region_size(self@)
    }

    open spec fn can_write(&self, addr: int) -> bool {
        0 <= addr < region_size(self@)
    }

    open spec fn can_read_word(&self, addr: int) -> bool {
        true
    }

    open spec fn can_write_word(&self, addr: int) -> bool {
        0 <= addr && addr + 1 < region_size(self@)
    }

    open spec fn can_read_word_zero(&self, addr: u8) -> bool {
        true
    }

    open spec fn can_write_word_zero(&self, addr: u8) -> bool {
        addr < region_size(self@) && wrap8(addr + 1) < region_size(self@)
    }

    /// Records the write as a display event.
    fn write(&mut self, addr: usize, data: u8)
        ensures
            final(self)@ == region_write(old(self)@, addr as int, data),
    {
        self.events.push((addr, data));
    }

    /// Video memory reads as 0.
    fn read(&self, addr: usize) -> (r: u8)
        ensures
            r == 0u8,
    {
        0u8
    }

    fn is_valid(&self, addr: usize) -> (r: bool) {
        addr < self.size
    }

    /// Video memory reads as 0.
    fn read_word(&self, addr: usize) -> (r: u16)
        ensures
            r == 0u16,
    {
        0u16
    }

    fn write_word(&mut self, addr: usize, word: u16)
        ensures
            final(self)@ == region_write(
                region_write(old(self)@, addr as int, first_byte(word, region_endian(old(self)@))),
                addr as int + 1,
                second_byte(word, region_endian(old(self)@)),
            ),
    {
        let low = lo_byte(word);
        let high = hi_byte(word);
        match self.endian {
            Endian::Little => {
                self.write(addr, low);
                self.write(addr + 1, high);
            },
            Endian::Big => {
                self.write(addr, high);
                self.write(addr + 1, low);
            },
        }
    }

    /// Video memory reads as 0.
    fn read_word_zero(&self, addr: u8) -> (r: u16)
        ensures
            r == 0u16,
    {
        0u16
    }

    fn write_word_zero(&mut self, addr: u8, word: u16)
        ensures
            final(self)@ == region_write(
                region_write(old(self)@, addr as int, first_byte(word, region_endian(old(self)@))),
                wrap8(addr + 1) as int,
                second_byte(word, region_endian(old(self)@)),
            ),
    {
        let low = lo_byte(word);
        let high = hi_byte(word);
        match self.endian {
            Endian::Little => {
                self.write(addr as usize, low);
                self.write(addr.wrapping_add(1) as usize, high);
            },
            Endian::Big => {
                self.write(addr as usize, high);
                self.write(addr.wrapping_add(1) as usize, low);
            },
        }
    }

    fn size(&self) -> (r: usize) {
        self.size
    }
}

} // verus!
