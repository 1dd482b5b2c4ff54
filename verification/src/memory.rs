//! The memory fabric: a uniform byte-addressable region contract, the three
//! concrete region kinds (RAM, ROM, VRAM), and a manager that routes accesses
//! to an ordered list of mapped regions, where later mappings shadow earlier
//! ones.
use vstd::prelude::*;

use crate::ram::{first_byte, hi_byte, lo_byte, second_byte, word_of, RAM};
use crate::rom::ROM;
use crate::vram::VRAM;

verus! {

broadcast use crate::ram::lemma_ram_view_shape, crate::rom::lemma_rom_view_shape, crate::vram::lemma_vram_view_shape;

/// Byte order used by the word-sized helpers: which of the two bytes of a
/// 16-bit word sits at the lower address.
#[derive(Clone, Copy, PartialEq, Eq, Structural, Debug)]
pub enum Endian {
    Little,
    Big,
}

pub type MemoryID = u32;

/// The mathematical shape of one memory region.
///
/// * `Ram` is a mutable byte store.
/// * `Rom` is an immutable byte store; writes leave it unchanged.
/// * `Vram` holds no bytes: each write is recorded as an `(offset, byte)`
///   event for a display to consume, and reads yield 0.
#[verifier::ext_equal]
pub enum RegionView {
    Ram { bytes: Seq<u8>, endian: Endian },
    Rom { bytes: Seq<u8>, endian: Endian },
    Vram { size: nat, endian: Endian, events: Seq<(usize, u8)> },
}

/// Number of addressable bytes of a region.
pub open spec fn region_size(r: RegionView) -> nat {
    match r {
        RegionView::Ram { bytes, .. } => bytes.len(),
        RegionView::Rom { bytes, .. } => bytes.len(),
        RegionView::Vram { size, .. } => size,
    }
}

pub open spec fn region_endian(r: RegionView) -> Endian {
    match r {
        RegionView::Ram { endian, .. } => endian,
        RegionView::Rom { endian, .. } => endian,
        RegionView::Vram { endian, .. } => endian,
    }
}

/// The byte a region yields at `off`. ROM reads past its backing bytes yield
/// 0, and VRAM always reads as 0.
pub open spec fn region_byte(r: RegionView, off: int) -> u8 {
    match r {
        RegionView::Ram { bytes, .. } => if 0 <= off < bytes.len() {
            bytes[off]
        } else {
            0u8
        },
        RegionView::Rom { bytes, .. } => if 0 <= off < bytes.len() {
            bytes[off]
        } else {
            0u8
        },
        RegionView::Vram { .. } => 0u8,
    }
}

/// The region after a byte write at `off`: RAM stores the byte, ROM is
/// unchanged, VRAM appends a display event. Out-of-range writes change
/// nothing (the concrete types refuse them before this point).
pub open spec fn region_write(r: RegionView, off: int, data: u8) -> RegionView {
    match r {
        RegionView::Ram { bytes, endian } => if 0 <= off < bytes.len() {
            RegionView::Ram { bytes: bytes.update(off, data), endian }
        } else {
            r
        },
        RegionView::Rom { .. } => r,
        RegionView::Vram { size, endian, events } => if 0 <= off < size {
            RegionView::Vram { size, endian, events: events.push((off as usize, data)) }
        } else {
            r
        },
    }
}

/// A 16-bit word assembled from the byte at the lower address (`first`) and
/// the byte at the higher address (`second`).
pub open spec fn word_from(first: u8, second: u8, e: Endian) -> u16 {
    match e {
        Endian::Big => ((first as int) * 256 + (second as int)) as u16,
        Endian::Little => ((second as int) * 256 + (first as int)) as u16,
    }
}

pub open spec fn word_lo(w: u16) -> u8 {
    (w % 256) as u8
}

pub open spec fn word_hi(w: u16) -> u8 {
    (w / 256) as u8
}

/// The word a region yields at `off`, composed from two adjacent bytes per
/// the region's byte order.
pub open spec fn region_word(r: RegionView, off: int) -> u16 {
    word_from(region_byte(r, off), region_byte(r, off + 1), region_endian(r))
}

/// Reduction of an integer into the 8-bit space (for zero-page pointer
/// arithmetic and stack pointer movement).
pub open spec fn wrap8(x: int) -> u8 {
    if x > 510 || x < -256 {
        (((x % 256) + 256) % 256) as u8
    } else if x > 255 {
        (x - 256) as u8
    } else if x < 0 {
        (x + 256) as u8
    } else {
        x as u8
    }
}

/// Reduction of an integer into the 16-bit address space (program counter
/// and effective-address arithmetic wrap modulo 0x10000).
pub open spec fn wrap16(x: int) -> u16 {
    if x > 0x1FFFF || x < -0x10000 {
        (((x % 0x10000) + 0x10000) % 0x10000) as u16
    } else if x > 0xFFFF {
        (x - 0x10000) as u16
    } else if x < 0 {
        (x + 0x10000) as u16
    } else {
        x as u16
    }
}

/// The uniform contract of a byte-addressable memory region.
///
/// Each implementation gives the `can_*` spec functions its own meaning:
/// they delimit the accesses that are defined at all (RAM and VRAM refuse
/// out-of-bounds accesses, ROM and the manager accept every address).
/// The implementations strengthen the exec methods with exact `ensures`.
pub trait Memory: Sized {
    /// Number of addressable bytes.
    spec fn mem_size(&self) -> nat;

    /// Addresses at which a byte read is defined.
    spec fn can_read(&self, addr: int) -> bool;

    /// Addresses at which a byte write is defined.
    spec fn can_write(&self, addr: int) -> bool;

    /// Addresses at which a word read is defined.
    spec fn can_read_word(&self, addr: int) -> bool;

    /// Addresses at which a word write is defined.
    spec fn can_write_word(&self, addr: int) -> bool;

    /// Zero-page addresses at which a wrapped word read is defined.
    spec fn can_read_word_zero(&self, addr: u8) -> bool;

    /// Zero-page addresses at which a wrapped word write is defined.
    spec fn can_write_word_zero(&self, addr: u8) -> bool;

    fn write(&mut self, addr: usize, data: u8)
        requires
            old(self).can_write(addr as int),
    ;

    fn read(&self, addr: usize) -> u8
        requires
            self.can_read(addr as int),
    ;

    fn is_valid(&self, addr: usize) -> (r: bool)
        ensures
            r == (addr < self.mem_size()),
    ;

    /// Reads the word whose low-address byte sits at `addr` and whose
    /// high-address byte sits at `addr + 1` wrapped within the zero page.
    fn read_word_zero(&self, addr: u8) -> u16
        requires
            self.can_read_word_zero(addr),
    ;

    fn read_word(&self, addr: usize) -> u16
        requires
            self.can_read_word(addr as int),
    ;

    fn write_word_zero(&mut self, addr: u8, word: u16)
        requires
            old(self).can_write_word_zero(addr),
    ;

    fn write_word(&mut self, addr: usize, word: u16)
        requires
            old(self).can_write_word(addr as int),
    ;

    fn size(&self) -> (r: usize)
        ensures
            r == self.mem_size(),
    ;
}

/// One concrete region, as the manager stores it.
pub enum Region {
    Ram(RAM),
    Rom(ROM),
    Vram(VRAM),
}

impl View for Region {
    type V = RegionView;

    open spec fn view(&self) -> RegionView {
        match self {
            Region::Ram(r) => r@,
            Region::Rom(r) => r@,
            Region::Vram(r) => r@,
        }
    }
}

impl Memory for Region {
    open spec fn mem_size(&self) -> nat {
        region_size(self@)
    }

    open spec fn can_read(&self, addr: int) -> bool {
        match self {
            Region::Ram(r) => r.can_read(addr),
            Region::Rom(r) => r.can_read(addr),
            Region::Vram(r) => r.can_read(addr),
        }
    }

    open spec fn can_write(&self, addr: int) -> bool {
        match self {
            Region::Ram(r) => r.can_write(addr),
            Region::Rom(r) => r.can_write(addr),
            Region::Vram(r) => r.can_write(addr),
        }
    }

    open spec fn can_read_word(&self, addr: int) -> bool {
        match self {
            Region::Ram(r) => r.can_read_word(addr),
            Region::Rom(r) => r.can_read_word(addr),
            Region::Vram(r) => r.can_read_word(addr),
        }
    }

    open spec fn can_write_word(&self, addr: int) -> bool {
        match self {
            Region::Ram(r) => r.can_write_word(addr),
            Region::Rom(r) => r.can_write_word(addr),
            Region::Vram(r) => r.can_write_word(addr),
        }
    }

    open spec fn can_read_word_zero(&self, addr: u8) -> bool {
        match self {
            Region::Ram(r) => r.can_read_word_zero(addr),
            Region::Rom(r) => r.can_read_word_zero(addr),
            Region::Vram(r) => r.can_read_word_zero(addr),
        }
    }

    open spec fn can_write_word_zero(&self, addr: u8) -> bool {
        match self {
            Region::Ram(r) => r.can_write_word_zero(addr),
            Region::Rom(r) => r.can_write_word_zero(addr),
            Region::Vram(r) => r.can_write_word_zero(addr),
        }
    }

    fn write(&mut self, addr: usize, data: u8)
        ensures
            final(self)@ == region_write(old(self)@, addr as int, data),
    {
        match self {
            Region::Ram(r) => r.write(addr, data),
            Region::Rom(r) => r.write(addr, data),
            Region::Vram(r) => r.write(addr, data),
        }
    }

    fn read(&self, addr: usize) -> (r: u8)
        ensures
            r == region_byte(self@, addr as int),
    {
        match self {
            Region::Ram(r) => r.read(addr),
            Region::Rom(r) => r.read(addr),
            Region::Vram(r) => r.read(addr),
        }
    }

    fn is_valid(&self, addr: usize) -> (r: bool) {
        match self {
            Region::Ram(r) => r.is_valid(addr),
            Region::Rom(r) => r.is_valid(addr),
            Region::Vram(r) => r.is_valid(addr),
        }
    }

    fn read_word_zero(&self, addr: u8) -> (r: u16)
        ensures
            r == word_from(
                region_byte(self@, addr as int),
                region_byte(self@, wrap8(addr + 1) as int),
                region_endian(self@),
            ),
    {
        match self {
            Region::Ram(r) => r.read_word_zero(addr),
            Region::Rom(r) => r.read_word_zero(addr),
            Region::Vram(r) => r.read_word_zero(addr),
        }
    }

    fn read_word(&self, addr: usize) -> (r: u16)
        ensures
            r == region_word(self@, addr as int),
    {
        match self {
            Region::Ram(r) => r.read_word(addr),
            Region::Rom(r) => r.read_word(addr),
            Region::Vram(r) => r.read_word(addr),
        }
    }

    fn write_word_zero(&mut self, addr: u8, word: u16)
        ensures
            final(self)@ == region_write(
                region_write(
                    old(self)@,
                    addr as int,
                    crate::ram::first_byte(word, region_endian(old(self)@)),
                ),
                wrap8(addr + 1) as int,
                crate::ram::second_byte(word, region_endian(old(self)@)),
            ),
    {
        match self {
            Region::Ram(r) => r.write_word_zero(addr, word),
            Region::Rom(r) => r.write_word_zero(addr, word),
            Region::Vram(r) => r.write_word_zero(addr, word),
        }
    }

    fn write_word(&mut self, addr: usize, word: u16)
        ensures
            final(self)@ == region_write(
                region_write(
                    old(self)@,
                    addr as int,
                    crate::ram::first_byte(word, region_endian(old(self)@)),
                ),
                addr as int + 1,
                crate::ram::second_byte(word, region_endian(old(self)@)),
            ),
    {
        match self {
            Region::Ram(r) => r.write_word(addr, word),
            Region::Rom(r) => r.write_word(addr, word),
            Region::Vram(r) => r.write_word(addr, word),
        }
    }

    fn size(&self) -> (r: usize) {
        match self {
            Region::Ram(r) => r.size(),
            Region::Rom(r) => r.size(),
            Region::Vram(r) => r.size(),
        }
    }
}

/// One mapping of the manager: a region and the address its offset 0 sits at.
pub struct MMEntry {
    base: usize,
    id: MemoryID,
    region: Region,
}

/// The ghost shape of one mapping.
#[verifier::ext_equal]
pub struct EntryView {
    pub base: nat,
    pub id: MemoryID,
    pub region: RegionView,
}

impl View for MMEntry {
    type V = EntryView;

    closed spec fn view(&self) -> EntryView {
        EntryView { base: self.base as nat, id: self.id, region: self.region@ }
    }
}

impl MMEntry {
    pub fn new(base: usize, region: Region) -> (r: MMEntry)
        ensures
            r@ == (EntryView { base: base as nat, id: 0, region: region@ }),
    {
        MMEntry { base, id: 0, region }
    }

    /// Whether this mapping covers the absolute address.
    pub fn covers(&self, addr: usize) -> (r: bool)
        ensures
            r == entry_covers(self@, addr as int),
    {
        addr >= self.base && addr - self.base < self.region.size()
    }

    /// The mapping's identifier.
    pub fn id_of(&self) -> (r: MemoryID)
        ensures
            r == self@.id,
    {
        self.id
    }

    /// The absolute address of the mapping's offset 0.
    pub fn base(&self) -> (r: usize)
        ensures
            r == self@.base,
    {
        self.base
    }

    fn read_at(&self, off: usize) -> (r: u8)
        requires
            off < region_size(self@.region),
        ensures
            r == region_byte(self@.region, off as int),
    {
        self.region.read(off)
    }

    fn write_at(&mut self, off: usize, data: u8)
        requires
            off < region_size(old(self)@.region),
        ensures
            final(self)@ == (EntryView {
                region: region_write(old(self)@.region, off as int, data),
                ..old(self)@
            }),
    {
        self.region.write(off, data);
    }

    /// Hands out the pending display events when the region is video memory.
    fn take_events(&mut self) -> (r: Option<Vec<(usize, u8)>>)
        ensures
            old(self)@.region is Vram ==> {
                &&& r is Some
                &&& r->Some_0@ == crate::vram::events_of(old(self)@.region)
                &&& final(self)@ == (EntryView {
                    region: clear_events(old(self)@.region),
                    ..old(self)@
                })
            },
            !(old(self)@.region is Vram) ==> r is None && final(self)@ == old(self)@,
    {
        match &mut self.region {
            Region::Vram(v) => Some(v.take_events()),
            _ => None,
        }
    }
}

/// A video region with its pending events removed; other regions unchanged.
pub open spec fn clear_events(r: RegionView) -> RegionView {
    match r {
        RegionView::Vram { size, endian, .. } => RegionView::Vram {
            size,
            endian,
            events: Seq::empty(),
        },
        _ => r,
    }
}

/// True when `e` maps the absolute address `addr`.
pub open spec fn entry_covers(e: EntryView, addr: int) -> bool {
    e.base <= addr < e.base + region_size(e.region)
}

/// Index of the first mapping that covers `addr`, or -1 when none does.
/// Mappings are kept newest first, so the first covering entry is the one
/// mapped last: later mappings shadow earlier ones.
pub open spec fn find_entry(entries: Seq<EntryView>, addr: int) -> int
    decreases entries.len(),
{
    if entries.len() == 0 {
        -1
    } else if entry_covers(entries[0], addr) {
        0
    } else {
        let rest = find_entry(entries.drop_first(), addr);
        if rest < 0 {
            -1
        } else {
            rest + 1
        }
    }
}

/// The ghost shape of the whole manager.
#[verifier::ext_equal]
pub struct MgrView {
    pub entries: Seq<EntryView>,
    pub endian: Endian,
    pub max_addr: nat,
}

/// The byte the manager yields at `addr`: the covering mapping's byte, or 0
/// when the address is unmapped.
pub open spec fn mgr_read(m: MgrView, addr: int) -> u8 {
    let i = find_entry(m.entries, addr);
    if i >= 0 {
        region_byte(m.entries[i].region, addr - m.entries[i].base)
    } else {
        0u8
    }
}

/// The manager after a byte write at `addr`: the covering mapping absorbs the
/// write; a write to an unmapped address is dropped.
pub open spec fn mgr_write(m: MgrView, addr: int, data: u8) -> MgrView {
    let i = find_entry(m.entries, addr);
    if i >= 0 {
        MgrView {
            entries: m.entries.update(
                i,
                EntryView {
                    region: region_write(m.entries[i].region, addr - m.entries[i].base, data),
                    ..m.entries[i]
                },
            ),
            ..m
        }
    } else {
        m
    }
}

/// The word the manager yields at `addr`, composed per its byte order.
pub open spec fn mgr_read_word(m: MgrView, addr: int) -> u16 {
    word_from(mgr_read(m, addr), mgr_read(m, addr + 1), m.endian)
}

/// The manager after a word write at `addr`.
pub open spec fn mgr_write_word(m: MgrView, addr: int, word: u16) -> MgrView {
    mgr_write(
        mgr_write(m, addr, crate::ram::first_byte(word, m.endian)),
        addr + 1,
        crate::ram::second_byte(word, m.endian),
    )
}

/// The word read from the zero page: the high-address byte wraps within the
/// 8-bit space.
pub open spec fn mgr_read_word_zero(m: MgrView, addr: u8) -> u16 {
    word_from(mgr_read(m, addr as int), mgr_read(m, wrap8(addr + 1) as int), m.endian)
}

/// The manager after a word write into the zero page.
pub open spec fn mgr_write_word_zero(m: MgrView, addr: u8, word: u16) -> MgrView {
    mgr_write(
        mgr_write(m, addr as int, crate::ram::first_byte(word, m.endian)),
        wrap8(addr + 1) as int,
        crate::ram::second_byte(word, m.endian),
    )
}

/// The address resolves to a writable RAM mapping (no shadowing in front).
pub open spec fn backed_by_ram(m: MgrView, addr: int) -> bool {
    let i = find_entry(m.entries, addr);
    i >= 0 && m.entries[i].region is Ram
}

/// The address resolves to a read-only mapping.
pub open spec fn backed_by_rom(m: MgrView, addr: int) -> bool {
    let i = find_entry(m.entries, addr);
    i >= 0 && m.entries[i].region is Rom
}

/// Routes 8- and 16-bit accesses across an ordered list of mappings; the
/// entry mapped last wins where mappings overlap. No access fails: unmapped
/// reads yield 0 and unmapped writes are dropped.
pub struct MemoryManager {
    regions: Vec<MMEntry>,
    endian: Endian,
    max_addr: usize,
}

/// The views of a sequence of mappings, in order.
pub open spec fn entries_view(s: Seq<MMEntry>) -> Seq<EntryView> {
    s.map_values(|e: MMEntry| e@)
}

/// Bridges the manager's view across an update of its mapping vector.
pub broadcast proof fn lemma_map_values_update(s: Seq<MMEntry>, i: int, v: MMEntry)
    requires
        0 <= i < s.len(),
    ensures
        #[trigger] entries_view(s.update(i, v)) == entries_view(s).update(i, v@),
{
    assert(entries_view(s.update(i, v)) =~= entries_view(s).update(i, v@));
}

impl View for MemoryManager {
    type V = MgrView;

    closed spec fn view(&self) -> MgrView {
        MgrView {
            entries: entries_view(self.regions@),
            endian: self.endian,
            max_addr: self.max_addr as nat,
        }
    }
}

impl MemoryManager {
    /// An empty little-endian manager for the address space `0 ..= max_addr`.
    pub fn new(max_addr: usize) -> (r: MemoryManager)
        ensures
            r@ == (MgrView {
                entries: Seq::<EntryView>::empty(),
                endian: Endian::Little,
                max_addr: max_addr as nat,
            }),
    {
        let v: Vec<MMEntry> = Vec::new();
        let r = MemoryManager { regions: v, endian: Endian::Little, max_addr };
        proof {
            assert(r@.entries =~= Seq::<EntryView>::empty());
        }
        r
    }

    /// Maps `region` at `addr`, in front of every earlier mapping: it shadows
    /// them wherever they overlap.
    pub fn map(&mut self, addr: usize, region: Region)
        ensures
            final(self)@ == (MgrView {
                entries: old(self)@.entries.insert(
                    0,
                    EntryView { base: addr as nat, id: 0, region: region@ },
                ),
                ..old(self)@
            }),
    {
        let ghost rv = region@;
        let e = MMEntry::new(addr, region);
        self.regions.insert(0, e);
        proof {
            assert(self@.entries =~= old(self)@.entries.insert(
                0,
                EntryView { base: addr as nat, id: 0, region: rv },
            ));
        }
    }

    /// Index of the covering mapping, newest first.
    fn find_index(&self, addr: usize) -> (r: Option<usize>)
        ensures
            match r {
                Some(i) => {
                    &&& find_entry(self@.entries, addr as int) == i as int
                    &&& i < self@.entries.len()
                    &&& entry_covers(self@.entries[i as int], addr as int)
                },
                None => find_entry(self@.entries, addr as int) == -1,
            },
    {
        let n = self.regions.len();
        let mut i: usize = 0;
        while i < n
            invariant
                n == self.regions@.len(),
                n == self@.entries.len(),
                0 <= i <= n,
                forall|j: int| 0 <= j < i ==> !entry_covers(self@.entries[j], addr as int),
            decreases n - i,
        {
            if self.regions[i].covers(addr) {
                proof {
                    assert(self@.entries[i as int] == self.regions@[i as int]@);
                    lemma_find_entry_first(self@.entries, addr as int, i as int);
                }
                return Some(i);
            }
            proof {
                assert(self@.entries[i as int] == self.regions@[i as int]@);
            }
            i = i + 1;
        }
        proof {
            lemma_find_entry_none(self@.entries, addr as int);
        }
        None
    }

    /// The covering mapping for `addr`, if any (the one mapped last wins).
    pub fn find_by_addr(&self, addr: usize) -> (r: Option<&MMEntry>)
        ensures
            match r {
                Some(e) => {
                    &&& find_entry(self@.entries, addr as int) >= 0
                    &&& e@ == self@.entries[find_entry(self@.entries, addr as int)]
                },
                None => find_entry(self@.entries, addr as int) == -1,
            },
    {
        match self.find_index(addr) {
            Some(i) => Some(&self.regions[i]),
            None => None,
        }
    }

    /// Exclusive access to the covering mapping for `addr`, if any.
    pub fn find_by_addr_mut(&mut self, addr: usize) -> (r: Option<&mut MMEntry>)
        ensures
            match r {
                Some(e) => {
                    &&& find_entry(old(self)@.entries, addr as int) >= 0
                    &&& e@ == old(self)@.entries[find_entry(old(self)@.entries, addr as int)]
                    &&& final(self)@ == (MgrView {
                        entries: old(self)@.entries.update(
                            find_entry(old(self)@.entries, addr as int),
                            final(e)@,
                        ),
                        ..old(self)@
                    })
                },
                None => find_entry(old(self)@.entries, addr as int) == -1 && final(self)@ == old(
                    self,
                )@,
            },
    {
        broadcast use lemma_map_values_update;

        match self.find_index(addr) {
            Some(i) => Some(&mut self.regions[i]),
            None => None,
        }
    }

    /// Exclusive access to the first mapping whose identifier is `id`.
    pub fn find_by_id(&mut self, id: MemoryID) -> (r: Option<&mut MMEntry>)
        ensures
            match r {
                Some(e) => {
                    &&& find_entry_by_id(old(self)@.entries, id) >= 0
                    &&& e@ == old(self)@.entries[find_entry_by_id(old(self)@.entries, id)]
                    &&& final(self)@ == (MgrView {
                        entries: old(self)@.entries.update(
                            find_entry_by_id(old(self)@.entries, id),
                            final(e)@,
                        ),
                        ..old(self)@
                    })
                },
                None => find_entry_by_id(old(self)@.entries, id) == -1 && final(self)@ == old(
                    self,
                )@,
            },
    {
        broadcast use lemma_map_values_update;

        let n = self.regions.len();
        let mut i: usize = 0;
        while i < n
            invariant
                n == self.regions@.len(),
                n == self@.entries.len(),
                0 <= i <= n,
                self@ == old(self)@,
                forall|j: int| 0 <= j < i ==> self@.entries[j].id != id,
            decreases n - i,
        {
            proof {
                assert(self@.entries[i as int] == self.regions@[i as int]@);
            }
            if self.regions[i].id_of() == id {
                proof {
                    lemma_find_entry_by_id_first(self@.entries, id, i as int);
                }
                return Some(&mut self.regions[i]);
            }
            i = i + 1;
        }
        proof {
            lemma_find_entry_by_id_none(self@.entries, id);
        }
        None
    }

    /// Hands out the display events pending in the first video mapping, if
    /// any, leaving it empty.
    pub fn take_display_events(&mut self) -> (r: Vec<(usize, u8)>)
        ensures
            final(self)@ == (MgrView {
                entries: clear_first_vram(old(self)@.entries),
                ..old(self)@
            }),
            r@ == first_vram_events(old(self)@.entries),
    {
        broadcast use lemma_map_values_update;

        let n = self.regions.len();
        let mut i: usize = 0;
        while i < n
            invariant
                n == self.regions@.len(),
                n == self@.entries.len(),
                0 <= i <= n,
                self@ == old(self)@,
                forall|j: int| 0 <= j < i ==> !(self@.entries[j].region is Vram),
            decreases n - i,
        {
            proof {
                assert(self@.entries[i as int] == self.regions@[i as int]@);
            }
            let e = &mut self.regions[i];
            let taken = e.take_events();
            match taken {
                Some(v) => {
                    proof {
                        lemma_find_vram_first(old(self)@.entries, i as int);
                        assert(self@.entries =~= clear_first_vram(old(self)@.entries));
                    }
                    return v;
                },
                None => {
                    proof {
                        assert(self@ =~= old(self)@);
                    }
                },
            }
            i = i + 1;
        }
        proof {
            lemma_find_vram_none(self@.entries);
            assert(self@.entries =~= clear_first_vram(old(self)@.entries));
        }
        Vec::new()
    }
}

/// Index of the first mapping with the given identifier, or -1.
pub open spec fn find_entry_by_id(entries: Seq<EntryView>, id: MemoryID) -> int
    decreases entries.len(),
{
    if entries.len() == 0 {
        -1
    } else if entries[0].id == id {
        0
    } else {
        let rest = find_entry_by_id(entries.drop_first(), id);
        if rest < 0 {
            -1
        } else {
            rest + 1
        }
    }
}

/// Index of the first video mapping, or -1.
pub open spec fn find_vram(entries: Seq<EntryView>) -> int
    decreases entries.len(),
{
    if entries.len() == 0 {
        -1
    } else if entries[0].region is Vram {
        0
    } else {
        let rest = find_vram(entries.drop_first());
        if rest < 0 {
            -1
        } else {
            rest + 1
        }
    }
}

/// The pending events of the first video mapping (none when there is none).
pub open spec fn first_vram_events(entries: Seq<EntryView>) -> Seq<(usize, u8)> {
    let i = find_vram(entries);
    if i >= 0 {
        crate::vram::events_of(entries[i].region)
    } else {
        Seq::empty()
    }
}

/// The mappings after the first video mapping's events are taken.
pub open spec fn clear_first_vram(entries: Seq<EntryView>) -> Seq<EntryView> {
    let i = find_vram(entries);
    if i >= 0 {
        entries.update(i, EntryView { region: clear_events(entries[i].region), ..entries[i] })
    } else {
        entries
    }
}

proof fn lemma_find_entry_first(entries: Seq<EntryView>, addr: int, i: int)
    requires
        0 <= i < entries.len(),
        entry_covers(entries[i], addr),
        forall|j: int| 0 <= j < i ==> !entry_covers(entries[j], addr),
    ensures
        find_entry(entries, addr) == i,
    decreases i,
{
    if i > 0 {
        lemma_find_entry_first(entries.drop_first(), addr, i - 1);
    }
}

proof fn lemma_find_entry_none(entries: Seq<EntryView>, addr: int)
    requires
        forall|j: int| 0 <= j < entries.len() ==> !entry_covers(entries[j], addr),
    ensures
        find_entry(entries, addr) == -1,
    decreases entries.len(),
{
    if entries.len() > 0 {
        lemma_find_entry_none(entries.drop_first(), addr);
    }
}

proof fn lemma_find_entry_by_id_first(entries: Seq<EntryView>, id: MemoryID, i: int)
    requires
        0 <= i < entries.len(),
        entries[i].id == id,
        forall|j: int| 0 <= j < i ==> entries[j].id != id,
    ensures
        find_entry_by_id(entries, id) == i,
    decreases i,
{
    if i > 0 {
        lemma_find_entry_by_id_first(entries.drop_first(), id, i - 1);
    }
}

proof fn lemma_find_entry_by_id_none(entries: Seq<EntryView>, id: MemoryID)
    requires
        forall|j: int| 0 <= j < entries.len() ==> entries[j].id != id,
    ensures
        find_entry_by_id(entries, id) == -1,
    decreases entries.len(),
{
    if entries.len() > 0 {
        lemma_find_entry_by_id_none(entries.drop_first(), id);
    }
}

proof fn lemma_find_vram_first(entries: Seq<EntryView>, i: int)
    requires
        0 <= i < entries.len(),
        entries[i].region is Vram,
        forall|j: int| 0 <= j < i ==> !(entries[j].region is Vram),
    ensures
        find_vram(entries) == i,
    decreases i,
{
    if i > 0 {
        lemma_find_vram_first(entries.drop_first(), i - 1);
    }
}

proof fn lemma_find_vram_none(entries: Seq<EntryView>)
    requires
        forall|j: int| 0 <= j < entries.len() ==> !(entries[j].region is Vram),
    ensures
        find_vram(entries) == -1,
    decreases entries.len(),
{
    if entries.len() > 0 {
        lemma_find_vram_none(entries.drop_first());
    }
}

impl Memory for MemoryManager {
    open spec fn mem_size(&self) -> nat {
        if self@.max_addr < usize::MAX {
            (self@.max_addr + 1) as nat
        } else {
            usize::MAX as nat
        }
    }

    open spec fn can_read(&self, addr: int) -> bool {
        true
    }

    open spec fn can_write(&self, addr: int) -> bool {
        true
    }

    open spec fn can_read_word(&self, addr: int) -> bool {
        addr < usize::MAX
    }

    open spec fn can_write_word(&self, addr: int) -> bool {
        addr < usize::MAX
    }

    open spec fn can_read_word_zero(&self, addr: u8) -> bool {
        true
    }

    open spec fn can_write_word_zero(&self, addr: u8) -> bool {
        true
    }

    /// Routes the write to the covering mapping; drops it when none covers.
    fn write(&mut self, addr: usize, data: u8)
        ensures
            final(self)@ == mgr_write(old(self)@, addr as int, data),
    {
        broadcast use lemma_map_values_update;

        match self.find_index(addr) {
            None => {},
            Some(i) => {
                let base = self.regions[i].base();
                let off = addr - base;
                let e = &mut self.regions[i];
                e.write_at(off, data);
                proof {
                    assert(self@ =~= mgr_write(old(self)@, addr as int, data));
                }
            },
        }
    }

    /// Reads through the covering mapping; an unmapped address yields 0.
    fn read(&self, addr: usize) -> (r: u8)
        ensures
            r == mgr_read(self@, addr as int),
    {
        match self.find_index(addr) {
            None => 0u8,
            Some(i) => {
                let e = &self.regions[i];
                proof {
                    assert(e@ == self@.entries[i as int]);
                }
                let off = addr - e.base();
                e.read_at(off)
            },
        }
    }

    fn is_valid(&self, addr: usize) -> (r: bool) {
        if self.max_addr < usize::MAX {
            addr <= self.max_addr
        } else {
            addr < usize::MAX
        }
    }

    fn read_word_zero(&self, addr: u8) -> (r: u16)
        ensures
            r == mgr_read_word_zero(self@, addr),
    {
        let low = self.read(addr as usize);
        let high = self.read(addr.wrapping_add(1) as usize);
        word_of(low, high, self.endian)
    }

    fn read_word(&self, addr: usize) -> (r: u16)
        ensures
            r == mgr_read_word(self@, addr as int),
    {
        let low = self.read(addr);
        let high = self.read(addr + 1);
        word_of(low, high, self.endian)
    }

    fn write_word_zero(&mut self, addr: u8, word: u16)
        ensures
            final(self)@ == mgr_write_word_zero(old(self)@, addr, word),
    {
        let low = lo_byte(word);
        let high = hi_byte(word);
        match self.endian {
            Endian::Little => {
                self.write(addr as usize, low);
                self.write(addr.wrapping_add(1) as usize, high);
            },
            Endian::Big => {
                self.write(addr as usize, high);
                self.write(addr.wrapping_add(1) as usize, low);
            },
        }
    }

    fn write_word(&mut self, addr: usize, word: u16)
        ensures
            final(self)@ == mgr_write_word(old(self)@, addr as int, word),
    {
        let low = lo_byte(word);
        let high = hi_byte(word);
        match self.endian {
            Endian::Little => {
                self.write(addr, low);
                self.write(addr + 1, high);
            },
            Endian::Big => {
                self.write(addr, high);
                self.write(addr + 1, low);
            },
        }
    }

    fn size(&self) -> (r: usize) {
        if self.max_addr < usize::MAX {
            self.max_addr + 1
        } else {
            usize::MAX
        }
    }
}

proof fn lemma_region_write_shape(r: RegionView, off: int, d: u8)
    ensures
        region_size(region_write(r, off, d)) == region_size(r),
        region_endian(region_write(r, off, d)) == region_endian(r),
        region_write(r, off, d) is Ram <==> r is Ram,
        region_write(r, off, d) is Rom <==> r is Rom,
        region_write(r, off, d) is Vram <==> r is Vram,
{
}

proof fn lemma_find_entry_same_layout(e1: Seq<EntryView>, e2: Seq<EntryView>, addr: int)
    requires
        e1.len() == e2.len(),
        forall|j: int|
            0 <= j < e1.len() ==> e2[j].base == e1[j].base && region_size(e2[j].region)
                == region_size(e1[j].region),
    ensures
        find_entry(e2, addr) == find_entry(e1, addr),
    decreases e1.len(),
{
    if e1.len() > 0 {
        assert forall|j: int|
            0 <= j < e1.drop_first().len() implies e2.drop_first()[j].base
            == e1.drop_first()[j].base && region_size(e2.drop_first()[j].region) == region_size(
            e1.drop_first()[j].region,
        ) by {
            assert(e1.drop_first()[j] == e1[j + 1]);
            assert(e2.drop_first()[j] == e2[j + 1]);
        }
        lemma_find_entry_same_layout(e1.drop_first(), e2.drop_first(), addr);
    }
}

/// Whatever a write does, it moves no mapping: every lookup resolves to the
/// same entry index before and after.
pub proof fn lemma_write_preserves_find(m: MgrView, b: int, d: u8, a: int)
    ensures
        find_entry(mgr_write(m, b, d).entries, a) == find_entry(m.entries, a),
{
    let m2 = mgr_write(m, b, d);
    lemma_find_entry_covers(m.entries, b);
    assert forall|j: int|
        0 <= j < m.entries.len() implies m2.entries[j].base == m.entries[j].base && region_size(
        m2.entries[j].region,
    ) == region_size(m.entries[j].region) by {
        let k = find_entry(m.entries, b);
        if k == j {
            lemma_region_write_shape(m.entries[j].region, b - m.entries[j].base, d);
        }
    }
    lemma_find_entry_same_layout(m.entries, m2.entries, a);
}

/// A lookup that hits a mapping hits one that covers the address.
pub proof fn lemma_find_entry_covers(entries: Seq<EntryView>, addr: int)
    ensures
        find_entry(entries, addr) >= 0 ==> find_entry(entries, addr) < entries.len()
            && entry_covers(entries[find_entry(entries, addr)], addr),
        find_entry(entries, addr) >= -1,
    decreases entries.len(),
{
    if entries.len() > 0 {
        lemma_find_entry_covers(entries.drop_first(), addr);
    }
}

/// A byte written to an address whose resolving mapping is RAM reads back
/// unchanged.
pub proof fn lemma_ram_read_back(m: MgrView, a: int, d: u8)
    requires
        backed_by_ram(m, a),
    ensures
        mgr_read(mgr_write(m, a, d), a) == d,
        backed_by_ram(mgr_write(m, a, d), a),
{
    lemma_find_entry_covers(m.entries, a);
    lemma_write_preserves_find(m, a, d, a);
}

/// Writing one address never changes what any other address reads.
pub proof fn lemma_write_frame(m: MgrView, a: int, b: int, d: u8)
    requires
        a != b,
    ensures
        mgr_read(mgr_write(m, b, d), a) == mgr_read(m, a),
{
    lemma_find_entry_covers(m.entries, a);
    lemma_find_entry_covers(m.entries, b);
    lemma_write_preserves_find(m, b, d, a);
}

/// Writes resolve against the same mapping kinds before and after any write:
/// in particular a RAM-backed address stays RAM-backed.
pub proof fn lemma_write_preserves_backing(m: MgrView, b: int, d: u8, a: int)
    ensures
        backed_by_ram(mgr_write(m, b, d), a) == backed_by_ram(m, a),
        backed_by_rom(mgr_write(m, b, d), a) == backed_by_rom(m, a),
{
    lemma_find_entry_covers(m.entries, b);
    lemma_find_entry_covers(m.entries, a);
    lemma_write_preserves_find(m, b, d, a);
    let m2 = mgr_write(m, b, d);
    let k = find_entry(m.entries, b);
    let j = find_entry(m.entries, a);
    assert(find_entry(m2.entries, a) == j);
    if k >= 0 {
        if j == k {
            lemma_region_write_shape(m.entries[k].region, b - m.entries[k].base, d);
            assert(m2.entries[j].region is Ram <==> m.entries[j].region is Ram);
        } else if j >= 0 {
            assert(m2.entries[j] == m.entries[j]);
        }
    } else {
        assert(m2 == m);
    }
}

/// A write whose resolving mapping is read-only changes nothing at all.
pub proof fn lemma_rom_write_ignored(m: MgrView, a: int, d: u8)
    requires
        backed_by_rom(m, a),
    ensures
        mgr_write(m, a, d) == m,
{
    lemma_find_entry_covers(m.entries, a);
    let k = find_entry(m.entries, a);
    assert(mgr_write(m, a, d).entries =~= m.entries);
    assert(mgr_write(m, a, d) =~= m);
}

/// Mapping a region puts it in front: wherever the new region covers, it is
/// the one that answers reads, whatever was mapped before.
pub proof fn lemma_shadowing(m: MgrView, e: EntryView, a: int)
    ensures
        ({
            let m2 = MgrView { entries: m.entries.insert(0, e), ..m };
            mgr_read(m2, a) == if entry_covers(e, a) {
                region_byte(e.region, a - e.base)
            } else {
                mgr_read(m, a)
            }
        }),
{
    let ents = m.entries.insert(0, e);
    assert(ents[0] == e);
    assert(ents.drop_first() =~= m.entries);
    if !entry_covers(e, a) {
        lemma_find_entry_covers(m.entries, a);
        let rest = find_entry(m.entries, a);
        if rest >= 0 {
            assert(ents[rest + 1] == m.entries[rest]);
        }
    }
}

/// A 16-bit word written to two adjacent RAM-backed addresses reads back
/// unchanged, whatever the configured byte order.
pub proof fn lemma_word_write_read(m: MgrView, a: int, w: u16)
    requires
        backed_by_ram(m, a),
        backed_by_ram(m, a + 1),
    ensures
        mgr_read_word(mgr_write_word(m, a, w), a) == w,
{
    let x = first_byte(w, m.endian);
    let y = second_byte(w, m.endian);
    let m1 = mgr_write(m, a, x);
    let m2 = mgr_write(m1, a + 1, y);
    lemma_write_preserves_backing(m, a, x, a + 1);
    lemma_ram_read_back(m, a, x);
    lemma_write_frame(m1, a, a + 1, y);
    lemma_ram_read_back(m1, a + 1, y);
    assert(mgr_read(m2, a) == x);
    assert(mgr_read(m2, a + 1) == y);
    assert(m2.endian == m.endian);
    vstd::arithmetic::div_mod::lemma_fundamental_div_mod(w as int, 256);
    assert(word_from(x, y, m.endian) == w);
}

} // verus!
