//! The 16-bit address space: disjoint backing stores and the routing of an
//! address to its store.

use vstd::prelude::*;
use crate::helper::{combine_u8_to_u16, high_byte, low_byte, split_u16, word_of};

verus! {

/// Size of the first memory bank, in bytes: the stack pointer starts
/// fourteen bytes under its end.
pub const MEM_SIZE: usize = 16 * 1024;

/// Size of one bank, in bytes.
pub const BANK_SIZE: usize = 16 * 1024;

/// Bytes in the boot store.
pub const BOOT_SIZE: usize = BANK_SIZE / 64;

/// Bytes in the cartridge store.
pub const ROM_SIZE: usize = BANK_SIZE;

/// Bytes in the external RAM store, and in the working RAM store.
pub const RAM_SIZE: usize = BANK_SIZE / 2;

/// Bytes in the high RAM store.
pub const ZRAM_SIZE: usize = BANK_SIZE / 128;

/// The store that an address is routed to.
#[derive(Clone, Copy, Debug, PartialEq, Eq, Structural)]
pub enum Region {
    /// 0x0000 to 0x00FF.
    Boot,
    /// 0x0100 to 0x3FFF.
    Rom,
    /// 0x8000 to 0x9FFF: nothing is stored; reads give zero.
    Video,
    /// 0xA000 to 0xBFFF.
    ExternalRam,
    /// 0xC000 to 0xFDFF: working RAM and its echo.
    WorkingRam,
    /// 0xFF80 to 0xFFFF.
    HighRam,
    /// Every other address: nothing is stored; reads give zero.
    Unmapped,
}

/// The routing table: each address belongs to exactly one region.
pub open spec fn region_of(addr: u16) -> Region {
    if addr <= 0x00FF {
        Region::Boot
    } else if addr <= 0x3FFF {
        Region::Rom
    } else if 0x8000 <= addr <= 0x9FFF {
        Region::Video
    } else if 0xA000 <= addr <= 0xBFFF {
        Region::ExternalRam
    } else if 0xC000 <= addr <= 0xFDFF {
        Region::WorkingRam
    } else if 0xFF80 <= addr {
        Region::HighRam
    } else {
        Region::Unmapped
    }
}

/// The place of an address inside its store. The echo of working RAM, from
/// 0xE000 on, falls on the cells of 0xC000 on.
pub open spec fn offset_of(addr: u16) -> int {
    match region_of(addr) {
        Region::Boot | Region::Rom => addr as int,
        Region::ExternalRam => addr - 0xA000,
        Region::WorkingRam => (addr - 0xC000) % 0x2000,
        Region::HighRam => addr - 0xFF80,
        Region::Video | Region::Unmapped => 0,
    }
}

/// What the address space holds: the bytes of each store and whether the boot
/// store is mapped in.
pub struct MemoryView {
    pub boot_active: bool,
    pub boot: Seq<u8>,
    pub rom: Seq<u8>,
    pub eram: Seq<u8>,
    pub wram: Seq<u8>,
    pub zram: Seq<u8>,
}

impl MemoryView {
    /// Each store has its fixed size.
    pub open spec fn wf(self) -> bool {
        &&& self.boot.len() == BOOT_SIZE
        &&& self.rom.len() == ROM_SIZE
        &&& self.eram.len() == RAM_SIZE
        &&& self.wram.len() == RAM_SIZE
        &&& self.zram.len() == ZRAM_SIZE
    }

    /// The address space after construction: every store zeroed, the boot
    /// store mapped in.
    pub open spec fn zeroed() -> MemoryView {
        MemoryView {
            boot_active: true,
            boot: Seq::new(BOOT_SIZE as nat, |i: int| 0u8),
            rom: Seq::new(ROM_SIZE as nat, |i: int| 0u8),
            eram: Seq::new(RAM_SIZE as nat, |i: int| 0u8),
            wram: Seq::new(RAM_SIZE as nat, |i: int| 0u8),
            zram: Seq::new(ZRAM_SIZE as nat, |i: int| 0u8),
        }
    }

    /// Whether a byte is stored behind `addr`. Nothing is stored behind the
    /// video range and the unmapped addresses.
    pub open spec fn stored(self, addr: u16) -> bool {
        region_of(addr) != Region::Video && region_of(addr) != Region::Unmapped
    }

    /// Whether `a` and `b` name one and the same stored byte: they lie in one
    /// region, at one offset. Only an address of working RAM and its echo
    /// are two names for one byte.
    pub open spec fn same_cell(self, a: u16, b: u16) -> bool {
        &&& self.stored(a)
        &&& self.stored(b)
        &&& region_of(a) == region_of(b)
        &&& offset_of(a) == offset_of(b)
    }

    /// The byte read at `addr`. While the boot store is mapped out, its range
    /// shows the start of the cartridge store.
    pub open spec fn read(self, addr: u16) -> u8 {
        match region_of(addr) {
            Region::Boot => if self.boot_active {
                self.boot[offset_of(addr)]
            } else {
                self.rom[offset_of(addr)]
            },
            Region::Rom => self.rom[offset_of(addr)],
            Region::ExternalRam => self.eram[offset_of(addr)],
            Region::WorkingRam => self.wram[offset_of(addr)],
            Region::HighRam => self.zram[offset_of(addr)],
            Region::Video | Region::Unmapped => 0,
        }
    }

    /// The address space after `byte` was written at `addr`: one cell of one
    /// store changes, or nothing where nothing is stored.
    pub open spec fn write(self, addr: u16, byte: u8) -> MemoryView {
        match region_of(addr) {
            Region::Boot => if self.boot_active {
                MemoryView { boot: self.boot.update(offset_of(addr), byte), ..self }
            } else {
                MemoryView { rom: self.rom.update(offset_of(addr), byte), ..self }
            },
            Region::Rom => MemoryView { rom: self.rom.update(offset_of(addr), byte), ..self },
            Region::ExternalRam => MemoryView {
                eram: self.eram.update(offset_of(addr), byte),
                ..self
            },
            Region::WorkingRam => MemoryView {
                wram: self.wram.update(offset_of(addr), byte),
                ..self
            },
            Region::HighRam => MemoryView { zram: self.zram.update(offset_of(addr), byte), ..self },
            Region::Video | Region::Unmapped => self,
        }
    }

    /// The address that follows `addr`; the one after 0xFFFF is 0x0000.
    pub open spec fn next(addr: u16) -> u16 {
        if addr == 0xFFFF {
            0
        } else {
            (addr + 1) as u16
        }
    }

    /// The word read at `addr`: high byte at `addr`, low byte at the next
    /// address.
    pub open spec fn read_word(self, addr: u16) -> u16 {
        word_of(self.read(addr), self.read(Self::next(addr)))
    }

    /// The address space after `word` was written at `addr`: high byte at
    /// `addr`, then low byte at the next address.
    pub open spec fn write_word(self, addr: u16, word: u16) -> MemoryView {
        self.write(addr, high_byte(word)).write(Self::next(addr), low_byte(word))
    }
}

/// The store and offset that `location` is routed to.
fn route(location: u16) -> (r: (Region, usize))
    ensures
        r.0 == region_of(location),
        r.1 == offset_of(location),
{
    match location {
        0x0000..=0x00FF => (Region::Boot, location as usize),
        0x0100..=0x3FFF => (Region::Rom, location as usize),
        0x8000..=0x9FFF => (Region::Video, 0),
        0xA000..=0xBFFF => (Region::ExternalRam, (location - 0xA000) as usize),
        0xC000..=0xFDFF => {
            let offset: u16 = location - 0xC000;
            assert(offset & 0x1FFF == offset % 0x2000) by (bit_vector);
            (Region::WorkingRam, (offset & 0x1FFF) as usize)
        },
        0xFF80..=0xFFFF => (Region::HighRam, (location - 0xFF80) as usize),
        _ => (Region::Unmapped, 0),
    }
}

/// The address space: one backing store for each mapped region.
pub struct Memory {
    boot_active: bool,
    boot: Vec<u8>,
    rom: Vec<u8>,
    eram: Vec<u8>,
    wram: Vec<u8>,
    zram: Vec<u8>,
    scratch: u8,
}

impl View for Memory {
    type V = MemoryView;

    closed spec fn view(&self) -> MemoryView {
        MemoryView {
            boot_active: self.boot_active,
            boot: self.boot@,
            rom: self.rom@,
            eram: self.eram@,
            wram: self.wram@,
            zram: self.zram@,
        }
    }
}

impl Memory {
    /// Each store has its fixed size.
    pub open spec fn wf(&self) -> bool {
        self@.wf()
    }

    /// A zeroed address space with the boot store mapped in.
    pub fn new() -> (m: Self)
        ensures
            m.wf(),
            m@ == MemoryView::zeroed(),
    {
        let m = Self {
            boot_active: true,
            boot: vec![0u8; BOOT_SIZE],
            rom: vec![0u8; ROM_SIZE],
            eram: vec![0u8; RAM_SIZE],
            wram: vec![0u8; RAM_SIZE],
            zram: vec![0u8; ZRAM_SIZE],
            scratch: 0,
        };
        assert(m@.boot =~= MemoryView::zeroed().boot);
        assert(m@.rom =~= MemoryView::zeroed().rom);
        assert(m@.eram =~= MemoryView::zeroed().eram);
        assert(m@.wram =~= MemoryView::zeroed().wram);
        assert(m@.zram =~= MemoryView::zeroed().zram);
        m
    }

    /// Maps the boot store in or out of the range 0x0000 to 0x00FF.
    pub fn set_boot_active(&mut self, active: bool)
        ensures
            final(self)@ == (MemoryView { boot_active: active, ..old(self)@ }),
    {
        self.boot_active = active;
    }

    /// Whether the boot store is mapped in.
    pub fn boot_active(&self) -> (active: bool)
        ensures
            active == self@.boot_active,
    {
        self.boot_active
    }

    /// Stores `byte` at `location`. A write to the video range or to an
    /// unmapped address is dropped.
    pub fn write_byte(&mut self, location: u16, byte: u8)
        requires
            old(self).wf(),
        ensures
            final(self).wf(),
            final(self)@ == old(self)@.write(location, byte),
    {
        let (region, offset) = route(location);
        match region {
            Region::Boot => {
                if self.boot_active {
                    self.boot[offset] = byte;
                } else {
                    self.rom[offset] = byte;
                }
            },
            Region::Rom => {
                self.rom[offset] = byte;
            },
            Region::ExternalRam => {
                self.eram[offset] = byte;
            },
            Region::WorkingRam => {
                self.wram[offset] = byte;
            },
            Region::HighRam => {
                self.zram[offset] = byte;
            },
            Region::Video | Region::Unmapped => {},
        }
    }

    /// The byte at `location`; zero where nothing is stored. Every address is
    /// answered.
    pub fn read_byte(&self, location: u16) -> (byte: u8)
        requires
            self.wf(),
        ensures
            byte == self@.read(location),
    {
        let (region, offset) = route(location);
        match region {
            Region::Boot => {
                if self.boot_active {
                    self.boot[offset]
                } else {
                    self.rom[offset]
                }
            },
            Region::Rom => self.rom[offset],
            Region::ExternalRam => self.eram[offset],
            Region::WorkingRam => self.wram[offset],
            Region::HighRam => self.zram[offset],
            Region::Video | Region::Unmapped => 0,
        }
    }

    /// The word at `location`, high byte first.
    pub fn read_word(&self, location: u16) -> (word: u16)
        requires
            self.wf(),
        ensures
            word == self@.read_word(location),
    {
        combine_u8_to_u16(self.read_byte(location), self.read_byte(location.wrapping_add(1)))
    }

    /// Stores `word` at `location`, high byte first.
    pub fn write_word(&mut self, location: u16, word: u16)
        requires
            old(self).wf(),
        ensures
            final(self).wf(),
            final(self)@ == old(self)@.write_word(location, word),
    {
        let (first, second) = split_u16(word);
        self.write_byte(location, first);
        self.write_byte(location.wrapping_add(1), second);
    }

    /// An exclusive reference to the byte at `location`, for an instruction
    /// that reads and rewrites a memory operand in one step. Where nothing is
    /// stored the reference shows zero, and what is written through it is
    /// dropped.
    pub fn get_refm_to_byte(&mut self, location: u16) -> (byte: &mut u8)
        requires
            old(self).wf(),
        ensures
            *byte == old(self)@.read(location),
            final(self)@ == old(self)@.write(location, *final(byte)),
            final(self).wf(),
    {
        let (region, offset) = route(location);
        match region {
            Region::Boot => {
                if self.boot_active {
                    &mut self.boot[offset]
                } else {
                    &mut self.rom[offset]
                }
            },
            Region::Rom => &mut self.rom[offset],
            Region::ExternalRam => &mut self.eram[offset],
            Region::WorkingRam => &mut self.wram[offset],
            Region::HighRam => &mut self.zram[offset],
            Region::Video | Region::Unmapped => {
                self.scratch = 0;
                &mut self.scratch
            },
        }
    }
}

/// A write keeps every store at its size.
pub proof fn lemma_write_keeps_wf(s: MemoryView, addr: u16, byte: u8)
    requires
        s.wf(),
    ensures
        s.write(addr, byte).wf(),
        s.write(addr, byte).boot_active == s.boot_active,
{
}

/// After a write at `a`, a read at `b` gives the written byte where `a` and
/// `b` name the same stored byte, and what it gave before everywhere else:
/// no two stores alias.
pub proof fn lemma_read_after_write(s: MemoryView, a: u16, b: u16, byte: u8)
    requires
        s.wf(),
    ensures
        s.write(a, byte).read(b) == if s.same_cell(a, b) {
            byte
        } else {
            s.read(b)
        },
{
}

/// Two addresses name one stored byte only where they are equal, or where
/// one lies in working RAM and the other is its echo, 0x2000 above it.
pub proof fn lemma_same_cell(s: MemoryView, a: u16, b: u16)
    ensures
        s.same_cell(a, b) <==> s.stored(a) && (a == b || (0xC000 <= a <= 0xFDFF && 0xC000 <= b
            <= 0xFDFF && (a - b == 0x2000 || b - a == 0x2000))),
{
}

/// Where nothing is stored, a read gives zero and a write changes nothing.
pub proof fn lemma_nothing_stored(s: MemoryView, addr: u16, byte: u8)
    requires
        !s.stored(addr),
    ensures
        s.read(addr) == 0,
        s.write(addr, byte) == s,
        region_of(addr) == Region::Video || region_of(addr) == Region::Unmapped,
{
}

/// The addresses behind which nothing is stored: the video range, the gap
/// from 0x4000 to 0x7FFF, and the gap from 0xFE00 to 0xFF7F.
pub proof fn lemma_stored_ranges(s: MemoryView, addr: u16)
    ensures
        s.stored(addr) <==> !(0x4000 <= addr <= 0x9FFF || 0xFE00 <= addr <= 0xFF7F),
{
}

/// A word written at `addr` is read back from `addr`, where a byte is stored
/// behind `addr` and behind the address that follows it.
pub proof fn lemma_word_read_after_write(s: MemoryView, addr: u16, word: u16)
    requires
        s.wf(),
        s.stored(addr),
        s.stored(MemoryView::next(addr)),
    ensures
        s.write_word(addr, word).read_word(addr) == word,
{
    let next = MemoryView::next(addr);
    let t = s.write(addr, high_byte(word));
    lemma_write_keeps_wf(s, addr, high_byte(word));
    lemma_read_after_write(t, next, addr, low_byte(word));
    lemma_read_after_write(t, next, next, low_byte(word));
    lemma_read_after_write(s, addr, addr, high_byte(word));
    assert(!t.same_cell(next, addr));
}

} // verus!
