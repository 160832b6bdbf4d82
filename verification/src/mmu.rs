//! The memory-management unit: owner of all addressable storage and of the
//! one address decode that every read and write goes through.

use vstd::prelude::*;

verus! {

/// Number of bytes of work RAM.
pub const WRAM_SIZE: usize = 0x2000;

/// Number of bytes of high RAM.
pub const HRAM_SIZE: usize = 0x7F;

/// What an address selects, with the offset inside the region.
#[derive(Clone, Copy, Debug, PartialEq, Eq, Structural)]
pub enum Cell {
    /// A byte of the ROM image, 0x0000 to 0x7FFF.
    Rom(u16),
    /// A byte of work RAM, reached from 0xC000 to 0xDFFF and again from
    /// 0xE000 to 0xFDFF.
    WorkRam(u16),
    /// A byte of high RAM, 0xFF80 to 0xFFFE.
    HighRam(u16),
    /// The interrupt-enable register at 0xFFFF.
    InterruptEnable,
    /// The interrupt-flag register at 0xFF0F.
    InterruptFlag,
    /// Nothing.
    Unmapped,
}

/// The address decode.
pub open spec fn spec_locate(addr: u16) -> Cell {
    if addr < 0x8000 {
        Cell::Rom(addr)
    } else if 0xC000 <= addr < 0xE000 {
        Cell::WorkRam((addr - 0xC000) as u16)
    } else if 0xE000 <= addr < 0xFE00 {
        Cell::WorkRam((addr - 0xE000) as u16)
    } else if 0xFF80 <= addr < 0xFFFF {
        Cell::HighRam((addr - 0xFF80) as u16)
    } else if addr == 0xFFFF {
        Cell::InterruptEnable
    } else if addr == 0xFF0F {
        Cell::InterruptFlag
    } else {
        Cell::Unmapped
    }
}

/// The contents of the address space, region by region.
#[verifier::ext_equal]
pub struct Memory {
    /// The ROM image, of any length.
    pub rom: Seq<u8>,
    /// Work RAM.
    pub wram: Seq<u8>,
    /// High RAM.
    pub hram: Seq<u8>,
    /// The interrupt-enable register.
    pub ie: u8,
    /// The interrupt-flag register.
    pub iflag: u8,
}

/// A RAM region of `size` bytes after a write: the byte at offset `k` is
/// `value`, every other byte is as in `ram`.
pub open spec fn put(ram: Seq<u8>, size: nat, k: u16, value: u8) -> Seq<u8> {
    Seq::new(size, |i: int| if i == k { value } else { ram[i] })
}

impl Memory {
    /// Both RAM regions have their fixed size.
    pub open spec fn wf(self) -> bool {
        self.wram.len() == WRAM_SIZE && self.hram.len() == HRAM_SIZE
    }

    /// The memory at start-up: the given ROM image, everything else zero.
    pub open spec fn power_on(rom: Seq<u8>) -> Memory {
        Memory {
            rom,
            wram: Seq::new(WRAM_SIZE as nat, |i: int| 0u8),
            hram: Seq::new(HRAM_SIZE as nat, |i: int| 0u8),
            ie: 0,
            iflag: 0,
        }
    }

    /// Whether a read of `addr` reaches storage. An address of the ROM
    /// range beyond the end of the image reaches none.
    pub open spec fn readable(self, addr: u16) -> bool {
        match spec_locate(addr) {
            Cell::Rom(k) => k < self.rom.len(),
            Cell::Unmapped => false,
            _ => true,
        }
    }

    /// Whether a write to `addr` reaches storage.
    pub open spec fn writable(addr: u16) -> bool {
        match spec_locate(addr) {
            Cell::Rom(_) => false,
            Cell::Unmapped => false,
            _ => true,
        }
    }

    /// The byte that a read of `addr` returns: the stored byte, or 0xFF
    /// where the address reaches no storage.
    pub open spec fn read(self, addr: u16) -> u8 {
        match spec_locate(addr) {
            Cell::Rom(k) => if k < self.rom.len() {
                self.rom[k as int]
            } else {
                0xFF
            },
            Cell::WorkRam(k) => self.wram[k as int],
            Cell::HighRam(k) => self.hram[k as int],
            Cell::InterruptEnable => self.ie,
            Cell::InterruptFlag => self.iflag,
            Cell::Unmapped => 0xFF,
        }
    }

    /// The memory after a write of `value` to `addr`: the selected cell
    /// holds the value; a write to ROM or to unmapped space changes nothing.
    pub open spec fn write(self, addr: u16, value: u8) -> Memory {
        match spec_locate(addr) {
            Cell::Rom(_) => self,
            Cell::WorkRam(k) => Memory { wram: put(self.wram, WRAM_SIZE as nat, k, value), ..self },
            Cell::HighRam(k) => Memory { hram: put(self.hram, HRAM_SIZE as nat, k, value), ..self },
            Cell::InterruptEnable => Memory { ie: value, ..self },
            Cell::InterruptFlag => Memory { iflag: value, ..self },
            Cell::Unmapped => self,
        }
    }
}

/// The memory-management unit.
pub struct MMU {
    rom: Vec<u8>,
    wram: [u8; 0x2000],
    hram: [u8; 0x7F],
    ie: u8,
    interrupt_flag: u8,
}

impl View for MMU {
    type V = Memory;

    closed spec fn view(&self) -> Memory {
        Memory {
            rom: self.rom@,
            wram: self.wram@,
            hram: self.hram@,
            ie: self.ie,
            iflag: self.interrupt_flag,
        }
    }
}

/// Decodes an address.
#[verifier::when_used_as_spec(spec_locate)]
pub fn locate(addr: u16) -> (cell: Cell)
    ensures
        cell == spec_locate(addr),
{
    if addr <= 0x7FFF {
        Cell::Rom(addr)
    } else if 0xC000 <= addr && addr <= 0xDFFF {
        Cell::WorkRam(addr - 0xC000)
    } else if 0xE000 <= addr && addr <= 0xFDFF {
        Cell::WorkRam(addr - 0xE000)
    } else if 0xFF80 <= addr && addr <= 0xFFFE {
        Cell::HighRam(addr - 0xFF80)
    } else if addr == 0xFFFF {
        Cell::InterruptEnable
    } else if addr == 0xFF0F {
        Cell::InterruptFlag
    } else {
        Cell::Unmapped
    }
}

impl MMU {
    /// Every unit's RAM regions have their fixed size.
    pub proof fn lemma_wf(&self)
        ensures
            self@.wf(),
    {
    }

    /// A unit with `rom_data` as its ROM image and all RAM and both
    /// hardware registers zero.
    pub fn new(rom_data: Vec<u8>) -> (mmu: Self)
        ensures
            mmu@ == Memory::power_on(rom_data@),
    {
        let mmu = Self { rom: rom_data, wram: [0; 0x2000], hram: [0; 0x7F], ie: 0, interrupt_flag: 0 };
        assert(mmu.wram@ =~= Seq::new(WRAM_SIZE as nat, |i: int| 0u8));
        assert(mmu.hram@ =~= Seq::new(HRAM_SIZE as nat, |i: int| 0u8));
        mmu
    }

    /// Whether a read of `addr` reaches storage; where it does not, the
    /// read returns 0xFF and is worth a diagnostic.
    pub fn is_readable(&self, addr: u16) -> (yes: bool)
        ensures
            yes == self@.readable(addr),
    {
        match locate(addr) {
            Cell::Rom(k) => (k as usize) < self.rom.len(),
            Cell::Unmapped => false,
            _ => true,
        }
    }

    /// Whether a write to `addr` reaches storage; where it does not, the
    /// write is dropped and is worth a diagnostic.
    pub fn is_writable(&self, addr: u16) -> (yes: bool)
        ensures
            yes == Memory::writable(addr),
    {
        match locate(addr) {
            Cell::Rom(_) => false,
            Cell::Unmapped => false,
            _ => true,
        }
    }

    /// Reads the byte at `addr`. Never fails.
    pub fn read_byte(&self, addr: u16) -> (value: u8)
        ensures
            value == self@.read(addr),
    {
        match locate(addr) {
            Cell::Rom(k) => if (k as usize) < self.rom.len() {
                self.rom[k as usize]
            } else {
                0xFF
            },
            Cell::WorkRam(k) => self.wram[k as usize],
            Cell::HighRam(k) => self.hram[k as usize],
            Cell::InterruptEnable => self.ie,
            Cell::InterruptFlag => self.interrupt_flag,
            Cell::Unmapped => 0xFF,
        }
    }

    /// Writes `value` to `addr`. Never fails: a write that reaches no
    /// writable storage is dropped.
    pub fn write_byte(&mut self, addr: u16, value: u8)
        ensures
            final(self)@ == old(self)@.write(addr, value),
            final(self)@.wf(),
    {
        match locate(addr) {
            Cell::Rom(_) => {},
            Cell::WorkRam(k) => {
                self.wram[k as usize] = value;
                assert(self.wram@ =~= put(old(self).wram@, WRAM_SIZE as nat, k, value));
            },
            Cell::HighRam(k) => {
                self.hram[k as usize] = value;
                assert(self.hram@ =~= put(old(self).hram@, HRAM_SIZE as nat, k, value));
            },
            Cell::InterruptEnable => {
                self.ie = value;
            },
            Cell::InterruptFlag => {
                self.interrupt_flag = value;
            },
            Cell::Unmapped => {},
        }
    }
}

/// Work RAM and its mirror are one storage: for every offset `k` below
/// 0x1E00, the addresses 0xC000 + k and 0xE000 + k always read the same
/// byte, and a write through either is read back through both.
pub proof fn lemma_mirror(m: Memory, k: u16, value: u8)
    requires
        k < 0x1E00,
    ensures
        m.read((0xC000 + k) as u16) == m.read((0xE000 + k) as u16),
        m.write((0xC000 + k) as u16, value).read((0xE000 + k) as u16) == value,
        m.write((0xC000 + k) as u16, value).read((0xC000 + k) as u16) == value,
        m.write((0xE000 + k) as u16, value).read((0xC000 + k) as u16) == value,
        m.write((0xE000 + k) as u16, value).read((0xE000 + k) as u16) == value,
        m.write((0xC000 + k) as u16, value) == m.write((0xE000 + k) as u16, value),
{
}

/// A write to a writable address is read back there and leaves the RAM
/// regions at their size; a write to any other address changes nothing.
/// Either way the ROM image stays as it was.
pub proof fn lemma_write_then_read(m: Memory, addr: u16, value: u8)
    ensures
        Memory::writable(addr) ==> m.write(addr, value).read(addr) == value,
        !Memory::writable(addr) ==> m.write(addr, value) == m,
        m.wf() ==> m.write(addr, value).wf(),
        m.write(addr, value).rom == m.rom,
        m.write(addr, value).readable(addr) == m.readable(addr),
{
}

/// A write changes what is read only at the address written and at the
/// other address of the same work-RAM byte.
pub proof fn lemma_write_elsewhere(m: Memory, addr: u16, value: u8, other: u16)
    requires
        spec_locate(other) != spec_locate(addr),
    ensures
        m.write(addr, value).read(other) == m.read(other),
{
}

} // verus!
