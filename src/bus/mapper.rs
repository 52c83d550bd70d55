use vstd::prelude::*;
use crate::bus::ppu_bus::PPUBus;
use crate::bus::utils::{horizontal_index, mirror_namespace, vertical_index};
use crate::ppu::memory::PPUMemory;

verus! {

/// Why a cartridge image was refused.
#[derive(Clone, Copy, PartialEq, Eq, Structural, Debug)]
pub enum LoadError {
    /// The magic number is wrong, or the sizes fit no supported board.
    InvalidHeader,
    /// The image is shorter than its header says.
    TruncatedImage,
    /// The header names a mapper other than NROM.
    UnsupportedMapper,
}

/// Where PRG ROM starts: after the header and the optional 512-byte trainer.
pub open spec fn ines_offset(b: Seq<u8>) -> int {
    16 + if b[6] & 4 != 0 { 512int } else { 0int }
}

pub open spec fn ines_prg_size(b: Seq<u8>) -> int {
    0x4000 * b[4] as int
}

pub open spec fn ines_chr_size(b: Seq<u8>) -> int {
    0x2000 * b[5] as int
}

/// The error an iNES image is refused with, if any.
pub open spec fn ines_error(b: Seq<u8>) -> Option<LoadError> {
    if b.len() < 16 {
        Some(LoadError::TruncatedImage)
    } else if b[0] != 0x4E || b[1] != 0x45 || b[2] != 0x53 || b[3] != 0x1A {
        Some(LoadError::InvalidHeader)
    } else if (b[6] >> 4u8) | (b[7] & 0xF0) != 0 {
        Some(LoadError::UnsupportedMapper)
    } else if b.len() < ines_offset(b) + ines_prg_size(b) + ines_chr_size(b) {
        Some(LoadError::TruncatedImage)
    } else if !(b[4] == 1 || b[4] == 2) || b[5] > 1 {
        Some(LoadError::InvalidHeader)
    } else {
        None
    }
}

/// NROM: 16 or 32 KiB of PRG ROM (the smaller mirrored), optional PRG RAM,
/// and 8 KiB of CHR ROM (or CHR RAM).
pub struct Mapper00 {
    pub horizontal_mirror: bool,
    pub prg_rom: Vec<u8>,
    pub chr_rom: Vec<u8>,
    pub chr_ram: bool,
    pub prg_ram: Vec<u8>,
}

impl Mapper00 {
    pub open spec fn wf(&self) -> bool {
        &&& (self.prg_rom@.len() == 0x4000 || self.prg_rom@.len() == 0x8000)
        &&& self.chr_rom@.len() == 0x2000
        &&& (self.prg_ram@.len() == 0 || self.prg_ram@.len() == 0x800 || self.prg_ram@.len() == 0x1000)
    }

    /// A board from its ROMs; an empty CHR ROM means 8 KiB of CHR RAM.
    pub fn new(horizontal_mirror: bool, prg_rom: Vec<u8>, chr_rom: Vec<u8>, prg_ram_size: usize) -> (r: Result<Self, LoadError>)
        ensures
            r.is_ok() <==> ((prg_rom@.len() == 0x4000 || prg_rom@.len() == 0x8000)
                && (chr_rom@.len() == 0x2000 || chr_rom@.len() == 0)
                && (prg_ram_size == 0 || prg_ram_size == 0x800 || prg_ram_size == 0x1000)),
            r is Err ==> r == Err::<Self, LoadError>(LoadError::InvalidHeader),
            r matches Ok(m) ==> {
                &&& m.wf()
                &&& m.horizontal_mirror == horizontal_mirror
                &&& m.prg_rom@ == prg_rom@
                &&& m.prg_ram@.len() == prg_ram_size
                &&& m.chr_ram == (chr_rom@.len() == 0)
                &&& chr_rom@.len() == 0x2000 ==> m.chr_rom@ == chr_rom@
            },
    {
        if !(prg_rom.len() == 0x4000 || prg_rom.len() == 0x8000) {
            return Err(LoadError::InvalidHeader);
        }
        if !(chr_rom.len() == 0x2000 || chr_rom.len() == 0) {
            return Err(LoadError::InvalidHeader);
        }
        if !(prg_ram_size == 0 || prg_ram_size == 0x800 || prg_ram_size == 0x1000) {
            return Err(LoadError::InvalidHeader);
        }
        let chr_ram = chr_rom.len() == 0;
        let chr = if chr_ram { vec![0u8; 0x2000] } else { chr_rom };
        Ok(Mapper00 { horizontal_mirror, prg_rom, chr_rom: chr, chr_ram, prg_ram: vec![0u8; prg_ram_size] })
    }

    /// A CPU read at 0x4020 and above; `None` where nothing answers.
    pub fn cpu_read(&self, address: u16) -> (r: Option<u8>)
        requires
            self.wf(),
        ensures
            address >= 0x8000 ==> r == Some(self.prg_rom@[(address - 0x8000) % self.prg_rom@.len() as int]),
            0x6000 <= address < 0x8000 && self.prg_ram@.len() > 0 ==> r == Some(self.prg_ram@[(address - 0x6000) % self.prg_ram@.len() as int]),
            0x6000 <= address < 0x8000 && self.prg_ram@.len() == 0 ==> r.is_none(),
            address < 0x6000 ==> r.is_none(),
    {
        if address >= 0x8000 {
            Some(self.prg_rom[((address - 0x8000) as usize) % self.prg_rom.len()])
        } else if address >= 0x6000 && self.prg_ram.len() > 0 {
            Some(self.prg_ram[((address - 0x6000) as usize) % self.prg_ram.len()])
        } else {
            None
        }
    }

    /// A CPU write at 0x4020 and above: only PRG RAM takes it.
    pub fn cpu_write(&mut self, address: u16, value: u8)
        requires
            old(self).wf(),
        ensures
            final(self).wf(),
            final(self).prg_rom == old(self).prg_rom,
            final(self).chr_rom == old(self).chr_rom,
            final(self).chr_ram == old(self).chr_ram,
            final(self).horizontal_mirror == old(self).horizontal_mirror,
            0x6000 <= address < 0x8000 && old(self).prg_ram@.len() > 0
                ==> final(self).prg_ram@ == old(self).prg_ram@.update((address - 0x6000) % old(self).prg_ram@.len() as int, value),
            !(0x6000 <= address < 0x8000) || old(self).prg_ram@.len() == 0 ==> final(self).prg_ram == old(self).prg_ram,
    {
        if address >= 0x6000 && address < 0x8000 && self.prg_ram.len() > 0 {
            let index = ((address - 0x6000) as usize) % self.prg_ram.len();
            self.prg_ram.set(index, value);
        }
    }

    /// A PGU read of the pattern tables.
    pub fn ppu_read(&self, address: u16) -> (r: u8)
        requires
            self.wf(),
            address < 0x2000,
        ensures
            r == self.chr_rom@[address as int],
    {
        self.chr_rom[address as usize]
    }

    /// A PGU write of the pattern tables: only CHR RAM takes it.
    pub fn ppu_write(&mut self, address: u16, value: u8)
        requires
            old(self).wf(),
            address < 0x2000,
        ensures
            final(self).wf(),
            final(self).prg_rom == old(self).prg_rom && final(self).prg_ram == old(self).prg_ram,
            final(self).horizontal_mirror == old(self).horizontal_mirror,
            final(self).chr_ram == old(self).chr_ram,
            old(self).chr_ram ==> final(self).chr_rom@ == old(self).chr_rom@.update(address as int, value),
            !old(self).chr_ram ==> final(self).chr_rom == old(self).chr_rom,
    {
        if self.chr_ram {
            self.chr_rom.set(address as usize, value);
        }
    }

    /// The nametable-RAM address that PGU address `address` reaches.
    pub fn nametable_address(&self, address: u16) -> (r: u16)
        ensures
            r == 0x2000 + if self.horizontal_mirror { horizontal_index(address) } else { vertical_index(address) },
            0x2000 <= r < 0x2800,
    {
        mirror_namespace(address, self.horizontal_mirror, !self.horizontal_mirror)
    }
}

/// The cartridge boards this console knows, one variant per board.
pub enum Mapper {
    NROM(Mapper00),
}

impl Mapper {
    pub open spec fn wf(&self) -> bool {
        match self {
            Mapper::NROM(m) => m.wf(),
        }
    }

    pub fn cpu_read(&self, address: u16) -> (r: Option<u8>)
        requires
            self.wf(),
        ensures
            match self {
                Mapper::NROM(m) => address >= 0x8000 ==> r == Some(m.prg_rom@[(address - 0x8000) % m.prg_rom@.len() as int]),
            },
    {
        match self {
            Mapper::NROM(m) => m.cpu_read(address),
        }
    }

    pub fn cpu_write(&mut self, address: u16, value: u8)
        requires
            old(self).wf(),
        ensures
            final(self).wf(),
            match (*old(self), *final(self)) {
                (Mapper::NROM(m), Mapper::NROM(n)) => {
                    &&& n.prg_rom == m.prg_rom && n.chr_rom == m.chr_rom && n.chr_ram == m.chr_ram
                    &&& n.horizontal_mirror == m.horizontal_mirror
                    &&& 0x6000 <= address < 0x8000 && m.prg_ram@.len() > 0
                        ==> n.prg_ram@ == m.prg_ram@.update((address - 0x6000) % m.prg_ram@.len() as int, value)
                    &&& !(0x6000 <= address < 0x8000) || m.prg_ram@.len() == 0 ==> n.prg_ram == m.prg_ram
                },
            },
    {
        match self {
            Mapper::NROM(m) => m.cpu_write(address, value),
        }
    }

    pub fn ppu_read(&self, address: u16) -> (r: u8)
        requires
            self.wf(),
            address < 0x2000,
        ensures
            match self {
                Mapper::NROM(m) => r == m.chr_rom@[address as int],
            },
    {
        match self {
            Mapper::NROM(m) => m.ppu_read(address),
        }
    }

    pub fn ppu_write(&mut self, address: u16, value: u8)
        requires
            old(self).wf(),
            address < 0x2000,
        ensures
            final(self).wf(),
            match (*old(self), *final(self)) {
                (Mapper::NROM(m), Mapper::NROM(n)) => {
                    &&& n.prg_rom == m.prg_rom && n.prg_ram == m.prg_ram && n.chr_ram == m.chr_ram
                    &&& n.horizontal_mirror == m.horizontal_mirror
                    &&& m.chr_ram ==> n.chr_rom@ == m.chr_rom@.update(address as int, value)
                    &&& !m.chr_ram ==> n.chr_rom == m.chr_rom
                },
            },
    {
        match self {
            Mapper::NROM(m) => m.ppu_write(address, value),
        }
    }

    pub fn nametable_address(&self, address: u16) -> (r: u16)
        ensures
            0x2000 <= r < 0x2800,
            match self {
                Mapper::NROM(m) => r == 0x2000 + if m.horizontal_mirror { horizontal_index(address) } else { vertical_index(address) },
            },
    {
        match self {
            Mapper::NROM(m) => m.nametable_address(address),
        }
    }
}

/// `len` bytes of `binary` from `start`.
fn copy_range(binary: &[u8], start: usize, len: usize) -> (r: Vec<u8>)
    requires
        start + len <= binary@.len(),
    ensures
        r@ == binary@.subrange(start as int, start + len),
{
    let mut out: Vec<u8> = Vec::new();
    let mut i: usize = 0;
    let n = binary.len();
    while i < len
        invariant
            n == binary@.len(),
            i <= len,
            start + len <= binary@.len(),
            out@ == binary@.subrange(start as int, start + i),
        decreases len - i,
    {
        out.push(binary[start + i]);
        i = i + 1;
        assert(out@ =~= binary@.subrange(start as int, start + i));
    }
    out
}

/// Reads an iNES image: the 16-byte header, an optional trainer, PRG ROM
/// and CHR ROM.
pub fn from_ines(binary: &[u8]) -> (r: Result<Mapper, LoadError>)
    ensures
        match ines_error(binary@) {
            Some(e) => r == Err::<Mapper, LoadError>(e),
            None => r matches Ok(Mapper::NROM(m)) && {
                let b = binary@;
                let off = ines_offset(b);
                let prg = ines_prg_size(b);
                &&& m.wf()
                &&& m.horizontal_mirror == (b[6] & 1 == 0)
                &&& m.prg_rom@ == b.subrange(off, off + prg)
                &&& m.chr_ram == (b[5] == 0)
                &&& b[5] == 1 ==> m.chr_rom@ == b.subrange(off + prg, off + prg + 0x2000)
                &&& m.prg_ram@.len() == 0
            },
        },
{
    if binary.len() < 16 {
        return Err(LoadError::TruncatedImage);
    }
    if binary[0] != 0x4E || binary[1] != 0x45 || binary[2] != 0x53 || binary[3] != 0x1A {
        return Err(LoadError::InvalidHeader);
    }
    if (binary[6] >> 4u8) | (binary[7] & 0xF0) != 0 {
        return Err(LoadError::UnsupportedMapper);
    }
    let offset: usize = 16 + if binary[6] & 4 != 0 { 512 } else { 0 };
    let prg_size: usize = 0x4000 * binary[4] as usize;
    let chr_size: usize = 0x2000 * binary[5] as usize;
    if binary.len() < offset + prg_size + chr_size {
        return Err(LoadError::TruncatedImage);
    }
    if !(binary[4] == 1 || binary[4] == 2) || binary[5] > 1 {
        return Err(LoadError::InvalidHeader);
    }
    let prg = copy_range(binary, offset, prg_size);
    let chr = copy_range(binary, offset + prg_size, chr_size);
    let horizontal_mirror = binary[6] & 1 == 0;
    match Mapper00::new(horizontal_mirror, prg, chr, 0) {
        Ok(m) => Ok(Mapper::NROM(m)),
        Err(e) => Err(e),
    }
}

/// The PGU's address space: pattern tables on the cartridge, nametables in
/// console RAM through the cartridge's mirroring.
pub struct PPUMemoryMap {
    pub mapper: Mapper,
    pub bus: PPUBus,
}

impl PPUMemoryMap {
    pub open spec fn wf(&self) -> bool {
        self.mapper.wf() && self.bus.wf()
    }

    /// The byte at PGU address `address` (taken modulo 0x4000): pattern
    /// tables from the cartridge, nametables from RAM through its mirroring.
    pub open spec fn vram_byte(&self, address: u16) -> u8 {
        let a = (address % 0x4000) as u16;
        match self.mapper {
            Mapper::NROM(m) => if a < 0x2000 {
                m.chr_rom@[a as int]
            } else {
                self.bus.vram@[if m.horizontal_mirror { horizontal_index(a) } else { vertical_index(a) }]
            },
        }
    }

    pub fn new(mapper: Mapper, bus: PPUBus) -> (r: Self)
        requires
            mapper.wf(),
            bus.wf(),
        ensures
            r.wf(),
            r.mapper == mapper,
            r.bus == bus,
    {
        PPUMemoryMap { mapper, bus }
    }

    /// The byte at PGU address `address` (taken modulo 0x4000).
    pub fn read_vram(&self, address: u16) -> (r: u8)
        requires
            self.wf(),
        ensures
            r == self.vram_byte(address),
            address % 0x4000 < 0x2000 ==> match self.mapper {
                Mapper::NROM(m) => r == m.chr_rom@[(address % 0x4000) as int],
            },
            address % 0x4000 >= 0x2000 ==> match self.mapper {
                Mapper::NROM(m) => r == self.bus.vram@[if m.horizontal_mirror { horizontal_index(address % 0x4000) } else { vertical_index(address % 0x4000) }],
            },
    {
        let a = address % 0x4000;
        if a < 0x2000 {
            self.mapper.ppu_read(a)
        } else {
            self.bus.read(self.mapper.nametable_address(a))
        }
    }

    /// Writes the byte at PGU address `address` (taken modulo 0x4000).
    pub fn write_vram(&mut self, address: u16, value: u8)
        requires
            old(self).wf(),
        ensures
            final(self).wf(),
            address % 0x4000 >= 0x2000 ==> final(self).mapper == old(self).mapper,
            address % 0x4000 >= 0x2000 ==> match old(self).mapper {
                Mapper::NROM(m) => final(self).bus.vram@ == old(self).bus.vram@.update(
                    if m.horizontal_mirror { horizontal_index(address % 0x4000) } else { vertical_index(address % 0x4000) }, value),
            },
    {
        let a = address % 0x4000;
        if a < 0x2000 {
            self.mapper.ppu_write(a, value);
        } else {
            let target = self.mapper.nametable_address(a);
            self.bus.write(target, value);
        }
    }
}

impl PPUMemory for PPUMemoryMap {
    open spec fn inv(&self) -> bool {
        self.wf()
    }

    open spec fn byte_at(&self, address: u16) -> u8 {
        self.vram_byte(address)
    }

    fn read(&mut self, address: u16) -> (r: u8) {
        self.read_vram(address)
    }

    fn write(&mut self, address: u16, value: u8) {
        self.write_vram(address, value)
    }
}

} // verus!
