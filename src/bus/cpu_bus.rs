use vstd::prelude::*;
use crate::apu::apu::APU;
use crate::apu::registers::APURegister;
use crate::bus::mapper::{Mapper, PPUMemoryMap};
use crate::bus::ppu_bus::PPUBus;
use crate::controller::controller::Controller;
use crate::cpu::cpu::CPUMemory;
use crate::ppu::ppu::{PPU, PPURegister, palette_index};

verus! {

/// The CPU's address decoder and everything behind it: work RAM, the PGU
/// and APU registers, the pads and the cartridge.
pub struct CPUBus {
    pub ram: Vec<u8>,
    pub ppu: PPU,
    pub apu: APU,
    pub controller_1: Controller,
    pub controller_2: Controller,
    pub memory: PPUMemoryMap,
    pub buffer: u8,
}

impl CPUBus {
    /// Work RAM below 0x2000, PRG ROM from 0x8000.
    pub open spec fn modelled_byte(&self, address: u16) -> u8 {
        if address < 0x2000 {
            self.ram@[(address % 0x800) as int]
        } else {
            match self.memory.mapper {
                Mapper::NROM(m) => m.prg_rom@[(address - 0x8000) % m.prg_rom@.len() as int],
            }
        }
    }

    pub open spec fn wf(&self) -> bool {
        &&& self.ram@.len() == 0x800
        &&& self.ppu.wf()
        &&& self.apu.wf()
        &&& self.memory.wf()
    }

    /// A console with cartridge `mapper`, RAM cleared.
    pub fn new(mapper: Mapper) -> (r: Self)
        requires
            mapper.wf(),
        ensures
            r.wf(),
            r.memory.mapper == mapper,
            forall|i: int| 0 <= i < 0x800 ==> #[trigger] r.ram@[i] == 0,
    {
        CPUBus {
            ram: vec![0u8; 0x800],
            ppu: PPU::new(),
            apu: APU::new(),
            controller_1: Controller::new(),
            controller_2: Controller::new(),
            memory: PPUMemoryMap::new(mapper, PPUBus::new()),
            buffer: 0,
        }
    }

    /// A CPU read. Unmapped addresses answer with the last value on the bus.
    pub fn read(&mut self, address: u16) -> (r: u8)
        requires
            old(self).wf(),
        ensures
            final(self).wf(),
            final(self).buffer == r,
            address < 0x2000 ==> r == old(self).ram@[(address % 0x800) as int] && final(self).ram == old(self).ram,
            address >= 0x8000 ==> match old(self).memory.mapper {
                Mapper::NROM(m) => r == m.prg_rom@[(address - 0x8000) % m.prg_rom@.len() as int],
            },
            0x4018 <= address < 0x4020 ==> r == old(self).buffer && *final(self) == *old(self),
            address < 0x2000 || address >= 0x8000 ==> *final(self) == (CPUBus { buffer: r, ..*old(self) }),
            0x2000 <= address < 0x4000 ==> {
                &&& final(self).apu == old(self).apu
                &&& final(self).controller_1 == old(self).controller_1 && final(self).controller_2 == old(self).controller_2
                &&& address % 8 == 2 ==> r == (old(self).ppu.register.status.0 & 0xE0) | (old(self).ppu.ppu_data_buffer & 0x1F)
                &&& address % 8 == 4 ==> r == if old(self).ppu.foreground.oam_return_ff {
                    0xFF
                } else {
                    old(self).ppu.foreground.sprites.oam_primary.byte(old(self).ppu.register.oam_address as int)
                }
                &&& address % 8 == 7 ==> {
                    let v = old(self).ppu.register.vram_address.0 & 0x3FFF;
                    &&& r == if v >= 0x3F00 { old(self).ppu.palette_ram@[palette_index(v) as int] } else { old(self).ppu.ppu_data_buffer }
                    &&& final(self).ppu.ppu_data_buffer == old(self).memory.vram_byte(v)
                }
                &&& (address % 8 == 0 || address % 8 == 1 || address % 8 == 3 || address % 8 == 5 || address % 8 == 6) ==> r == 0
            },
            address == 0x4014 ==> r == old(self).buffer,
            final(self).ram == old(self).ram,
            final(self).memory == old(self).memory,
    {
        let value = if address < 0x2000 {
            self.ram[(address % 0x800) as usize]
        } else if address < 0x4000 {
            self.ppu.read_register(PPURegister::from_index((address % 8) as u8), &mut self.memory)
        } else if address == 0x4015 {
            self.apu.read_sound_channels_enable()
        } else if address == 0x4016 {
            self.controller_1.read() | (self.buffer & 0xE0)
        } else if address == 0x4017 {
            self.controller_2.read() | (self.buffer & 0xE0)
        } else if address < 0x4020 {
            self.buffer
        } else {
            match self.memory.mapper.cpu_read(address) {
                Some(v) => v,
                None => self.buffer,
            }
        };
        self.buffer = value;
        value
    }

    /// A CPU write. Writes to unmapped addresses are dropped.
    pub fn write(&mut self, address: u16, value: u8)
        requires
            old(self).wf(),
        ensures
            final(self).wf(),
            address < 0x2000 ==> final(self).ram@ == old(self).ram@.update((address % 0x800) as int, value),
            address >= 0x2000 ==> final(self).ram == old(self).ram,
            address == 0x4014 ==> final(self).ppu.dma == Some(value),
            address == 0x4016 ==> final(self).controller_1.strobe == value && final(self).controller_2.strobe == value,
            0x4018 <= address < 0x4020 ==> final(self).ppu == old(self).ppu && final(self).apu == old(self).apu,
            !(0x2000 <= address < 0x4000) ==> match (old(self).memory.mapper, final(self).memory.mapper) {
                (Mapper::NROM(m), Mapper::NROM(n)) => n.prg_rom == m.prg_rom,
            },
    {
        if address < 0x2000 {
            self.ram.set((address % 0x800) as usize, value);
        } else if address < 0x4000 {
            self.ppu.write_register(PPURegister::from_index((address % 8) as u8), &mut self.memory, value);
        } else if address == 0x4014 {
            self.ppu.write_register(PPURegister::DMA, &mut self.memory, value);
        } else if address == 0x4016 {
            self.controller_1.write(value);
            self.controller_2.write(value);
        } else if address < 0x4018 {
            self.apu.write(APURegister::from_address(address), value);
        } else if address >= 0x4020 {
            self.memory.mapper.cpu_write(address, value);
        }
    }
}

impl CPUMemory for CPUBus {
    open spec fn inv(&self) -> bool {
        self.wf()
    }

    open spec fn byte_at(&self, address: u16) -> u8 {
        self.modelled_byte(address)
    }

    fn read(&mut self, address: u16) -> (r: u8) {
        CPUBus::read(self, address)
    }

    fn write(&mut self, address: u16, value: u8) {
        CPUBus::write(self, address, value)
    }
}

} // verus!
