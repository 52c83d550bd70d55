use vstd::prelude::*;
use crate::ppu::background::{Background, shifter_bit};
use crate::ppu::colors::{color_of, get_color};
use crate::ppu::foreground::{Foreground, sprite_pixel_from};
use crate::ppu::memory::PPUMemory;
use crate::ppu::registers::{Registers, VRAMAddress, lemma_vram_bits, with_field};

verus! {

/// Bytes in one frame: 240 lines of 256 RGB pixels.
pub const FRAME_BYTES: usize = 184320;

/// The eight memory-mapped PGU registers, and the OAM-DMA trigger.
#[derive(Clone, Copy, PartialEq, Eq, Structural, Debug)]
pub enum PPURegister {
    Control,
    Mask,
    Status,
    OAMAddress,
    OAMData,
    Scroll,
    VRAMAddress,
    VRAMData,
    DMA,
}

pub open spec fn register_of(index: u8) -> PPURegister {
    let i = index % 8;
    if i == 0 {
        PPURegister::Control
    } else if i == 1 {
        PPURegister::Mask
    } else if i == 2 {
        PPURegister::Status
    } else if i == 3 {
        PPURegister::OAMAddress
    } else if i == 4 {
        PPURegister::OAMData
    } else if i == 5 {
        PPURegister::Scroll
    } else if i == 6 {
        PPURegister::VRAMAddress
    } else {
        PPURegister::VRAMData
    }
}

impl PPURegister {
    /// The register at offset `index` (taken modulo 8) from 0x2000.
    pub fn from_index(index: u8) -> (r: PPURegister)
        ensures
            r == register_of(index),
    {
        let i = index % 8;
        if i == 0 {
            PPURegister::Control
        } else if i == 1 {
            PPURegister::Mask
        } else if i == 2 {
            PPURegister::Status
        } else if i == 3 {
            PPURegister::OAMAddress
        } else if i == 4 {
            PPURegister::OAMData
        } else if i == 5 {
            PPURegister::Scroll
        } else if i == 6 {
            PPURegister::VRAMAddress
        } else {
            PPURegister::VRAMData
        }
    }
}

/// Palette RAM slot of PGU address `address`: entries 0x10, 0x14, 0x18 and
/// 0x1C fall on 0x00, 0x04, 0x08 and 0x0C.
pub open spec fn palette_index(address: u16) -> u16 {
    if address & 3 == 0 { address & 0x0F } else { address & 0x1F }
}

/// Palette aliasing: a backdrop entry of the sprite half reads the entry of
/// the background half sixteen below it.
pub proof fn lemma_palette_alias(address: u16)
    requires
        address & 3 == 0,
    ensures
        palette_index(address | 0x10) == palette_index(address & 0xFFEF),
        palette_index(address & 0x13) == palette_index(address & 0x03),
{
    assert(address & 3 == 0 ==> (address | 0x10) & 3 == 0 && (address & 0xFFEF) & 3 == 0
        && (address | 0x10) & 0x0F == (address & 0xFFEF) & 0x0F
        && (address & 0x13) & 3 == 0 && (address & 0x03) & 3 == 0
        && (address & 0x13) & 0x0F == (address & 0x03) & 0x0F) by (bit_vector);
}

/// The transfer address after the first PPUADDR write (high six bits).
pub open spec fn latch_high(t: u16, value: u8) -> u16 {
    (t & 0x00FF) | (((value & 0x3F) as u16) << 8u16)
}

/// The transfer address after the second PPUADDR write (low byte).
pub open spec fn latch_low(t: u16, value: u8) -> u16 {
    (t & 0xFF00) | (value as u16)
}

/// The VRAM address after a PPUDATA access under control byte `control`.
pub open spec fn vram_step(v: u16, control: u8) -> u16 {
    ((v + if control & 0x04 != 0 { 32u16 } else { 1u16 }) as u16) & 0x7FFF
}

/// Two PPUADDR writes set the address `(high & 0x3F) * 256 + low`; two data
/// accesses then leave it 2 further on (64 with the vertical increment).
pub proof fn lemma_vram_address_latch(t: u16, high: u8, low: u8, control: u8)
    ensures
        latch_low(latch_high(t, high), low) == (high & 0x3F) as int * 256 + low as int,
        vram_step(vram_step(latch_low(latch_high(t, high), low), control), control)
            == latch_low(latch_high(t, high), low) + if control & 0x04 != 0 { 64int } else { 2int },
{
    let h = high as u16;
    let l = low as u16;
    assert((((t & 0x00FF) | ((h & 0x3F) << 8u16)) & 0xFF00) | l == (h & 0x3F) * 256 + l && (h & 0x3F) < 64) by (bit_vector)
        requires
            h < 256 && l < 256,
    ;
    assert(((high & 0x3F) as u16) == (h & 0x3F)) by (bit_vector)
        requires
            h == high as u16,
    ;
    let a = latch_low(latch_high(t, high), low);
    assert(a < 0x4000);
    let a1 = (a + if control & 0x04 != 0 { 32u16 } else { 1u16 }) as u16;
    lemma_vram_bits(a1, 0);
    let a2 = (a1 + if control & 0x04 != 0 { 32u16 } else { 1u16 }) as u16;
    lemma_vram_bits(a2, 0);
}

/// The raster position after one dot: a line is 341 dots and a frame 262
/// lines, and on odd frames with rendering on the last dot of the
/// pre-render line is skipped.
pub open spec fn next_dot(scanline: int, cycle: int, odd_frame: bool, rendering: bool) -> (int, int, bool) {
    if scanline == 261 && cycle == 339 && odd_frame && rendering {
        (0, 0, !odd_frame)
    } else if cycle >= 340 {
        if scanline >= 261 { (0, 0, !odd_frame) } else { (scanline + 1, 0, odd_frame) }
    } else {
        (scanline, cycle + 1, odd_frame)
    }
}

/// Dots left in the frame from `(scanline, cycle)` until the raster is back
/// at (0, 0): a frame is 89342 dots, 89341 when odd with rendering on.
pub open spec fn dots_left(scanline: int, cycle: int, odd_frame: bool, rendering: bool) -> int {
    (if odd_frame && rendering { 89341int } else { 89342int }) - (scanline * 341 + cycle)
}

/// Each dot takes one off the dots left in the frame, and the raster wraps to
/// (0, 0) of the next frame exactly when at most one dot was left: a frame started at
/// (0, 0) lasts 89342 dots, or 89341 on an odd frame with rendering on.
pub proof fn lemma_frame_dots(scanline: int, cycle: int, odd_frame: bool, rendering: bool)
    requires
        0 <= scanline <= 261,
        0 <= cycle <= 340,
    ensures
        dots_left(0, 0, odd_frame, rendering) == if odd_frame && rendering { 89341int } else { 89342int },
        dots_left(scanline, cycle, odd_frame, rendering) >= 0,
        dots_left(scanline, cycle, odd_frame, rendering) <= 1 ==> next_dot(scanline, cycle, odd_frame, rendering) == (0int, 0int, !odd_frame),
        dots_left(scanline, cycle, odd_frame, rendering) > 1 ==> {
            let (s, c, o) = next_dot(scanline, cycle, odd_frame, rendering);
            &&& o == odd_frame
            &&& 0 <= s <= 261 && 0 <= c <= 340
            &&& dots_left(s, c, o, rendering) == dots_left(scanline, cycle, odd_frame, rendering) - 1
        },
{
}

/// Whether a sprite-0 hit may be flagged at dot `cycle` under mask byte `mask`.
pub open spec fn hit_dot_allowed(cycle: int, mask: u8) -> bool {
    &&& mask & 0x08 != 0 && mask & 0x10 != 0
    &&& if mask & 0x02 == 0 || mask & 0x04 == 0 { 9 <= cycle <= 257 } else { 1 <= cycle <= 257 }
}

/// The background pixel (pattern, palette) under fine X, or transparent when
/// the background is hidden.
pub open spec fn background_pixel(bg: Background, registers: Registers) -> (u8, u8) {
    if registers.mask.0 & 0x08 != 0 {
        ((shifter_bit(bg.shifter_pattern_high, registers.fine_x) << 1u8) | shifter_bit(bg.shifter_pattern_low, registers.fine_x),
            (shifter_bit(bg.shifter_attribute_high, registers.fine_x) << 1u8) | shifter_bit(bg.shifter_attribute_low, registers.fine_x))
    } else {
        (0, 0)
    }
}

/// The sprite pixel (pattern, palette, in front), or transparent when sprites are hidden.
pub open spec fn sprite_pixel(fg: Foreground, registers: Registers) -> (u8, u8, bool) {
    if registers.mask.0 & 0x10 != 0 {
        sprite_pixel_from(fg.shifter_patterns_low@, fg.shifter_patterns_high@, fg.sprite_attribute_bytes@, fg.sprite_x@, 0)
    } else {
        (0, 0, false)
    }
}

/// The priority rule: a transparent side loses, both transparent give the
/// backdrop, else the sprite's priority bit decides.
pub open spec fn compose(bg: (u8, u8), fg: (u8, u8, bool)) -> (u8, u8) {
    if bg.0 == 0 && fg.0 == 0 {
        (0, 0)
    } else if bg.0 == 0 {
        (fg.0, fg.1)
    } else if fg.0 == 0 {
        (bg.0, bg.1)
    } else if fg.2 {
        (fg.0, fg.1)
    } else {
        (bg.0, bg.1)
    }
}

/// The palette byte shown for composed pixel `p`, grayscale-masked.
pub open spec fn palette_byte(palette_ram: Seq<u8>, mask: u8, p: (u8, u8)) -> u8 {
    let address = (((p.1 % 64) << 2u8) | (p.0 % 4)) as u16;
    let value = palette_ram[palette_index(address) as int];
    if mask & 0x01 != 0 { value & 0x30 } else { value }
}

/// The frame buffer after dot `(x, y)` is drawn in colour `c`.
pub open spec fn with_pixel(pixels: Seq<u8>, x: int, y: int, c: (u8, u8, u8)) -> Seq<u8> {
    let base = (y * 256 + x) * 3;
    pixels.update(base, c.0).update(base + 1, c.1).update(base + 2, c.2)
}

/// The picture-generation unit.
pub struct PPU {
    pub register: Registers,
    pub palette_ram: Vec<u8>,
    pub nmi: bool,
    pub dma: Option<u8>,
    pub scanline: usize,
    pub cycle: usize,
    pub odd_frame: bool,
    pub ppu_data_buffer: u8,
    pub transfer_address: VRAMAddress,
    pub address_latch: bool,
    pub background: Background,
    pub foreground: Foreground,
    pub pixels: Vec<u8>,
    pub render: bool,
}

impl PPU {
    pub open spec fn wf(&self) -> bool {
        &&& self.register.wf()
        &&& self.transfer_address.wf()
        &&& self.palette_ram@.len() == 32
        &&& self.foreground.wf()
        &&& self.pixels@.len() == FRAME_BYTES
        &&& self.scanline <= 261
        &&& self.cycle <= 340
    }

    /// Power-up: the pre-render line, dot 0, all registers clear.
    pub fn new() -> (r: Self)
        ensures
            r.wf(),
            r.scanline == 261 && r.cycle == 0,
            !r.odd_frame && !r.nmi && !r.render && !r.address_latch,
            r.dma.is_none(),
            r.register.control.0 == 0 && r.register.mask.0 == 0 && r.register.status.0 == 0,
    {
        PPU {
            register: Registers::new(),
            palette_ram: vec![0u8; 32],
            nmi: false,
            dma: None,
            scanline: 261,
            cycle: 0,
            odd_frame: false,
            ppu_data_buffer: 0,
            transfer_address: VRAMAddress::new(),
            address_latch: false,
            background: Background::new(),
            foreground: Foreground::new(),
            pixels: vec![0u8; FRAME_BYTES],
            render: false,
        }
    }

    /// Takes the latched NMI request, if any.
    pub fn pull_nmi(&mut self) -> (r: bool)
        ensures
            r == old(self).nmi,
            *final(self) == (PPU { nmi: false, ..*old(self) }),
    {
        let r = self.nmi;
        self.nmi = false;
        r
    }

    /// Takes the page of a requested OAM DMA, if any.
    pub fn pull_dma(&mut self) -> (r: Option<u8>)
        ensures
            r == old(self).dma,
            *final(self) == (PPU { dma: None, ..*old(self) }),
    {
        let r = self.dma;
        self.dma = None;
        r
    }

    fn send_nmi(&mut self)
        ensures
            *final(self) == (PPU { nmi: true, ..*old(self) }),
            final(self).wf() == old(self).wf(),
    {
        self.nmi = true;
    }

    pub fn get_palette_index(address: u16) -> (r: usize)
        ensures
            r == palette_index(address),
            r < 32,
    {
        proof {
            assert(address & 0x0F < 32 && address & 0x1F < 32) by (bit_vector);
        }
        if address & 3 == 0 {
            (address & 0x0F) as usize
        } else {
            (address & 0x1F) as usize
        }
    }

    /// The palette byte at `address`, grayscale-masked if the mask asks.
    fn read_palette_ram_index(&self, address: u8) -> (r: u8)
        requires
            self.wf(),
        ensures
            r == if self.register.mask.0 & 0x01 != 0 {
                self.palette_ram@[palette_index(address as u16) as int] & 0x30
            } else {
                self.palette_ram@[palette_index(address as u16) as int]
            },
    {
        let value = self.palette_ram[Self::get_palette_index(address as u16)];
        if self.register.mask.get_grayscale() {
            value & 0x30
        } else {
            value
        }
    }

    fn increment_vram_address(&mut self)
        requires
            old(self).wf(),
        ensures
            final(self).wf(),
            final(self).register.vram_address.0 == vram_step(old(self).register.vram_address.0, old(self).register.control.0),
            final(self).register.control == old(self).register.control,
            final(self).register.mask == old(self).register.mask,
            final(self).register.status == old(self).register.status,
            final(self).transfer_address == old(self).transfer_address,
            final(self).address_latch == old(self).address_latch,
            final(self).nmi == old(self).nmi,
            final(self).scanline == old(self).scanline && final(self).cycle == old(self).cycle,
            final(self).palette_ram == old(self).palette_ram,
            final(self).ppu_data_buffer == old(self).ppu_data_buffer,
            final(self).register.fine_x == old(self).register.fine_x && final(self).register.oam_address == old(self).register.oam_address,
    {
        let step: u16 = if self.register.control.get_vram_increment() { 32 } else { 1 };
        let v = self.register.vram_address.get();
        self.register.vram_address.set(v + step);
    }

    /// A CPU read of a PGU register.
    pub fn read_register<M: PPUMemory>(&mut self, register: PPURegister, memory: &mut M) -> (r: u8)
        requires
            old(memory).inv(),
            old(self).wf(),
        ensures
            final(memory).inv(),
            *final(memory) == *old(memory),
            final(self).wf(),
            final(self).nmi == old(self).nmi,
            final(self).scanline == old(self).scanline && final(self).cycle == old(self).cycle,
            final(self).register.control == old(self).register.control,
            final(self).register.mask == old(self).register.mask,
            register == PPURegister::Status ==> {
                &&& final(self).register.vram_address == old(self).register.vram_address
                &&& final(self).transfer_address == old(self).transfer_address
                &&& final(self).register.fine_x == old(self).register.fine_x
                &&& r == (old(self).register.status.0 & 0xE0) | (old(self).ppu_data_buffer & 0x1F)
                &&& final(self).register.status.0 == old(self).register.status.0 & !0x80u8
                &&& !final(self).address_latch
            },
            register == PPURegister::VRAMData ==> {
                let address = old(self).register.vram_address.0 & 0x3FFF;
                &&& final(self).register.vram_address.0 == vram_step(old(self).register.vram_address.0, old(self).register.control.0)
                &&& final(self).transfer_address == old(self).transfer_address
                &&& final(self).address_latch == old(self).address_latch
                &&& final(self).ppu_data_buffer == old(memory).byte_at(address)
                &&& r == if address >= 0x3F00 {
                    old(self).palette_ram@[palette_index(address) as int]
                } else {
                    old(self).ppu_data_buffer
                }
            },
            register != PPURegister::Status && register != PPURegister::VRAMData ==> {
                &&& final(self).register == old(self).register
                &&& final(self).address_latch == old(self).address_latch
            },
            register == PPURegister::OAMData ==> r == if old(self).foreground.oam_return_ff {
                0xFF
            } else {
                old(self).foreground.sprites.oam_primary.byte(old(self).register.oam_address as int)
            },
            register != PPURegister::Status && register != PPURegister::VRAMData && register != PPURegister::OAMData ==> r == 0,
    {
        match register {
            PPURegister::Status => {
                let data = (self.register.status.get() & 0xE0) | (self.ppu_data_buffer & 0x1F);
                self.register.status.set_started_vertical_blank(false);
                self.address_latch = false;
                data
            },
            PPURegister::OAMData => {
                if self.foreground.oam_return_ff() {
                    0xFF
                } else {
                    let index = self.register.oam_address as usize;
                    self.foreground.sprites.oam_primary.get_byte(index)
                }
            },
            PPURegister::VRAMData => {
                let address = self.register.vram_address.get() & 0x3FFF;
                let data = if address >= 0x3F00 {
                    self.palette_ram[Self::get_palette_index(address)]
                } else {
                    self.ppu_data_buffer
                };
                self.ppu_data_buffer = memory.read(address);
                self.increment_vram_address();
                data
            },
            _ => 0,
        }
    }

    /// A CPU write of a PGU register.
    pub fn write_register<M: PPUMemory>(&mut self, register: PPURegister, memory: &mut M, value: u8)
        requires
            old(memory).inv(),
            old(self).wf(),
        ensures
            final(memory).inv(),
            register != PPURegister::VRAMData ==> *final(memory) == *old(memory),
            final(self).wf(),
            final(self).scanline == old(self).scanline && final(self).cycle == old(self).cycle,
            register == PPURegister::VRAMAddress && !old(self).address_latch ==> {
                &&& final(self).transfer_address.0 == latch_high(old(self).transfer_address.0, value)
                &&& final(self).address_latch
                &&& final(self).register.vram_address == old(self).register.vram_address
                &&& final(self).register.control == old(self).register.control
            },
            register == PPURegister::VRAMAddress && old(self).address_latch ==> {
                &&& final(self).transfer_address.0 == latch_low(old(self).transfer_address.0, value)
                &&& final(self).register.vram_address.0 == final(self).transfer_address.0
                &&& !final(self).address_latch
                &&& final(self).register.control == old(self).register.control
            },
            register == PPURegister::VRAMData ==> {
                &&& final(self).register.vram_address.0 == vram_step(old(self).register.vram_address.0, old(self).register.control.0)
                &&& final(self).register.control == old(self).register.control
                &&& final(self).address_latch == old(self).address_latch
                &&& final(self).transfer_address == old(self).transfer_address
            },
            register == PPURegister::DMA ==> final(self).dma == Some(value),
            register == PPURegister::VRAMData && old(self).register.vram_address.0 & 0x3FFF >= 0x3F00 ==>
                final(self).palette_ram@ == old(self).palette_ram@.update(palette_index(old(self).register.vram_address.0 & 0x3FFF) as int, value)
                && *final(memory) == *old(memory),
            register == PPURegister::VRAMData && old(self).register.vram_address.0 & 0x3FFF < 0x3F00 ==>
                final(self).palette_ram == old(self).palette_ram,
            register != PPURegister::VRAMData ==> final(self).palette_ram == old(self).palette_ram,
            register == PPURegister::OAMAddress ==> final(self).register.oam_address == value,
            register == PPURegister::Control ==> final(self).transfer_address.0 == with_field(
                with_field(old(self).transfer_address.0, 0x0400, 10, if value & 0x01 != 0 { 1 } else { 0 }),
                0x0800, 11, if value & 0x02 != 0 { 1 } else { 0 }),
            register == PPURegister::Scroll && !old(self).address_latch ==> {
                &&& final(self).register.fine_x == value % 8
                &&& final(self).transfer_address.0 == with_field(old(self).transfer_address.0, 0x001F, 0, (value / 8) as u16)
                &&& final(self).address_latch
            },
            register == PPURegister::Scroll && old(self).address_latch ==> {
                &&& final(self).transfer_address.0 == with_field(with_field(old(self).transfer_address.0, 0x7000, 12, (value % 8) as u16),
                    0x03E0, 5, (value / 8) as u16)
                &&& !final(self).address_latch
            },
            register == PPURegister::OAMData ==> {
                &&& final(self).foreground.sprites.oam_primary.byte(old(self).register.oam_address as int) == value
                &&& final(self).register.oam_address == old(self).register.oam_address.wrapping_add(1)
            },
            register == PPURegister::Control ==> final(self).register.control.0 == value,
            register == PPURegister::Mask ==> final(self).register.mask.0 == value,
            register == PPURegister::Control && value & 0x80 != 0 && old(self).register.control.0 & 0x80 == 0
                && old(self).register.status.0 & 0x80 != 0 ==> final(self).nmi,
            register != PPURegister::Control ==> final(self).nmi == old(self).nmi,
            register != PPURegister::VRAMAddress && register != PPURegister::VRAMData
                ==> final(self).register.vram_address == old(self).register.vram_address,
            register != PPURegister::Control && register != PPURegister::Scroll && register != PPURegister::VRAMAddress
                ==> final(self).transfer_address == old(self).transfer_address,
            register != PPURegister::Scroll ==> final(self).register.fine_x == old(self).register.fine_x,
    {
        match register {
            PPURegister::Control => {
                let was_enabled = self.register.control.get_generate_nmi();
                self.register.control.set(value);
                let nx = self.register.control.get_nametable_x();
                self.transfer_address.set_nametable_x(nx);
                let ny = self.register.control.get_nametable_y();
                self.transfer_address.set_nametable_y(ny);
                if !was_enabled && self.register.control.get_generate_nmi() && self.register.status.get_started_vertical_blank() {
                    self.send_nmi();
                }
            },
            PPURegister::Mask => self.register.mask.set(value),
            PPURegister::OAMAddress => self.register.oam_address = value,
            PPURegister::OAMData => {
                let index = self.register.oam_address as usize;
                self.foreground.sprites.oam_primary.set_byte(index, value);
                self.register.oam_address = self.register.oam_address.wrapping_add(1);
            },
            PPURegister::Scroll => {
                if !self.address_latch {
                    self.register.fine_x = value % 8;
                    self.transfer_address.set_tile_x((value / 8) as u16);
                    self.address_latch = true;
                } else {
                    self.transfer_address.set_fine_y((value % 8) as u16);
                    self.transfer_address.set_tile_y((value / 8) as u16);
                    self.address_latch = false;
                }
            },
            PPURegister::VRAMAddress => {
                let t = self.transfer_address.get();
                if !self.address_latch {
                    let next = (t & 0x00FF) | (((value & 0x3F) as u16) << 8u16);
                    proof {
                        let tt = t;
                        let vv = value as u16;
                        assert((tt & 0x00FF) | ((vv & 0x3F) << 8u16) < 0x4000) by (bit_vector);
                        assert(((value & 0x3F) as u16) == (vv & 0x3F)) by (bit_vector)
                            requires
                                vv == value as u16,
                        ;
                        lemma_vram_bits(next, 0);
                    }
                    self.transfer_address.set(next);
                    self.address_latch = true;
                } else {
                    let next = (t & 0xFF00) | value as u16;
                    proof {
                        let tt = t;
                        let vv = value as u16;
                        assert(tt < 0x8000 && vv < 256 ==> (tt & 0xFF00) | vv < 0x8000) by (bit_vector);
                        lemma_vram_bits(next, 0);
                    }
                    self.transfer_address.set(next);
                    self.register.vram_address.set(next);
                    self.address_latch = false;
                }
            },
            PPURegister::VRAMData => {
                let address = self.register.vram_address.get() & 0x3FFF;
                if address >= 0x3F00 {
                    self.palette_ram.set(Self::get_palette_index(address), value);
                } else {
                    memory.write(address, value);
                }
                self.increment_vram_address();
            },
            PPURegister::DMA => {
                self.dma = Some(value);
            },
            PPURegister::Status => {},
        }
    }

    /// Writes OAM byte `address` (used by OAM DMA).
    pub fn write_oam(&mut self, address: u8, value: u8)
        requires
            old(self).wf(),
        ensures
            final(self).wf(),
            final(self).foreground.sprites.oam_primary.byte(address as int) == value,
            final(self).scanline == old(self).scanline && final(self).cycle == old(self).cycle,
            final(self).nmi == old(self).nmi && final(self).dma == old(self).dma,
            final(self).register == old(self).register,
            final(self).odd_frame == old(self).odd_frame && final(self).render == old(self).render,
    {
        self.foreground.sprites.oam_primary.set_byte(address as usize, value);
    }

    /// Chooses between the background and the sprite pixel, and flags a
    /// sprite-0 hit where both are opaque and sprite zero drew this dot.
    fn load_pixel(&mut self, bg_pattern: u8, bg_palette: u8, fg_pattern: u8, fg_palette: u8, fg_priority: bool) -> (r: (u8, u8))
        requires
            old(self).wf(),
        ensures
            final(self).wf(),
            r == if bg_pattern == 0 && fg_pattern == 0 {
                (0u8, 0u8)
            } else if bg_pattern == 0 {
                (fg_pattern, fg_palette)
            } else if fg_pattern == 0 {
                (bg_pattern, bg_palette)
            } else if fg_priority {
                (fg_pattern, fg_palette)
            } else {
                (bg_pattern, bg_palette)
            },
            final(self).register.status.0 & 0x40 != 0 && old(self).register.status.0 & 0x40 == 0 ==>
                hit_dot_allowed(old(self).cycle as int, old(self).register.mask.0) && bg_pattern != 0 && fg_pattern != 0
                && old(self).foreground.sprite_zero_active && old(self).foreground.show_sprite_zero,
            final(self).register.status.0 & 0x80 == old(self).register.status.0 & 0x80,
            final(self).register.control == old(self).register.control,
            final(self).register.mask == old(self).register.mask,
            final(self).register.vram_address == old(self).register.vram_address,
            final(self).register.fine_x == old(self).register.fine_x,
            final(self).foreground == old(self).foreground,
            final(self).background == old(self).background,
            final(self).palette_ram == old(self).palette_ram,
            final(self).pixels == old(self).pixels,
            final(self).scanline == old(self).scanline && final(self).cycle == old(self).cycle,
            final(self).odd_frame == old(self).odd_frame && final(self).render == old(self).render,
            final(self).nmi == old(self).nmi,
            final(self).transfer_address == old(self).transfer_address,
    {
        if bg_pattern == 0 {
            if fg_pattern == 0 { (0, 0) } else { (fg_pattern, fg_palette) }
        } else if fg_pattern == 0 {
            (bg_pattern, bg_palette)
        } else {
            if self.foreground.sprite_zero_active && self.foreground.show_sprite_zero
                && self.register.mask.get_show_background() && self.register.mask.get_show_sprites() {
                let leftmost = self.register.mask.get_show_background_leftmost_pixels()
                    && self.register.mask.get_show_sprites_leftmost_pixels();
                let first: usize = if leftmost { 1 } else { 9 };
                if self.cycle >= first && self.cycle <= 257 {
                    let before = self.register.status.0;
                    self.register.status.set_sprite_0_hit(true);
                    proof {
                        assert((before | 0x40) & 0x80 == before & 0x80) by (bit_vector);
                    }
                }
            }
            if fg_priority { (fg_pattern, fg_palette) } else { (bg_pattern, bg_palette) }
        }
    }

    fn set_pixel(&mut self, x: usize, y: usize, color: u8)
        requires
            old(self).wf(),
            x < 256 && y < 240,
        ensures
            final(self).wf(),
            final(self).register == old(self).register,
            final(self).scanline == old(self).scanline && final(self).cycle == old(self).cycle,
            final(self).odd_frame == old(self).odd_frame && final(self).render == old(self).render,
            final(self).nmi == old(self).nmi,
            final(self).transfer_address == old(self).transfer_address,
            final(self).foreground == old(self).foreground,
            final(self).background == old(self).background,
            final(self).palette_ram == old(self).palette_ram,
            final(self).pixels@ == with_pixel(old(self).pixels@, x as int, y as int, color_of(color, old(self).register.mask.0)),
    {
        let rgb = get_color(color, &self.register.mask);
        let base = (y * 256 + x) * 3;
        self.pixels.set(base, rgb.0);
        self.pixels.set(base + 1, rgb.1);
        self.pixels.set(base + 2, rgb.2);
    }

    /// The pre-render line copies the vertical scroll bits of `t` into `v`.
    fn copy_vertical(&mut self)
        requires
            old(self).wf(),
        ensures
            final(self).wf(),
            final(self).register.control == old(self).register.control,
            final(self).register.mask == old(self).register.mask,
            final(self).register.status == old(self).register.status,
            final(self).register.fine_x == old(self).register.fine_x,
            final(self).scanline == old(self).scanline && final(self).cycle == old(self).cycle,
            final(self).odd_frame == old(self).odd_frame && final(self).render == old(self).render,
            final(self).nmi == old(self).nmi,
            final(self).foreground == old(self).foreground,
            final(self).transfer_address == old(self).transfer_address,
            final(self).pixels == old(self).pixels,
    {
        let fine_y = self.transfer_address.get_fine_y();
        self.register.vram_address.set_fine_y(fine_y);
        let nametable_y = self.transfer_address.get_nametable_y();
        self.register.vram_address.set_nametable_y(nametable_y);
        let tile_y = self.transfer_address.get_tile_y();
        self.register.vram_address.set_tile_y(tile_y);
    }

    /// Advances one dot.
    pub fn tick<M: PPUMemory>(&mut self, memory: &mut M)
        requires
            old(memory).inv(),
            old(self).wf(),
        ensures
            final(memory).inv(),
            final(self).wf(),
            (final(self).scanline as int, final(self).cycle as int, final(self).odd_frame)
                == next_dot(old(self).scanline as int, old(self).cycle as int, old(self).odd_frame, old(self).register.mask.rendering()),
            final(self).register.mask == old(self).register.mask,
            final(self).register.control == old(self).register.control,
            final(self).render == (old(self).render || (final(self).scanline == 0 && final(self).cycle == 0)),
            old(self).scanline == 241 && old(self).cycle == 1 ==> final(self).register.status.0 & 0x80 != 0,
            old(self).scanline == 241 && old(self).cycle == 1 && old(self).register.control.0 & 0x80 != 0 ==> final(self).nmi,
            old(self).nmi ==> final(self).nmi,
            !old(self).nmi && final(self).nmi ==> old(self).scanline == 241 && old(self).cycle == 1
                && old(self).register.control.0 & 0x80 != 0,
            old(self).scanline == 261 && old(self).cycle == 1 ==> final(self).register.status.0
                == ((old(self).register.status.0 & !0x80u8) & !0x40u8) & !0x20u8,
            old(self).scanline < 240 && 1 <= old(self).cycle <= 256 ==> final(self).pixels@ == with_pixel(old(self).pixels@,
                old(self).cycle - 1, old(self).scanline as int, color_of(palette_byte(old(self).palette_ram@, old(self).register.mask.0,
                compose(background_pixel(final(self).background, final(self).register),
                    ({
                        let f = sprite_pixel(final(self).foreground, final(self).register);
                        (f.0, f.1 | 4, f.2)
                    }))), old(self).register.mask.0)),
            !(old(self).scanline < 240 && 1 <= old(self).cycle <= 256) ==> final(self).pixels == old(self).pixels,
            final(self).register.status.0 & 0x40 != 0 && old(self).register.status.0 & 0x40 == 0 ==> {
                &&& old(self).scanline < 240
                &&& hit_dot_allowed(old(self).cycle as int, old(self).register.mask.0)
            },
            !(old(self).scanline == 241 && old(self).cycle == 1) && !(old(self).scanline == 261 && old(self).cycle == 1)
                ==> final(self).register.status.0 & 0x80 == old(self).register.status.0 & 0x80,
    {
        self.foreground.show_sprite_zero = false;
        let hit_before = self.register.status.0;
        if self.scanline == 261 {
            if self.cycle == 1 {
                self.register.status.set_started_vertical_blank(false);
                self.register.status.set_sprite_0_hit(false);
                self.register.status.set_sprite_overflow(false);
                proof {
                    let s = hit_before;
                    assert(((((s & !0x80u8) & !0x40u8) & !0x20u8) & 0x40) == 0) by (bit_vector);
                }
            } else if self.cycle >= 280 && self.cycle <= 304 && self.register.mask.is_rendering_enabled() {
                self.copy_vertical();
            }
            self.background.tick(self.cycle, &mut self.register, memory, &self.transfer_address);
        } else if self.scanline < 240 {
            self.background.tick(self.cycle, &mut self.register, memory, &self.transfer_address);
            self.foreground.tick(self.cycle, self.scanline, &mut self.register, memory);
        } else if self.scanline == 241 && self.cycle == 1 {
            self.register.status.set_started_vertical_blank(true);
            proof {
                let s = hit_before;
                assert((s | 0x80) & 0x80 != 0 && (s | 0x80) & 0x40 == s & 0x40) by (bit_vector);
            }
            if self.register.control.get_generate_nmi() {
                self.send_nmi();
            }
        }
        let status_mid = self.register.status.0;
        if self.cycle >= 1 && self.cycle <= 256 && self.scanline < 240 {
            let bg = self.background.load_next_pixel(&self.register);
            let fg = self.foreground.load_next_pixel(&self.register);
            let (pattern, palette) = self.load_pixel(bg.0, bg.1, fg.0, fg.1 | 4, fg.2);
            let color = self.read_palette_ram_index(((palette % 64) << 2u8) | (pattern % 4));
            let x = self.cycle - 1;
            let y = self.scanline;
            self.set_pixel(x, y, color);
        }
        self.advance();
    }

    /// Moves the raster position one dot on.
    fn advance(&mut self)
        requires
            old(self).wf(),
        ensures
            final(self).wf(),
            (final(self).scanline as int, final(self).cycle as int, final(self).odd_frame)
                == next_dot(old(self).scanline as int, old(self).cycle as int, old(self).odd_frame, old(self).register.mask.rendering()),
            final(self).register == old(self).register,
            final(self).nmi == old(self).nmi,
            final(self).render == (old(self).render || (final(self).scanline == 0 && final(self).cycle == 0)),
            final(self).background == old(self).background && final(self).foreground == old(self).foreground,
            final(self).palette_ram == old(self).palette_ram && final(self).pixels == old(self).pixels,
    {
        if self.scanline == 261 && self.cycle == 339 && self.odd_frame && self.register.mask.is_rendering_enabled() {
            self.scanline = 0;
            self.cycle = 0;
            self.odd_frame = !self.odd_frame;
            self.render = true;
        } else if self.cycle >= 340 {
            self.cycle = 0;
            if self.scanline >= 261 {
                self.scanline = 0;
                self.odd_frame = !self.odd_frame;
                self.render = true;
            } else {
                self.scanline = self.scanline + 1;
            }
        } else {
            self.cycle = self.cycle + 1;
        }
    }

    /// The finished frame, once per completed frame; `None` in between.
    pub fn get_output(&mut self) -> (r: Option<Vec<u8>>)
        ensures
            r.is_some() == old(self).render,
            !final(self).render,
            r.is_some() ==> r.unwrap()@ == old(self).pixels@,
            final(self).scanline == old(self).scanline && final(self).cycle == old(self).cycle,
            final(self).wf() == old(self).wf(),
    {
        if self.render {
            self.render = false;
            let mut frame: Vec<u8> = Vec::new();
            let mut i: usize = 0;
            while i < self.pixels.len()
                invariant
                    i <= self.pixels@.len(),
                    frame@ == self.pixels@.subrange(0, i as int),
                decreases self.pixels@.len() - i,
            {
                frame.push(self.pixels[i]);
                i = i + 1;
                assert(frame@ =~= self.pixels@.subrange(0, i as int));
            }
            assert(frame@ =~= self.pixels@);
            Some(frame)
        } else {
            None
        }
    }
}

} // verus!
