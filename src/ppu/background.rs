use vstd::prelude::*;
use crate::ppu::memory::{PPUMemory, attribute_address, nametable_address, pattern_address, read_attribute_table, read_nametable, read_pattern_table_tile_high, read_pattern_table_tile_low};
use crate::ppu::registers::{Registers, VRAMAddress, attribute_index, coarse_x_step, fine_y_step, palette_bits, with_field};

verus! {

/// The bit of a 16-bit shifter that fine X selects, as 0 or 1.
pub open spec fn shifter_bit(shifter: u16, fine_x: u8) -> u8 {
    if (shifter << fine_x) & 0x8000 != 0 { 1 } else { 0 }
}

/// A shifter after one dot: one bit left while the background shows.
pub open spec fn shift_step(x: u16, show: bool) -> u16 {
    if show { x << 1u16 } else { x }
}

/// A shifter after the fetched tile is loaded into its low byte.
pub open spec fn load_step(x: u16, low: u16) -> u16 {
    (x & 0xFF00) | low
}

/// Dots on which the background shifters shift.
pub open spec fn shift_dot(cycle: int) -> bool {
    (2 <= cycle <= 257) || (322 <= cycle <= 337)
}

/// Dots on which the shifters take the tile fetched over the last eight dots.
pub open spec fn load_dot(cycle: int) -> bool {
    ((9 <= cycle <= 256 || 321 <= cycle <= 336) && cycle % 8 == 1) || cycle == 257 || cycle == 337
}

/// `v` after a background dot: coarse X steps at the end of every fetched
/// tile, fine Y at dot 256, and dot 257 copies horizontal scroll from `t`.
pub open spec fn v_after_dot(v: u16, t: u16, cycle: int, rendering: bool) -> u16 {
    if !rendering {
        v
    } else if cycle == 256 {
        fine_y_step(coarse_x_step(v))
    } else if (8 <= cycle <= 255 || 328 <= cycle <= 336) && cycle % 8 == 0 {
        coarse_x_step(v)
    } else if cycle == 257 {
        let v1 = with_field(v, 0x001F, 0, t & 0x1F);
        with_field(v1, 0x0400, 10, if t & 0x0400 != 0 { 1 } else { 0 })
    } else {
        v
    }
}

/// The background pipeline: tile fetches and the four shift registers.
pub struct Background {
    pub shifter_pattern_low: u16,
    pub shifter_pattern_high: u16,
    pub shifter_attribute_low: u16,
    pub shifter_attribute_high: u16,
    pub pattern_table_tile: u8,
    pub palette: u8,
    pub pattern_table_tile_low: u8,
    pub pattern_table_tile_high: u8,
}

impl Background {
    pub fn new() -> (r: Self)
        ensures
            r.shifter_pattern_low == 0 && r.shifter_pattern_high == 0,
            r.shifter_attribute_low == 0 && r.shifter_attribute_high == 0,
    {
        Background {
            shifter_pattern_low: 0,
            shifter_pattern_high: 0,
            shifter_attribute_low: 0,
            shifter_attribute_high: 0,
            pattern_table_tile: 0,
            palette: 0,
            pattern_table_tile_low: 0,
            pattern_table_tile_high: 0,
        }
    }

    /// Puts the fetched tile into the low bytes of the shifters.
    fn load_shift_registers(&mut self)
        ensures
            final(self).shifter_pattern_low == (old(self).shifter_pattern_low & 0xFF00) | old(self).pattern_table_tile_low as u16,
            final(self).shifter_pattern_high == (old(self).shifter_pattern_high & 0xFF00) | old(self).pattern_table_tile_high as u16,
            final(self).shifter_attribute_low == (old(self).shifter_attribute_low & 0xFF00) | (if old(self).palette & 1 != 0 { 0xFFu16 } else { 0u16 }),
            final(self).shifter_attribute_high == (old(self).shifter_attribute_high & 0xFF00) | (if old(self).palette & 2 != 0 { 0xFFu16 } else { 0u16 }),
            final(self).palette == old(self).palette,
            final(self).pattern_table_tile == old(self).pattern_table_tile,
            final(self).pattern_table_tile_low == old(self).pattern_table_tile_low,
            final(self).pattern_table_tile_high == old(self).pattern_table_tile_high,
    {
        self.shifter_pattern_low = (self.shifter_pattern_low & 0xFF00) | self.pattern_table_tile_low as u16;
        self.shifter_pattern_high = (self.shifter_pattern_high & 0xFF00) | self.pattern_table_tile_high as u16;
        self.shifter_attribute_low = (self.shifter_attribute_low & 0xFF00) | if self.palette & 1 != 0 { 0xFFu16 } else { 0u16 };
        self.shifter_attribute_high = (self.shifter_attribute_high & 0xFF00) | if self.palette & 2 != 0 { 0xFFu16 } else { 0u16 };
    }

    /// Shifts all four registers one bit left while the background shows.
    fn shift_registers(&mut self, registers: &Registers)
        ensures
            registers.mask.0 & 0x08 != 0 ==> {
                &&& final(self).shifter_pattern_low == old(self).shifter_pattern_low << 1u16
                &&& final(self).shifter_pattern_high == old(self).shifter_pattern_high << 1u16
                &&& final(self).shifter_attribute_low == old(self).shifter_attribute_low << 1u16
                &&& final(self).shifter_attribute_high == old(self).shifter_attribute_high << 1u16
            },
            registers.mask.0 & 0x08 == 0 ==> *final(self) == *old(self),
            final(self).pattern_table_tile == old(self).pattern_table_tile,
            final(self).palette == old(self).palette,
            final(self).pattern_table_tile_low == old(self).pattern_table_tile_low,
            final(self).pattern_table_tile_high == old(self).pattern_table_tile_high,
    {
        if registers.mask.get_show_background() {
            self.shifter_pattern_low = self.shifter_pattern_low << 1u16;
            self.shifter_pattern_high = self.shifter_pattern_high << 1u16;
            self.shifter_attribute_low = self.shifter_attribute_low << 1u16;
            self.shifter_attribute_high = self.shifter_attribute_high << 1u16;
        }
    }

    /// The fetch of dot `cycle`: nametable (dot & 7 == 1), attribute (3),
    /// low plane (5), high plane (7).
    fn load_tile<M: PPUMemory>(&mut self, cycle: usize, registers: &Registers, memory: &mut M)
        requires
            old(memory).inv(),
            registers.wf(),
        ensures
            final(memory).inv(),
            cycle % 8 == 1 && cycle >= 9 ==> {
                &&& final(self).shifter_pattern_low == (old(self).shifter_pattern_low & 0xFF00) | old(self).pattern_table_tile_low as u16
                &&& final(self).shifter_pattern_high == (old(self).shifter_pattern_high & 0xFF00) | old(self).pattern_table_tile_high as u16
                &&& final(self).shifter_attribute_low == (old(self).shifter_attribute_low & 0xFF00) | (if old(self).palette & 1 != 0 { 0xFFu16 } else { 0u16 })
                &&& final(self).shifter_attribute_high == (old(self).shifter_attribute_high & 0xFF00) | (if old(self).palette & 2 != 0 { 0xFFu16 } else { 0u16 })
            },
            cycle % 8 != 1 || cycle < 9 ==> {
                &&& final(self).shifter_pattern_low == old(self).shifter_pattern_low
                &&& final(self).shifter_pattern_high == old(self).shifter_pattern_high
                &&& final(self).shifter_attribute_low == old(self).shifter_attribute_low
                &&& final(self).shifter_attribute_high == old(self).shifter_attribute_high
            },
            *final(memory) == *old(memory),
            cycle % 8 == 1 ==> final(self).pattern_table_tile == old(memory).byte_at(nametable_address(registers.vram_address.0)),
            cycle % 8 == 5 ==> final(self).pattern_table_tile_low == old(memory).byte_at(pattern_address(
                registers.control.0 & 0x10 != 0, old(self).pattern_table_tile as u16, (registers.vram_address.0 >> 12u16) & 7, false)),
            cycle % 8 == 7 ==> final(self).pattern_table_tile_high == old(memory).byte_at(pattern_address(
                registers.control.0 & 0x10 != 0, old(self).pattern_table_tile as u16, (registers.vram_address.0 >> 12u16) & 7, true)),
            cycle % 8 != 1 ==> final(self).pattern_table_tile == old(self).pattern_table_tile,
            cycle % 8 != 3 ==> final(self).palette == old(self).palette,
            cycle % 8 == 3 ==> final(self).palette < 4,
            cycle % 8 == 3 ==> final(self).palette == palette_bits(registers.vram_address.0, old(memory).byte_at(
                attribute_address((registers.vram_address.0 >> 10u16) & 3, attribute_index(registers.vram_address.0)))),
            cycle % 8 != 5 ==> final(self).pattern_table_tile_low == old(self).pattern_table_tile_low,
            cycle % 8 != 7 ==> final(self).pattern_table_tile_high == old(self).pattern_table_tile_high,
    {
        let phase = cycle % 8;
        if phase == 1 {
            if cycle >= 9 {
                self.load_shift_registers();
            }
            let address = registers.vram_address.get();
            self.pattern_table_tile = read_nametable(memory, address);
        } else if phase == 3 {
            let nametable = registers.vram_address.get_nametable();
            let attribute_index = registers.vram_address.get_attribute_index();
            let attribute = read_attribute_table(memory, nametable, attribute_index);
            let palette = registers.get_palette_from_attribute(attribute);
            proof {
                let a = attribute;
                let sx: u8 = if (registers.vram_address.0 & 0x1F) & 2 != 0 { 2u8 } else { 0u8 };
                let sy: u8 = if ((registers.vram_address.0 >> 5u16) & 0x1F) & 2 != 0 { 4u8 } else { 0u8 };
                assert(((a >> sx) >> sy) & 3 < 4) by (bit_vector);
            }
            self.palette = palette;
        } else if phase == 5 {
            let table = registers.control.get_background_pattern_table();
            let fine_y = registers.vram_address.get_fine_y();
            self.pattern_table_tile_low = read_pattern_table_tile_low(memory, table, self.pattern_table_tile as u16, fine_y);
        } else if phase == 7 {
            let table = registers.control.get_background_pattern_table();
            let fine_y = registers.vram_address.get_fine_y();
            self.pattern_table_tile_high = read_pattern_table_tile_high(memory, table, self.pattern_table_tile as u16, fine_y);
        }
    }

    /// One dot of the background pipeline on a visible or pre-render line.
    pub fn tick<M: PPUMemory>(&mut self, cycle: usize, registers: &mut Registers, memory: &mut M, transfer_address: &VRAMAddress)
        requires
            old(memory).inv(),
            old(registers).wf(),
            transfer_address.wf(),
        ensures
            final(memory).inv(),
            final(registers).wf(),
            final(registers).control == old(registers).control,
            final(registers).mask == old(registers).mask,
            final(registers).status == old(registers).status,
            final(registers).fine_x == old(registers).fine_x,
            final(registers).oam_address == old(registers).oam_address,
            *final(memory) == *old(memory),
            final(registers).vram_address.0 == v_after_dot(old(registers).vram_address.0, transfer_address.0, cycle as int,
                old(registers).mask.rendering()),
            ({
                let show = old(registers).mask.0 & 0x08 != 0;
                let moved = shift_dot(cycle as int);
                let loads = load_dot(cycle as int);
                let pl = if moved { shift_step(old(self).shifter_pattern_low, show) } else { old(self).shifter_pattern_low };
                let ph = if moved { shift_step(old(self).shifter_pattern_high, show) } else { old(self).shifter_pattern_high };
                let al = if moved { shift_step(old(self).shifter_attribute_low, show) } else { old(self).shifter_attribute_low };
                let ah = if moved { shift_step(old(self).shifter_attribute_high, show) } else { old(self).shifter_attribute_high };
                &&& final(self).shifter_pattern_low == if loads { load_step(pl, old(self).pattern_table_tile_low as u16) } else { pl }
                &&& final(self).shifter_pattern_high == if loads { load_step(ph, old(self).pattern_table_tile_high as u16) } else { ph }
                &&& final(self).shifter_attribute_low == if loads {
                    load_step(al, if old(self).palette & 1 != 0 { 0xFFu16 } else { 0u16 })
                } else {
                    al
                }
                &&& final(self).shifter_attribute_high == if loads {
                    load_step(ah, if old(self).palette & 2 != 0 { 0xFFu16 } else { 0u16 })
                } else {
                    ah
                }
            }),
            ({
                let v = old(registers).vram_address.0;
                let fetch = (1 <= cycle <= 256 || 321 <= cycle <= 336);
                &&& fetch && cycle % 8 == 1 ==> final(self).pattern_table_tile == old(memory).byte_at(nametable_address(v))
                &&& !(fetch && cycle % 8 == 1) ==> final(self).pattern_table_tile == old(self).pattern_table_tile
                &&& fetch && cycle % 8 == 3 ==> final(self).palette == palette_bits(v, old(memory).byte_at(
                    attribute_address((v >> 10u16) & 3, attribute_index(v))))
                &&& !(fetch && cycle % 8 == 3) ==> final(self).palette == old(self).palette
                &&& fetch && cycle % 8 == 5 ==> final(self).pattern_table_tile_low == old(memory).byte_at(pattern_address(
                    old(registers).control.0 & 0x10 != 0, old(self).pattern_table_tile as u16, (v >> 12u16) & 7, false))
                &&& !(fetch && cycle % 8 == 5) ==> final(self).pattern_table_tile_low == old(self).pattern_table_tile_low
                &&& fetch && cycle % 8 == 7 ==> final(self).pattern_table_tile_high == old(memory).byte_at(pattern_address(
                    old(registers).control.0 & 0x10 != 0, old(self).pattern_table_tile as u16, (v >> 12u16) & 7, true))
                &&& !(fetch && cycle % 8 == 7) ==> final(self).pattern_table_tile_high == old(self).pattern_table_tile_high
            }),
    {
        if (cycle >= 2 && cycle <= 257) || (cycle >= 322 && cycle <= 337) {
            self.shift_registers(registers);
        }
        if (cycle >= 1 && cycle <= 256) || (cycle >= 321 && cycle <= 336) {
            self.load_tile(cycle, registers, memory);
            if cycle % 8 == 0 {
                registers.increment_horizontal();
            }
        }
        if cycle == 256 {
            registers.increment_vertical();
        }
        if cycle == 257 || cycle == 337 {
            self.load_shift_registers();
        }
        if cycle == 257 && registers.mask.is_rendering_enabled() {
            let tile_x = transfer_address.get_tile_x();
            registers.vram_address.set_tile_x(tile_x);
            let nametable_x = transfer_address.get_nametable_x();
            registers.vram_address.set_nametable_x(nametable_x);
        }
    }

    /// The background pixel under fine X: (pattern 0..3, palette 0..3).
    pub fn load_next_pixel(&self, registers: &Registers) -> (r: (u8, u8))
        requires
            registers.wf(),
        ensures
            registers.mask.0 & 0x08 != 0 ==> r == (
                (shifter_bit(self.shifter_pattern_high, registers.fine_x) << 1u8) | shifter_bit(self.shifter_pattern_low, registers.fine_x),
                (shifter_bit(self.shifter_attribute_high, registers.fine_x) << 1u8) | shifter_bit(self.shifter_attribute_low, registers.fine_x)),
            registers.mask.0 & 0x08 == 0 ==> r == (0u8, 0u8),
    {
        if registers.mask.get_show_background() {
            let fine_x = registers.fine_x;
            let pattern_low: u8 = if (self.shifter_pattern_low << fine_x) & 0x8000 != 0 { 1 } else { 0 };
            let pattern_high: u8 = if (self.shifter_pattern_high << fine_x) & 0x8000 != 0 { 1 } else { 0 };
            let palette_low: u8 = if (self.shifter_attribute_low << fine_x) & 0x8000 != 0 { 1 } else { 0 };
            let palette_high: u8 = if (self.shifter_attribute_high << fine_x) & 0x8000 != 0 { 1 } else { 0 };
            ((pattern_high << 1u8) | pattern_low, (palette_high << 1u8) | palette_low)
        } else {
            (0, 0)
        }
    }
}

} // verus!
