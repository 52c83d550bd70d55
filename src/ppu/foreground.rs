use vstd::prelude::*;
use crate::ppu::memory::PPUMemory;
use crate::ppu::registers::Registers;
use crate::ppu::sprites::{Sprite, SpriteAttribute, Sprites, evaluation_step, pattern_row};
use crate::ppu::memory::pattern_address;
use crate::ppu::utils::reversed_bits;

verus! {

/// The sprite pipeline: evaluation for the next line, and eight slots of
/// pattern shifters, attributes and X counters for the current one.
pub struct Foreground {
    pub shifter_patterns_low: Vec<u8>,
    pub shifter_patterns_high: Vec<u8>,
    pub sprite_attribute_bytes: Vec<SpriteAttribute>,
    pub sprite_x: Vec<u8>,
    pub oam_return_ff: bool,
    pub sprites: Sprites,
    pub show_sprite_zero: bool,
    pub sprite_zero_active: bool,
}

/// The two-bit pixel at the left edge of a slot's shifters.
pub open spec fn slot_pixel(low: u8, high: u8) -> u8 {
    ((high >> 6u8) & 2) | ((low >> 7u8) & 1)
}

/// The pattern byte (low or high plane) that a sprite shows on `scanline`,
/// flipped when the sprite is flipped horizontally.
pub open spec fn sprite_pattern<M: PPUMemory>(memory: M, sprite: Sprite, scanline: usize, control: u8, high: bool) -> u8 {
    let row = pattern_row(sprite.id, sprite.attribute.0 & 0x80 != 0, control & 0x20 != 0, control & 0x08 != 0,
        if scanline >= sprite.y as usize { ((scanline - sprite.y as int) % 0x10000) as u16 } else { 0 });
    let byte = memory.byte_at(pattern_address(row.0, row.1, row.2, high));
    if sprite.attribute.0 & 0x40 != 0 { reversed_bits(byte) } else { byte }
}

/// A slot-load dot `cycle` (257..320) of the sprite pipeline, from `o` to `n`.
pub open spec fn slot_loaded<M: PPUMemory>(o: Foreground, n: Foreground, cycle: usize, scanline: usize, control: u8, memory: M) -> bool {
    let index = (cycle - 257) / 8;
    let sprite = o.sprites.oam_secondary.data@[index];
    let used = index < o.sprites.sprite_count;
    &&& cycle % 8 == 0 ==> n.sprite_x@ == o.sprite_x@.update(index, sprite.x)
    &&& cycle % 8 != 0 ==> n.sprite_x == o.sprite_x
    &&& cycle % 8 == 3 ==> n.sprite_attribute_bytes@ == o.sprite_attribute_bytes@.update(index, sprite.attribute)
    &&& cycle % 8 != 3 ==> n.sprite_attribute_bytes == o.sprite_attribute_bytes
    &&& cycle % 8 == 5 ==> n.shifter_patterns_low@ == o.shifter_patterns_low@.update(index,
        if used { sprite_pattern(memory, sprite, scanline, control, false) } else { 0 })
    &&& cycle % 8 != 5 ==> n.shifter_patterns_low == o.shifter_patterns_low
    &&& cycle % 8 == 7 ==> n.shifter_patterns_high@ == o.shifter_patterns_high@.update(index,
        if used { sprite_pattern(memory, sprite, scanline, control, true) } else { 0 })
    &&& cycle % 8 != 7 ==> n.shifter_patterns_high == o.shifter_patterns_high
    &&& n.sprites == o.sprites
}

/// The first slot from `i` on whose X counter has run out and whose pixel is
/// opaque gives (pattern, palette, in front of the background); none gives
/// a transparent pixel.
pub open spec fn sprite_pixel_from(low: Seq<u8>, high: Seq<u8>, attributes: Seq<SpriteAttribute>, xs: Seq<u8>, i: int) -> (u8, u8, bool)
    decreases 8 - i,
{
    if i >= 8 || i < 0 {
        (0, 0, false)
    } else if xs[i] == 0 && slot_pixel(low[i], high[i]) != 0 {
        (slot_pixel(low[i], high[i]), attributes[i].0 & 3, attributes[i].0 & 0x20 == 0)
    } else {
        sprite_pixel_from(low, high, attributes, xs, i + 1)
    }
}

/// Slot `j` as it was.
pub open spec fn unshifted(old: &Foreground, new: &Foreground, j: int) -> bool {
    &&& new.sprite_x@[j] == old.sprite_x@[j]
    &&& new.shifter_patterns_low@[j] == old.shifter_patterns_low@[j]
    &&& new.shifter_patterns_high@[j] == old.shifter_patterns_high@[j]
}

/// Slot `j` after one shift: a running X counter counts down, else the
/// slot's pattern shifters move one bit left.
pub open spec fn shifted(old: &Foreground, new: &Foreground, j: int) -> bool {
    if old.sprite_x@[j] > 0 {
        &&& new.sprite_x@[j] == old.sprite_x@[j] - 1
        &&& new.shifter_patterns_low@[j] == old.shifter_patterns_low@[j]
        &&& new.shifter_patterns_high@[j] == old.shifter_patterns_high@[j]
    } else {
        &&& new.sprite_x@[j] == old.sprite_x@[j]
        &&& new.shifter_patterns_low@[j] == old.shifter_patterns_low@[j] << 1u8
        &&& new.shifter_patterns_high@[j] == old.shifter_patterns_high@[j] << 1u8
    }
}

impl Foreground {
    pub open spec fn wf(&self) -> bool {
        &&& self.shifter_patterns_low@.len() == 8
        &&& self.shifter_patterns_high@.len() == 8
        &&& self.sprite_attribute_bytes@.len() == 8
        &&& self.sprite_x@.len() == 8
        &&& self.sprites.wf()
    }

    pub fn new() -> (r: Self)
        ensures
            r.wf(),
            !r.show_sprite_zero && !r.sprite_zero_active,
    {
        Foreground {
            shifter_patterns_low: vec![0u8; 8],
            shifter_patterns_high: vec![0u8; 8],
            sprite_attribute_bytes: vec![SpriteAttribute(0); 8],
            sprite_x: vec![0u8; 8],
            oam_return_ff: false,
            sprites: Sprites::new(),
            show_sprite_zero: false,
            sprite_zero_active: false,
        }
    }

    /// One dot of the sprite pipeline on a visible line.
    pub fn tick<M: PPUMemory>(&mut self, cycle: usize, scanline: usize, registers: &mut Registers, memory: &mut M)
        requires
            old(memory).inv(),
            old(self).wf(),
            scanline < 240,
            old(registers).wf(),
        ensures
            final(memory).inv(),
            final(self).wf(),
            final(registers).wf(),
            final(registers).control == old(registers).control,
            final(registers).mask == old(registers).mask,
            final(registers).vram_address == old(registers).vram_address,
            final(registers).fine_x == old(registers).fine_x,
            final(self).show_sprite_zero == old(self).show_sprite_zero,
            final(registers).status.0 & 0x40 == old(registers).status.0 & 0x40,
            final(registers).status.0 & 0x80 == old(registers).status.0 & 0x80,
            *final(memory) == *old(memory),
            cycle == 0 ==> {
                &&& final(self).sprite_zero_active == old(self).sprites.sprite_zero_active
                &&& final(self).sprites.scanline == scanline
                &&& final(self).sprites.sprite_count == 0
                &&& final(self).sprites.sprite_evaluation_state == crate::ppu::sprites::SpriteEvaluationState::LoadY
            },
            1 <= cycle <= 64 ==> final(self).oam_return_ff,
            1 <= cycle <= 64 && cycle % 2 == 1 ==> final(self).sprites.oam_secondary.byte((cycle - 1) / 2) == 0xFF,
            65 <= cycle <= 256 ==> !final(self).oam_return_ff
                && (final(registers).status.0 & 0x20 != 0) == final(self).sprites.overflow,
            257 <= cycle <= 320 ==> final(self).sprites == old(self).sprites,
            2 <= cycle <= 256 && old(registers).mask.0 & 0x10 != 0 ==>
                forall|j: int| 0 <= j < 8 ==> #[trigger] shifted(old(self), final(self), j),
            2 <= cycle <= 256 && old(registers).mask.0 & 0x10 == 0 ==> {
                &&& final(self).sprite_x == old(self).sprite_x
                &&& final(self).shifter_patterns_low == old(self).shifter_patterns_low
                &&& final(self).shifter_patterns_high == old(self).shifter_patterns_high
            },
            65 <= cycle <= 256 ==> evaluation_step(old(self).sprites, final(self).sprites,
                if old(registers).control.0 & 0x20 != 0 { 16 } else { 8 }),
            258 <= cycle <= 320 ==> slot_loaded(*old(self), *final(self), cycle, scanline, old(registers).control.0, *old(memory)),
    {
        if cycle >= 2 && cycle < 258 {
            self.shift_registers(registers);
        }
        let ghost shifted_state = *self;
        if cycle == 0 {
            self.sprite_zero_active = self.sprites.is_sprite_zero_active();
            self.sprites.reset_evaluation(scanline);
        } else if cycle <= 64 {
            self.oam_return_ff = true;
            if cycle % 2 == 1 {
                self.sprites.oam_secondary.set_byte((cycle - 1) / 2, 0xFF);
            }
        } else if cycle <= 256 {
            self.oam_return_ff = false;
            let size: usize = if registers.control.get_sprite_size() { 16 } else { 8 };
            self.sprites.evaluate(size);
            let overflow = self.sprites.is_overflowing();
            let before = registers.status.0;
            registers.status.set_sprite_overflow(overflow);
            proof {
                let after = registers.status.0;
                assert((before | 0x20) & 0x40 == before & 0x40 && (before & !0x20u8) & 0x40 == before & 0x40
                    && (before | 0x20) & 0x20 != 0 && (before & !0x20u8) & 0x20 == 0
                    && (before | 0x20) & 0x80 == before & 0x80 && (before & !0x20u8) & 0x80 == before & 0x80) by (bit_vector);
            }
        } else if cycle <= 320 {
            self.load_sprites(cycle, scanline, registers, memory);
        }
        proof {
            if 2 <= cycle <= 256 && registers.mask.0 & 0x10 != 0 {
                assert forall|j: int| 0 <= j < 8 implies #[trigger] shifted(old(self), self, j) by {
                    assert(shifted(old(self), &shifted_state, j));
                }
            }
        }
    }

    /// Counts down each slot's X, then shifts the slots that have started.
    fn shift_registers(&mut self, registers: &Registers)
        requires
            old(self).wf(),
        ensures
            final(self).wf(),
            final(self).sprites == old(self).sprites,
            final(self).show_sprite_zero == old(self).show_sprite_zero,
            final(self).sprite_zero_active == old(self).sprite_zero_active,
            final(self).oam_return_ff == old(self).oam_return_ff,
            final(self).sprite_attribute_bytes == old(self).sprite_attribute_bytes,
            registers.mask.0 & 0x10 == 0 ==> *final(self) == *old(self),
            registers.mask.0 & 0x10 != 0 ==> forall|j: int| 0 <= j < 8 ==> #[trigger] shifted(old(self), final(self), j),
    {
        if registers.mask.get_show_sprites() {
            let mut i: usize = 0;
            while i < 8
                invariant
                    i <= 8,
                    self.wf(),
                    old(self).wf(),
                    self.sprites == old(self).sprites,
                    self.show_sprite_zero == old(self).show_sprite_zero,
                    self.sprite_zero_active == old(self).sprite_zero_active,
                    self.oam_return_ff == old(self).oam_return_ff,
                    self.sprite_attribute_bytes == old(self).sprite_attribute_bytes,
                    forall|j: int| 0 <= j < i ==> #[trigger] shifted(old(self), self, j),
                    forall|j: int| i <= j < 8 ==> #[trigger] unshifted(old(self), self, j),
                decreases 8 - i,
            {
                let ghost before = *self;
                if self.sprite_x[i] > 0 {
                    let x = self.sprite_x[i] - 1;
                    self.sprite_x.set(i, x);
                } else {
                    let low = self.shifter_patterns_low[i] << 1u8;
                    self.shifter_patterns_low.set(i, low);
                    let high = self.shifter_patterns_high[i] << 1u8;
                    self.shifter_patterns_high.set(i, high);
                }
                proof {
                    assert forall|j: int| 0 <= j < i + 1 implies #[trigger] shifted(old(self), self, j) by {
                        if j < i {
                            assert(shifted(old(self), &before, j));
                        } else {
                            assert(unshifted(old(self), &before, j));
                        }
                    }
                    assert forall|j: int| i + 1 <= j < 8 implies #[trigger] unshifted(old(self), self, j) by {
                        assert(unshifted(old(self), &before, j));
                    }
                }
                i = i + 1;
            }
        }
    }

    /// Loads slot `(cycle - 257) / 8` from secondary OAM; empty slots stay transparent.
    fn load_sprites<M: PPUMemory>(&mut self, cycle: usize, scanline: usize, registers: &Registers, memory: &mut M)
        requires
            old(memory).inv(),
            old(self).wf(),
            257 <= cycle <= 320,
        ensures
            final(memory).inv(),
            *final(memory) == *old(memory),
            final(self).wf(),
            final(self).show_sprite_zero == old(self).show_sprite_zero,
            final(self).sprite_zero_active == old(self).sprite_zero_active,
            final(self).oam_return_ff == old(self).oam_return_ff,
            final(self).sprites == old(self).sprites,
            ({
                let index = (cycle - 257) / 8;
                let sprite = old(self).sprites.oam_secondary.data@[index];
                &&& cycle % 8 == 0 ==> final(self).sprite_x@ == old(self).sprite_x@.update(index, sprite.x)
                &&& cycle % 8 != 0 ==> final(self).sprite_x == old(self).sprite_x
                &&& cycle % 8 == 3 ==> final(self).sprite_attribute_bytes@ == old(self).sprite_attribute_bytes@.update(index, sprite.attribute)
                &&& cycle % 8 != 3 ==> final(self).sprite_attribute_bytes == old(self).sprite_attribute_bytes
                &&& cycle % 8 == 5 ==> final(self).shifter_patterns_low@ == old(self).shifter_patterns_low@.update(index, final(self).shifter_patterns_low@[index])
                    && (index >= old(self).sprites.sprite_count ==> final(self).shifter_patterns_low@[index] == 0)
                &&& cycle % 8 != 5 ==> final(self).shifter_patterns_low == old(self).shifter_patterns_low
                &&& cycle % 8 == 7 ==> final(self).shifter_patterns_high@ == old(self).shifter_patterns_high@.update(index, final(self).shifter_patterns_high@[index])
                    && (index >= old(self).sprites.sprite_count ==> final(self).shifter_patterns_high@[index] == 0)
                &&& cycle % 8 != 7 ==> final(self).shifter_patterns_high == old(self).shifter_patterns_high
            }),
            slot_loaded(*old(self), *final(self), cycle, scanline, registers.control.0, *old(memory)),
    {
        let index = (cycle - 257) / 8;
        let sprite = *self.sprites.oam_secondary.get_sprite(index);
        let used = index < self.sprites.sprite_count;
        let phase = cycle % 8;
        if phase == 0 {
            self.sprite_x.set(index, sprite.get_x());
        } else if phase == 3 {
            self.sprite_attribute_bytes.set(index, sprite.get_attribute());
        } else if phase == 5 {
            let low = if used { sprite.get_pattern_low(scanline, registers, memory) } else { 0 };
            self.shifter_patterns_low.set(index, low);
        } else if phase == 7 {
            let high = if used { sprite.get_pattern_high(scanline, registers, memory) } else { 0 };
            self.shifter_patterns_high.set(index, high);
        }
    }

    /// The first opaque sprite pixel at this dot: (pattern, palette, in front
    /// of the background). Marks sprite zero when slot 0 supplies it.
    pub fn load_next_pixel(&mut self, registers: &Registers) -> (r: (u8, u8, bool))
        requires
            old(self).wf(),
        ensures
            final(self).wf(),
            final(self).sprites == old(self).sprites,
            final(self).sprite_zero_active == old(self).sprite_zero_active,
            registers.mask.0 & 0x10 == 0 ==> r == (0u8, 0u8, false) && *final(self) == *old(self),
            registers.mask.0 & 0x10 != 0 ==> r == sprite_pixel_from(old(self).shifter_patterns_low@, old(self).shifter_patterns_high@,
                old(self).sprite_attribute_bytes@, old(self).sprite_x@, 0),
            final(self).shifter_patterns_low == old(self).shifter_patterns_low,
            final(self).shifter_patterns_high == old(self).shifter_patterns_high,
            final(self).sprite_attribute_bytes == old(self).sprite_attribute_bytes,
            final(self).sprite_x == old(self).sprite_x,
            final(self).oam_return_ff == old(self).oam_return_ff,
            final(self).show_sprite_zero ==> old(self).show_sprite_zero || r.0 != 0,
            r.0 < 4 && r.1 < 4,
    {
        if registers.mask.get_show_sprites() {
            let mut i: usize = 0;
            while i < 8
                invariant
                    self.wf(),
                    *self == *old(self),
                    registers.mask.0 & 0x10 != 0,
                    i <= 8,
                    sprite_pixel_from(self.shifter_patterns_low@, self.shifter_patterns_high@,
                        self.sprite_attribute_bytes@, self.sprite_x@, 0) == sprite_pixel_from(self.shifter_patterns_low@,
                        self.shifter_patterns_high@, self.sprite_attribute_bytes@, self.sprite_x@, i as int),
                decreases 8 - i,
            {
                if self.sprite_x[i] == 0 {
                    let low = self.shifter_patterns_low[i];
                    let high = self.shifter_patterns_high[i];
                    let pixel = ((high >> 6u8) & 2) | ((low >> 7u8) & 1);
                    if pixel != 0 {
                        if i == 0 {
                            self.show_sprite_zero = true;
                        }
                        let attribute = self.sprite_attribute_bytes[i];
                        proof {
                            assert(((high >> 6u8) & 2) | ((low >> 7u8) & 1) < 4) by (bit_vector);
                            let a = attribute.0;
                            assert(a & 3 < 4) by (bit_vector);
                        }
                        return (pixel, attribute.get_palette(), !attribute.get_priority());
                    }
                }
                i = i + 1;
            }
        }
        (0, 0, false)
    }

    pub fn oam_return_ff(&self) -> (r: bool)
        ensures
            r == self.oam_return_ff,
    {
        self.oam_return_ff
    }

    pub fn get_sprites(&mut self) -> (r: &mut Sprites)
        ensures
            *r == old(self).sprites,
    {
        &mut self.sprites
    }
}

} // verus!
