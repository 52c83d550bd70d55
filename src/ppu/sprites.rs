use vstd::prelude::*;
use crate::ppu::memory::{PPUMemory, pattern_address, read_pattern_table_tile_high, read_pattern_table_tile_low};
use crate::ppu::oam::OAM;
use crate::ppu::registers::Registers;
use crate::ppu::utils::{flip_byte, reversed_bits};

verus! {

/// A sprite's attribute byte: palette (0..1), priority (5), flips (6, 7).
#[derive(Clone, Copy, PartialEq, Eq, Structural, Debug)]
pub struct SpriteAttribute(pub u8);

impl SpriteAttribute {
    pub fn new() -> (r: Self)
        ensures
            r.0 == 0,
    {
        SpriteAttribute(0)
    }

    pub fn get(&self) -> (r: u8)
        ensures
            r == self.0,
    {
        self.0
    }

    pub fn set(&mut self, value: u8)
        ensures
            final(self).0 == value,
    {
        self.0 = value;
    }

    pub fn get_palette(&self) -> (r: u8)
        ensures
            r == self.0 & 3,
    {
        self.0 & 3
    }

    /// True: the sprite is drawn behind the background.
    pub fn get_priority(&self) -> (r: bool)
        ensures
            r == (self.0 & 0x20 != 0),
    {
        self.0 & 0x20 != 0
    }

    pub fn get_flip_horizontal(&self) -> (r: bool)
        ensures
            r == (self.0 & 0x40 != 0),
    {
        self.0 & 0x40 != 0
    }

    pub fn get_flip_vertical(&self) -> (r: bool)
        ensures
            r == (self.0 & 0x80 != 0),
    {
        self.0 & 0x80 != 0
    }
}

/// One OAM entry.
#[derive(Clone, Copy, PartialEq, Eq, Structural, Debug)]
pub struct Sprite {
    pub y: u8,
    pub id: u8,
    pub attribute: SpriteAttribute,
    pub x: u8,
}

/// Byte `index` of a sprite's four: y, tile id, attribute, x.
pub open spec fn sprite_byte(s: Sprite, index: int) -> u8 {
    if index == 0 {
        s.y
    } else if index == 1 {
        s.id
    } else if index == 2 {
        s.attribute.0
    } else {
        s.x
    }
}

/// Which tile row a sprite line comes from: the pattern table, the tile and
/// the row within it, for a sprite `y_dif` lines below its top.
pub open spec fn pattern_row(id: u8, flip_vertical: bool, tall: bool, table: bool, y_dif: u16) -> (bool, u16, u16) {
    if !tall {
        if !flip_vertical {
            (table, id as u16, y_dif % 8)
        } else {
            (table, id as u16, (7 - (y_dif % 8)) as u16)
        }
    } else {
        let row = y_dif % 16;
        if !flip_vertical {
            if row < 8 {
                (id & 1 != 0, (id & 0xFE) as u16, row)
            } else {
                (id & 1 != 0, (id | 1) as u16, row & 7)
            }
        } else {
            if row < 8 {
                (id & 1 != 0, (id | 1) as u16, (7 - row) as u16)
            } else {
                (id & 1 != 0, (id & 0xFE) as u16, (15 - row) as u16)
            }
        }
    }
}

impl Sprite {
    pub open spec fn zeroed() -> Sprite {
        Sprite { y: 0, id: 0, attribute: SpriteAttribute(0), x: 0 }
    }

    pub fn new() -> (r: Self)
        ensures
            r == Sprite::zeroed(),
    {
        Sprite { y: 0, id: 0, attribute: SpriteAttribute::new(), x: 0 }
    }

    pub fn get(&self, index: usize) -> (r: u8)
        requires
            index < 4,
        ensures
            r == sprite_byte(*self, index as int),
    {
        if index == 0 {
            self.y
        } else if index == 1 {
            self.id
        } else if index == 2 {
            self.attribute.get()
        } else {
            self.x
        }
    }

    pub fn set(&mut self, index: usize, value: u8)
        requires
            index < 4,
        ensures
            sprite_byte(*final(self), index as int) == value,
            forall|j: int| 0 <= j < 4 && j != index ==> sprite_byte(*final(self), j) == sprite_byte(*old(self), j),
    {
        if index == 0 {
            self.y = value;
        } else if index == 1 {
            self.id = value;
        } else if index == 2 {
            self.attribute.set(value);
        } else {
            self.x = value;
        }
    }

    pub fn get_y(&self) -> (r: u8)
        ensures
            r == self.y,
    {
        self.y
    }

    pub fn get_id(&self) -> (r: u8)
        ensures
            r == self.id,
    {
        self.id
    }

    pub fn get_attribute(&self) -> (r: SpriteAttribute)
        ensures
            r == self.attribute,
    {
        self.attribute
    }

    pub fn get_x(&self) -> (r: u8)
        ensures
            r == self.x,
    {
        self.x
    }

    fn get_pattern_table_index(&self, scanline: usize, registers: &Registers) -> (r: (bool, u16, u16))
        ensures
            r == pattern_row(self.id, self.attribute.0 & 0x80 != 0, registers.control.0 & 0x20 != 0,
                registers.control.0 & 0x08 != 0,
                if scanline >= self.y as usize { ((scanline - self.y as int) % 0x10000) as u16 } else { 0 }),
    {
        let y_dif: u16 = if scanline >= self.y as usize { ((scanline - self.y as usize) % 0x10000) as u16 } else { 0 };
        let id = self.id;
        let flip = self.attribute.get_flip_vertical();
        if !registers.control.get_sprite_size() {
            let table = registers.control.get_sprite_pattern_table();
            if !flip {
                (table, id as u16, y_dif % 8)
            } else {
                (table, id as u16, 7 - (y_dif % 8))
            }
        } else {
            let row = y_dif % 16;
            if !flip {
                if row < 8 {
                    (id & 1 != 0, (id & 0xFE) as u16, row)
                } else {
                    (id & 1 != 0, (id | 1) as u16, row & 7)
                }
            } else {
                if row < 8 {
                    (id & 1 != 0, (id | 1) as u16, 7 - row)
                } else {
                    (id & 1 != 0, (id & 0xFE) as u16, 15 - row)
                }
            }
        }
    }

    /// The low plane of the sprite's row on `scanline`, flipped if asked.
    pub fn get_pattern_low<M: PPUMemory>(&self, scanline: usize, registers: &Registers, memory: &mut M) -> (r: u8)
        requires
            old(memory).inv(),
        ensures
            final(memory).inv(),
            *final(memory) == *old(memory),
            ({
                let row = pattern_row(self.id, self.attribute.0 & 0x80 != 0, registers.control.0 & 0x20 != 0,
                    registers.control.0 & 0x08 != 0,
                    if scanline >= self.y as usize { ((scanline - self.y as int) % 0x10000) as u16 } else { 0 });
                let byte = old(memory).byte_at(pattern_address(row.0, row.1, row.2, false));
                if self.attribute.0 & 0x40 != 0 { r == reversed_bits(byte) } else { r == byte }
            }),
    {
        let (table, tile, y) = self.get_pattern_table_index(scanline, registers);
        let pattern = read_pattern_table_tile_low(memory, table, tile, y);
        if self.attribute.get_flip_horizontal() {
            flip_byte(pattern)
        } else {
            pattern
        }
    }

    /// The high plane of the sprite's row on `scanline`, flipped if asked.
    pub fn get_pattern_high<M: PPUMemory>(&self, scanline: usize, registers: &Registers, memory: &mut M) -> (r: u8)
        requires
            old(memory).inv(),
        ensures
            final(memory).inv(),
            *final(memory) == *old(memory),
            ({
                let row = pattern_row(self.id, self.attribute.0 & 0x80 != 0, registers.control.0 & 0x20 != 0,
                    registers.control.0 & 0x08 != 0,
                    if scanline >= self.y as usize { ((scanline - self.y as int) % 0x10000) as u16 } else { 0 });
                let byte = old(memory).byte_at(pattern_address(row.0, row.1, row.2, true));
                if self.attribute.0 & 0x40 != 0 { r == reversed_bits(byte) } else { r == byte }
            }),
    {
        let (table, tile, y) = self.get_pattern_table_index(scanline, registers);
        let pattern = read_pattern_table_tile_high(memory, table, tile, y);
        if self.attribute.get_flip_horizontal() {
            flip_byte(pattern)
        } else {
            pattern
        }
    }
}

#[derive(Clone, Copy, PartialEq, Eq, Structural, Debug)]
pub enum SpriteEvaluationState {
    LoadY,
    LoadSprite,
    Overflow,
    End,
}

/// Whether a sprite whose top is `y` covers `scanline`.
pub open spec fn in_range(y: u8, scanline: int, size: int) -> bool {
    y <= scanline < y + size
}

/// One step of the sprite-evaluation walk from `o` to `n` for sprites
/// `sprite_size` lines tall.
pub open spec fn evaluation_step(o: Sprites, n: Sprites, sprite_size: usize) -> bool {
    &&& (n.oam_primary == o.oam_primary)
    &&& (n.scanline == o.scanline)
    &&& (n.sprite_count >= o.sprite_count)
    &&& (o.overflow ==> n.overflow)
    &&& (n.overflow && !o.overflow ==> {
                    &&& o.sprite_evaluation_state == SpriteEvaluationState::Overflow
                    &&& in_range(o.oam_primary.data@[o.oam_index as int].spec_byte(o.sprite_index as int),
                        o.scanline as int, sprite_size as int)
                    &&& o.sprite_count == 8
                })
    &&& (o.sprite_evaluation_state == SpriteEvaluationState::End ==> n == o)
    &&& (o.sprite_evaluation_state == SpriteEvaluationState::LoadY ==> {
                    let y = o.oam_primary.data@[o.oam_index as int].spec_byte(o.sprite_index as int);
                    &&& in_range(y, o.scanline as int, sprite_size as int)
                        ==> n.sprite_evaluation_state == SpriteEvaluationState::LoadSprite
                            && n.oam_secondary.data@[o.sprite_count as int].spec_byte(o.sprite_index as int) == y
                    &&& !in_range(y, o.scanline as int, sprite_size as int)
                        ==> n.oam_index == o.oam_index + 1 && n.sprite_count == o.sprite_count
                })
    &&& (o.sprite_evaluation_state == SpriteEvaluationState::LoadSprite ==> {
                    &&& n.oam_secondary.data@[o.sprite_count as int].spec_byte(o.sprite_index as int)
                        == o.oam_primary.data@[o.oam_index as int].spec_byte(o.sprite_index as int)
                    &&& o.sprite_index == 3 ==> n.sprite_count == o.sprite_count + 1
                        && n.oam_index == o.oam_index + 1 && n.sprite_index == 0
                    &&& o.sprite_index < 3 ==> n.sprite_index == o.sprite_index + 1
                        && n.sprite_evaluation_state == SpriteEvaluationState::LoadSprite
                        && n.sprite_count == o.sprite_count && n.oam_index == o.oam_index
                })
    &&& (o.sprite_evaluation_state == SpriteEvaluationState::Overflow ==> {
                    let y = o.oam_primary.data@[o.oam_index as int].spec_byte(o.sprite_index as int);
                    &&& in_range(y, o.scanline as int, sprite_size as int)
                        ==> n.overflow && n.sprite_evaluation_state == SpriteEvaluationState::End
                    &&& !in_range(y, o.scanline as int, sprite_size as int) ==> n.oam_index == o.oam_index + 1
                        && n.sprite_index == (o.sprite_index + 1) % 4
                })
}

/// Primary and secondary OAM, and the sprite-evaluation walk that fills the
/// secondary table with the sprites of the next scanline.
pub struct Sprites {
    pub sprite_evaluation_state: SpriteEvaluationState,
    pub oam_primary: OAM,
    pub oam_secondary: OAM,
    pub oam_index: usize,
    pub sprite_index: usize,
    pub sprite_count: usize,
    pub sprite_zero_active: bool,
    pub overflow: bool,
    pub scanline: usize,
}

impl Sprites {
    pub open spec fn wf(&self) -> bool {
        &&& self.oam_primary.data@.len() == 64
        &&& self.oam_secondary.data@.len() == 8
        &&& self.oam_index <= 64
        &&& self.sprite_index < 4
        &&& self.sprite_count <= 8
        &&& self.scanline <= 261
        &&& (self.sprite_evaluation_state == SpriteEvaluationState::LoadY
            || self.sprite_evaluation_state == SpriteEvaluationState::LoadSprite) ==> self.oam_index < 64 && self.sprite_count < 8
        &&& self.sprite_evaluation_state == SpriteEvaluationState::Overflow ==> self.oam_index < 64 && self.sprite_count == 8
    }

    pub fn new() -> (r: Self)
        ensures
            r.wf(),
            !r.overflow,
    {
        Sprites {
            sprite_evaluation_state: SpriteEvaluationState::LoadY,
            oam_primary: OAM::new(64),
            oam_secondary: OAM::new(8),
            oam_index: 0,
            sprite_index: 0,
            sprite_count: 0,
            sprite_zero_active: false,
            overflow: false,
            scanline: 0,
        }
    }

    /// Starts a new walk of primary OAM for `scanline`.
    pub fn reset_evaluation(&mut self, scanline: usize)
        requires
            old(self).wf(),
            scanline <= 261,
        ensures
            final(self).wf(),
            final(self).sprite_evaluation_state == SpriteEvaluationState::LoadY,
            final(self).oam_index == 0 && final(self).sprite_index == 0 && final(self).sprite_count == 0,
            !final(self).sprite_zero_active && !final(self).overflow,
            final(self).scanline == scanline,
            final(self).oam_primary == old(self).oam_primary,
            final(self).oam_secondary == old(self).oam_secondary,
    {
        self.sprite_evaluation_state = SpriteEvaluationState::LoadY;
        self.oam_index = 0;
        self.sprite_index = 0;
        self.sprite_count = 0;
        self.sprite_zero_active = false;
        self.overflow = false;
        self.scanline = scanline;
    }

    pub fn get_oam_primary(&mut self) -> (r: &mut OAM)
        ensures
            *r == old(self).oam_primary,
    {
        &mut self.oam_primary
    }

    pub fn get_oam_secondary(&mut self) -> (r: &mut OAM)
        ensures
            *r == old(self).oam_secondary,
    {
        &mut self.oam_secondary
    }

    pub fn is_sprite_zero_active(&self) -> (r: bool)
        ensures
            r == self.sprite_zero_active,
    {
        self.sprite_zero_active
    }

    pub fn is_overflowing(&self) -> (r: bool)
        ensures
            r == self.overflow,
    {
        self.overflow
    }

    /// One step of the evaluation walk for sprites `sprite_size` lines tall.
    pub fn evaluate(&mut self, sprite_size: usize)
        requires
            old(self).wf(),
            sprite_size == 8 || sprite_size == 16,
        ensures
            final(self).wf(),
            evaluation_step(*old(self), *final(self), sprite_size),
            final(self).oam_primary == old(self).oam_primary,
            final(self).scanline == old(self).scanline,
            final(self).sprite_count >= old(self).sprite_count,
            old(self).overflow ==> final(self).overflow,
            final(self).overflow && !old(self).overflow ==> {
                &&& old(self).sprite_evaluation_state == SpriteEvaluationState::Overflow
                &&& in_range(old(self).oam_primary.data@[old(self).oam_index as int].spec_byte(old(self).sprite_index as int),
                    old(self).scanline as int, sprite_size as int)
                &&& old(self).sprite_count == 8
            },
            old(self).sprite_evaluation_state == SpriteEvaluationState::End ==> *final(self) == *old(self),
            old(self).sprite_evaluation_state == SpriteEvaluationState::LoadY ==> {
                let y = old(self).oam_primary.data@[old(self).oam_index as int].spec_byte(old(self).sprite_index as int);
                &&& in_range(y, old(self).scanline as int, sprite_size as int)
                    ==> final(self).sprite_evaluation_state == SpriteEvaluationState::LoadSprite
                        && final(self).oam_secondary.data@[old(self).sprite_count as int].spec_byte(old(self).sprite_index as int) == y
                &&& !in_range(y, old(self).scanline as int, sprite_size as int)
                    ==> final(self).oam_index == old(self).oam_index + 1 && final(self).sprite_count == old(self).sprite_count
            },
            old(self).sprite_evaluation_state == SpriteEvaluationState::LoadSprite ==> {
                &&& final(self).oam_secondary.data@[old(self).sprite_count as int].spec_byte(old(self).sprite_index as int)
                    == old(self).oam_primary.data@[old(self).oam_index as int].spec_byte(old(self).sprite_index as int)
                &&& old(self).sprite_index == 3 ==> final(self).sprite_count == old(self).sprite_count + 1
                    && final(self).oam_index == old(self).oam_index + 1 && final(self).sprite_index == 0
                &&& old(self).sprite_index < 3 ==> final(self).sprite_index == old(self).sprite_index + 1
                    && final(self).sprite_evaluation_state == SpriteEvaluationState::LoadSprite
                    && final(self).sprite_count == old(self).sprite_count && final(self).oam_index == old(self).oam_index
            },
            old(self).sprite_evaluation_state == SpriteEvaluationState::Overflow ==> {
                let y = old(self).oam_primary.data@[old(self).oam_index as int].spec_byte(old(self).sprite_index as int);
                &&& in_range(y, old(self).scanline as int, sprite_size as int)
                    ==> final(self).overflow && final(self).sprite_evaluation_state == SpriteEvaluationState::End
                &&& !in_range(y, old(self).scanline as int, sprite_size as int) ==> final(self).oam_index == old(self).oam_index + 1
                    && final(self).sprite_index == (old(self).sprite_index + 1) % 4
            },
            ({
                let st = old(self).sprite_evaluation_state;
                let y = old(self).oam_primary.data@[old(self).oam_index as int].spec_byte(old(self).sprite_index as int);
                let hit = in_range(y, old(self).scanline as int, sprite_size as int);
                let slot = old(self).sprite_count as int;
                let after = if old(self).oam_index + 1 >= 64 {
                    SpriteEvaluationState::End
                } else if old(self).sprite_count < 8 {
                    SpriteEvaluationState::LoadY
                } else {
                    SpriteEvaluationState::Overflow
                };
                &&& final(self).sprite_zero_active == (old(self).sprite_zero_active
                    || (st == SpriteEvaluationState::LoadY && hit && old(self).oam_index == 0))
                &&& (st == SpriteEvaluationState::LoadY || st == SpriteEvaluationState::LoadSprite) ==> {
                    &&& final(self).oam_secondary.data@ == old(self).oam_secondary.data@.update(slot, final(self).oam_secondary.data@[slot])
                    &&& forall|k: int| 0 <= k < 4 && k != old(self).sprite_index ==>
                        #[trigger] final(self).oam_secondary.data@[slot].spec_byte(k) == old(self).oam_secondary.data@[slot].spec_byte(k)
                }
                &&& (st == SpriteEvaluationState::Overflow || st == SpriteEvaluationState::End || (st == SpriteEvaluationState::LoadY && !hit))
                    ==> final(self).oam_secondary == old(self).oam_secondary
                &&& st == SpriteEvaluationState::LoadY && !hit ==> final(self).sprite_evaluation_state == after
                    && final(self).sprite_index == old(self).sprite_index
                &&& st == SpriteEvaluationState::LoadSprite && old(self).sprite_index == 3 ==> final(self).sprite_evaluation_state == (
                    if old(self).oam_index + 1 >= 64 { SpriteEvaluationState::End } else if old(self).sprite_count + 1 < 8 {
                        SpriteEvaluationState::LoadY } else { SpriteEvaluationState::Overflow })
                &&& st == SpriteEvaluationState::Overflow && !hit ==> final(self).sprite_evaluation_state == (
                    if old(self).oam_index + 1 > 63 { SpriteEvaluationState::End } else { SpriteEvaluationState::Overflow })
                &&& st == SpriteEvaluationState::LoadY && hit ==> final(self).sprite_index == old(self).sprite_index
                    && final(self).oam_index == old(self).oam_index && final(self).sprite_count == old(self).sprite_count
            }),
    {
        match self.sprite_evaluation_state {
            SpriteEvaluationState::LoadY => {
                let y = self.oam_primary.get_sprite(self.oam_index).get(self.sprite_index);
                if self.sprite_in_scanline(y, sprite_size) {
                    let mut slot = *self.oam_secondary.get_sprite(self.sprite_count);
                    slot.set(self.sprite_index, y);
                    self.oam_secondary.set_sprite(self.sprite_count, slot);
                    if self.oam_index == 0 {
                        self.sprite_zero_active = true;
                    }
                    self.sprite_evaluation_state = SpriteEvaluationState::LoadSprite;
                } else {
                    self.sprite_evaluation_state = self.increment_oam_index();
                }
            },
            SpriteEvaluationState::LoadSprite => {
                let data = self.oam_primary.get_sprite(self.oam_index).get(self.sprite_index);
                let mut slot = *self.oam_secondary.get_sprite(self.sprite_count);
                slot.set(self.sprite_index, data);
                self.oam_secondary.set_sprite(self.sprite_count, slot);
                if self.sprite_index == 3 {
                    self.sprite_index = 0;
                    self.sprite_count = self.sprite_count + 1;
                    self.sprite_evaluation_state = self.increment_oam_index();
                } else {
                    self.sprite_index = self.sprite_index + 1;
                    self.sprite_evaluation_state = SpriteEvaluationState::LoadSprite;
                }
            },
            SpriteEvaluationState::Overflow => {
                let y = self.oam_primary.get_sprite(self.oam_index).get(self.sprite_index);
                if self.sprite_in_scanline(y, sprite_size) {
                    self.overflow = true;
                    self.sprite_evaluation_state = SpriteEvaluationState::End;
                } else {
                    self.oam_index = self.oam_index + 1;
                    self.sprite_index = (self.sprite_index + 1) % 4;
                    if self.oam_index > 63 {
                        self.sprite_evaluation_state = SpriteEvaluationState::End;
                    } else {
                        self.sprite_evaluation_state = SpriteEvaluationState::Overflow;
                    }
                }
            },
            SpriteEvaluationState::End => {},
        }
        assert(evaluation_step(*old(self), *self, sprite_size));
    }

    fn sprite_in_scanline(&self, sprite_y: u8, sprite_size: usize) -> (r: bool)
        requires
            self.scanline <= 261,
            sprite_size <= 16,
        ensures
            r == in_range(sprite_y, self.scanline as int, sprite_size as int),
    {
        let y = sprite_y as usize;
        y <= self.scanline && y + sprite_size > self.scanline
    }

    /// Moves to the next primary sprite; the state that follows.
    fn increment_oam_index(&mut self) -> (r: SpriteEvaluationState)
        requires
            old(self).oam_index < 64,
        ensures
            final(self).oam_index == old(self).oam_index + 1,
            final(self).sprite_index == old(self).sprite_index,
            final(self).sprite_count == old(self).sprite_count,
            final(self).oam_primary == old(self).oam_primary,
            final(self).oam_secondary == old(self).oam_secondary,
            final(self).overflow == old(self).overflow,
            final(self).scanline == old(self).scanline,
            final(self).sprite_zero_active == old(self).sprite_zero_active,
            r == if final(self).oam_index >= 64 {
                SpriteEvaluationState::End
            } else if old(self).sprite_count < 8 {
                SpriteEvaluationState::LoadY
            } else {
                SpriteEvaluationState::Overflow
            },
    {
        self.oam_index = self.oam_index + 1;
        if self.oam_index >= 64 {
            SpriteEvaluationState::End
        } else if self.sprite_count < 8 {
            SpriteEvaluationState::LoadY
        } else {
            SpriteEvaluationState::Overflow
        }
    }
}

impl Sprite {
    pub open spec fn spec_byte(&self, index: int) -> u8 {
        sprite_byte(*self, index)
    }
}

} // verus!
