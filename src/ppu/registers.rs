use vstd::prelude::*;

verus! {

/// Facts about the 15-bit VRAM address that the bit-vector solver proves once.
pub proof fn lemma_vram_bits(x: u16, y: u16)
    ensures
        x & 0x7FFF < 0x8000,
        x < 0x8000 ==> x & 0x7FFF == x,
        x < 0x8000 ==> (x & !y) < 0x8000,
        x < 0x8000 && y < 0x8000 ==> (x | y) < 0x8000,
        (x & 0x7FFF) | (y & 0x7FFF) < 0x8000,
{
    assert(x & 0x7FFF < 0x8000) by (bit_vector);
    assert(x < 0x8000 ==> x & 0x7FFF == x) by (bit_vector);
    assert(x < 0x8000 ==> (x & !y) < 0x8000) by (bit_vector);
    assert(x < 0x8000 && y < 0x8000 ==> (x | y) < 0x8000) by (bit_vector);
    assert((x & 0x7FFF) | (y & 0x7FFF) < 0x8000) by (bit_vector);
}

/// PPUCTRL.
pub struct Control(pub u8);

impl Control {
    pub fn new() -> (r: Self)
        ensures
            r.0 == 0,
    {
        Control(0)
    }

    pub fn set(&mut self, value: u8)
        ensures
            final(self).0 == value,
    {
        self.0 = value;
    }

    pub fn get_nametable_x(&self) -> (r: bool)
        ensures
            r == (self.0 & 0x01 != 0),
    {
        self.0 & 0x01 != 0
    }

    pub fn get_nametable_y(&self) -> (r: bool)
        ensures
            r == (self.0 & 0x02 != 0),
    {
        self.0 & 0x02 != 0
    }

    /// True: the VRAM address advances by 32 per data access, else by 1.
    pub fn get_vram_increment(&self) -> (r: bool)
        ensures
            r == (self.0 & 0x04 != 0),
    {
        self.0 & 0x04 != 0
    }

    pub fn get_sprite_pattern_table(&self) -> (r: bool)
        ensures
            r == (self.0 & 0x08 != 0),
    {
        self.0 & 0x08 != 0
    }

    pub fn get_background_pattern_table(&self) -> (r: bool)
        ensures
            r == (self.0 & 0x10 != 0),
    {
        self.0 & 0x10 != 0
    }

    /// True: sprites are 8×16, else 8×8.
    pub fn get_sprite_size(&self) -> (r: bool)
        ensures
            r == (self.0 & 0x20 != 0),
    {
        self.0 & 0x20 != 0
    }

    pub fn get_generate_nmi(&self) -> (r: bool)
        ensures
            r == (self.0 & 0x80 != 0),
    {
        self.0 & 0x80 != 0
    }
}

/// PPUMASK.
pub struct Mask(pub u8);

impl Mask {
    pub open spec fn rendering(&self) -> bool {
        self.0 & 0x10 != 0 || self.0 & 0x08 != 0
    }

    pub fn new() -> (r: Self)
        ensures
            r.0 == 0,
    {
        Mask(0)
    }

    pub fn set(&mut self, value: u8)
        ensures
            final(self).0 == value,
    {
        self.0 = value;
    }

    pub fn is_rendering_enabled(&self) -> (r: bool)
        ensures
            r == (self.0 & 0x10 != 0 || self.0 & 0x08 != 0),
    {
        self.get_show_sprites() || self.get_show_background()
    }

    pub fn get_grayscale(&self) -> (r: bool)
        ensures
            r == (self.0 & 0x01 != 0),
    {
        self.0 & 0x01 != 0
    }

    pub fn get_show_background_leftmost_pixels(&self) -> (r: bool)
        ensures
            r == (self.0 & 0x02 != 0),
    {
        self.0 & 0x02 != 0
    }

    pub fn get_show_sprites_leftmost_pixels(&self) -> (r: bool)
        ensures
            r == (self.0 & 0x04 != 0),
    {
        self.0 & 0x04 != 0
    }

    pub fn get_show_background(&self) -> (r: bool)
        ensures
            r == (self.0 & 0x08 != 0),
    {
        self.0 & 0x08 != 0
    }

    pub fn get_show_sprites(&self) -> (r: bool)
        ensures
            r == (self.0 & 0x10 != 0),
    {
        self.0 & 0x10 != 0
    }

    pub fn get_emphasize_red(&self) -> (r: bool)
        ensures
            r == (self.0 & 0x20 != 0),
    {
        self.0 & 0x20 != 0
    }

    pub fn get_emphasize_green(&self) -> (r: bool)
        ensures
            r == (self.0 & 0x40 != 0),
    {
        self.0 & 0x40 != 0
    }

    pub fn get_emphasize_blue(&self) -> (r: bool)
        ensures
            r == (self.0 & 0x80 != 0),
    {
        self.0 & 0x80 != 0
    }
}

/// PPUSTATUS: sprite overflow (bit 5), sprite-0 hit (bit 6), vertical blank (bit 7).
pub struct Status(pub u8);

impl Status {
    pub fn new() -> (r: Self)
        ensures
            r.0 == 0,
    {
        Status(0)
    }

    pub fn get(&self) -> (r: u8)
        ensures
            r == self.0,
    {
        self.0
    }

    fn set_bit(&mut self, mask: u8, value: bool)
        ensures
            final(self).0 == if value { old(self).0 | mask } else { old(self).0 & !mask },
    {
        if value {
            self.0 = self.0 | mask;
        } else {
            self.0 = self.0 & !mask;
        }
    }

    pub fn set_sprite_overflow(&mut self, value: bool)
        ensures
            final(self).0 == if value { old(self).0 | 0x20 } else { old(self).0 & !0x20u8 },
    {
        self.set_bit(0x20, value)
    }

    pub fn set_sprite_0_hit(&mut self, value: bool)
        ensures
            final(self).0 == if value { old(self).0 | 0x40 } else { old(self).0 & !0x40u8 },
    {
        self.set_bit(0x40, value)
    }

    pub fn get_sprite_0_hit(&self) -> (r: bool)
        ensures
            r == (self.0 & 0x40 != 0),
    {
        self.0 & 0x40 != 0
    }

    pub fn get_started_vertical_blank(&self) -> (r: bool)
        ensures
            r == (self.0 & 0x80 != 0),
    {
        self.0 & 0x80 != 0
    }

    pub fn set_started_vertical_blank(&mut self, value: bool)
        ensures
            final(self).0 == if value { old(self).0 | 0x80 } else { old(self).0 & !0x80u8 },
    {
        self.set_bit(0x80, value)
    }
}

/// The address with the bits of `mask` replaced by `value << shift`.
pub open spec fn with_field(v: u16, mask: u16, shift: u16, value: u16) -> u16 {
    (v & !mask) | ((value << shift) & mask)
}

/// A 15-bit VRAM address, packed fine Y (12..14), nametable Y (11),
/// nametable X (10), coarse Y (5..9), coarse X (0..4).
pub struct VRAMAddress(pub u16);

impl VRAMAddress {
    /// Bit 15 is always clear.
    pub open spec fn wf(&self) -> bool {
        self.0 < 0x8000
    }

    pub fn new() -> (r: Self)
        ensures
            r.0 == 0,
            r.wf(),
    {
        VRAMAddress(0)
    }

    pub fn get(&self) -> (r: u16)
        ensures
            r == self.0,
    {
        self.0
    }

    /// Stores the low fifteen bits of `value`.
    pub fn set(&mut self, value: u16)
        ensures
            final(self).0 == value & 0x7FFF,
            final(self).wf(),
    {
        proof {
            lemma_vram_bits(value, 0);
        }
        self.0 = value & 0x7FFF;
    }

    fn set_field(&mut self, mask: u16, shift: u16, value: u16)
        requires
            old(self).wf(),
            mask < 0x8000,
            shift < 16,
        ensures
            final(self).0 == with_field(old(self).0, mask, shift, value),
            final(self).wf(),
    {
        let v = self.0;
        let field = (value << shift) & mask;
        assert(((value << shift) & mask) < 0x8000 && (v & !mask) < 0x8000 ==> ((v & !mask) | ((value << shift) & mask)) < 0x8000) by (bit_vector);
        assert(mask < 0x8000 ==> ((value << shift) & mask) < 0x8000) by (bit_vector);
        proof {
            lemma_vram_bits(v, mask);
        }
        self.0 = (v & !mask) | field;
    }

    /// The attribute-table offset within a nametable: (coarse Y / 4) * 8 + coarse X / 4.
    pub fn get_attribute_index(&self) -> (r: u16)
        ensures
            r == (((self.0 >> 7u16) & 7) << 3u16) | ((self.0 >> 2u16) & 7),
    {
        (((self.0 >> 7u16) & 7) << 3u16) | ((self.0 >> 2u16) & 7)
    }

    pub fn get_tile_x(&self) -> (r: u16)
        ensures
            r == self.0 & 0x1F,
    {
        self.0 & 0x1F
    }

    pub fn set_tile_x(&mut self, value: u16)
        requires
            old(self).wf(),
        ensures
            final(self).0 == with_field(old(self).0, 0x001F, 0, value),
            final(self).wf(),
    {
        self.set_field(0x001F, 0, value)
    }

    pub fn get_tile_y(&self) -> (r: u16)
        ensures
            r == (self.0 >> 5u16) & 0x1F,
    {
        (self.0 >> 5u16) & 0x1F
    }

    pub fn set_tile_y(&mut self, value: u16)
        requires
            old(self).wf(),
        ensures
            final(self).0 == with_field(old(self).0, 0x03E0, 5, value),
            final(self).wf(),
    {
        self.set_field(0x03E0, 5, value)
    }

    pub fn get_nametable_x(&self) -> (r: bool)
        ensures
            r == (self.0 & 0x0400 != 0),
    {
        self.0 & 0x0400 != 0
    }

    pub fn set_nametable_x(&mut self, value: bool)
        requires
            old(self).wf(),
        ensures
            final(self).0 == with_field(old(self).0, 0x0400, 10, if value { 1 } else { 0 }),
            final(self).wf(),
    {
        self.set_field(0x0400, 10, if value { 1 } else { 0 })
    }

    pub fn get_nametable_y(&self) -> (r: bool)
        ensures
            r == (self.0 & 0x0800 != 0),
    {
        self.0 & 0x0800 != 0
    }

    pub fn set_nametable_y(&mut self, value: bool)
        requires
            old(self).wf(),
        ensures
            final(self).0 == with_field(old(self).0, 0x0800, 11, if value { 1 } else { 0 }),
            final(self).wf(),
    {
        self.set_field(0x0800, 11, if value { 1 } else { 0 })
    }

    /// Both nametable bits, as a number 0..3.
    pub fn get_nametable(&self) -> (r: u16)
        ensures
            r == (self.0 >> 10u16) & 3,
    {
        (self.0 >> 10u16) & 3
    }

    pub fn get_fine_y(&self) -> (r: u16)
        ensures
            r == (self.0 >> 12u16) & 7,
    {
        (self.0 >> 12u16) & 7
    }

    pub fn set_fine_y(&mut self, value: u16)
        requires
            old(self).wf(),
        ensures
            final(self).0 == with_field(old(self).0, 0x7000, 12, value),
            final(self).wf(),
    {
        self.set_field(0x7000, 12, value)
    }
}

/// `v` one tile to the right: coarse X 31 wraps to 0 and flips nametable X.
pub open spec fn coarse_x_step(v: u16) -> u16 {
    if v & 0x1F == 31 {
        let v1 = with_field(v, 0x001F, 0, 0);
        with_field(v1, 0x0400, 10, if v1 & 0x0400 != 0 { 0 } else { 1 })
    } else {
        with_field(v, 0x001F, 0, (v & 0x1F).wrapping_add(1))
    }
}

/// `v` one pixel row down: fine Y + 1, else fine Y 0 and coarse Y + 1,
/// where row 29 wraps to 0 flipping nametable Y and row 31 wraps unflipped.
pub open spec fn fine_y_step(v: u16) -> u16 {
    let fine_y = (v >> 12u16) & 7;
    if fine_y < 7 {
        with_field(v, 0x7000, 12, (fine_y + 1) as u16)
    } else {
        let v1 = with_field(v, 0x7000, 12, 0);
        let tile_y = (v1 >> 5u16) & 0x1F;
        if tile_y == 29 {
            let v2 = with_field(v1, 0x03E0, 5, 0);
            with_field(v2, 0x0800, 11, if v2 & 0x0800 != 0 { 0 } else { 1 })
        } else if tile_y == 31 {
            with_field(v1, 0x03E0, 5, 0)
        } else {
            with_field(v1, 0x03E0, 5, tile_y.wrapping_add(1))
        }
    }
}

/// The two palette bits of attribute byte `attribute` for the quadrant of
/// `v`'s tile: shifted right 2 for the right half, 4 for the bottom half.
pub open spec fn palette_bits(v: u16, attribute: u8) -> u8 {
    ((attribute >> (if (v & 0x1F) & 2 != 0 { 2u8 } else { 0u8 })) >> (if ((v >> 5u16) & 0x1F) & 2 != 0 { 4u8 } else { 0u8 })) & 3
}

/// The attribute-table offset of `v`'s tile: (coarse Y / 4) * 8 + coarse X / 4.
pub open spec fn attribute_index(v: u16) -> u16 {
    (((v >> 7u16) & 7) << 3u16) | ((v >> 2u16) & 7)
}

/// The PGU's programmer-visible registers.
pub struct Registers {
    pub control: Control,
    pub mask: Mask,
    pub status: Status,
    pub oam_address: u8,
    pub fine_x: u8,
    pub vram_address: VRAMAddress,
}

impl Registers {
    pub open spec fn wf(&self) -> bool {
        self.vram_address.wf() && self.fine_x < 8
    }

    pub fn new() -> (r: Self)
        ensures
            r.wf(),
            r.control.0 == 0 && r.mask.0 == 0 && r.status.0 == 0,
            r.oam_address == 0 && r.vram_address.0 == 0,
    {
        Registers {
            control: Control::new(),
            mask: Mask::new(),
            status: Status::new(),
            oam_address: 0,
            fine_x: 0,
            vram_address: VRAMAddress::new(),
        }
    }

    /// Moves `v` one tile right, wrapping into the neighbouring nametable.
    pub fn increment_horizontal(&mut self)
        requires
            old(self).wf(),
        ensures
            final(self).wf(),
            final(self).control == old(self).control && final(self).mask == old(self).mask,
            final(self).status == old(self).status && final(self).fine_x == old(self).fine_x,
            final(self).oam_address == old(self).oam_address,
            !old(self).mask.rendering() ==> final(self).vram_address == old(self).vram_address,
            old(self).mask.rendering() ==> final(self).vram_address.0 == coarse_x_step(old(self).vram_address.0),
    {
        if self.mask.is_rendering_enabled() {
            if self.vram_address.get_tile_x() == 31 {
                self.vram_address.set_tile_x(0);
                let flipped = !self.vram_address.get_nametable_x();
                self.vram_address.set_nametable_x(flipped);
            } else {
                let next = self.vram_address.get_tile_x().wrapping_add(1);
                self.vram_address.set_tile_x(next);
            }
        }
    }

    /// Moves `v` one pixel row down: fine Y, then coarse Y with the wrap from
    /// row 29 into the other nametable (rows 30 and 31 wrap without the flip).
    pub fn increment_vertical(&mut self)
        requires
            old(self).wf(),
        ensures
            final(self).wf(),
            final(self).control == old(self).control && final(self).mask == old(self).mask,
            final(self).status == old(self).status && final(self).fine_x == old(self).fine_x,
            final(self).oam_address == old(self).oam_address,
            !old(self).mask.rendering() ==> final(self).vram_address == old(self).vram_address,
            old(self).mask.rendering() ==> final(self).vram_address.0 == fine_y_step(old(self).vram_address.0),
    {
        if self.mask.is_rendering_enabled() {
            let fine_y = self.vram_address.get_fine_y();
            if fine_y < 7 {
                self.vram_address.set_fine_y(fine_y + 1);
            } else {
                self.vram_address.set_fine_y(0);
                let tile_y = self.vram_address.get_tile_y();
                if tile_y == 29 {
                    self.vram_address.set_tile_y(0);
                    let flipped = !self.vram_address.get_nametable_y();
                    self.vram_address.set_nametable_y(flipped);
                } else if tile_y == 31 {
                    self.vram_address.set_tile_y(0);
                } else {
                    self.vram_address.set_tile_y(tile_y.wrapping_add(1));
                }
            }
        }
    }

    /// The two palette bits of the attribute byte for the quadrant of `v`'s tile.
    pub fn get_palette_from_attribute(&self, attribute: u8) -> (r: u8)
        ensures
            r == palette_bits(self.vram_address.0, attribute),
            r == ((attribute >> (if (self.vram_address.0 & 0x1F) & 2 != 0 { 2u8 } else { 0u8 }))
                >> (if ((self.vram_address.0 >> 5u16) & 0x1F) & 2 != 0 { 4u8 } else { 0u8 })) & 3,
    {
        let shift_x: u8 = if self.vram_address.get_tile_x() & 2 != 0 { 2 } else { 0 };
        let shift_y: u8 = if self.vram_address.get_tile_y() & 2 != 0 { 4 } else { 0 };
        ((attribute >> shift_x) >> shift_y) & 3
    }
}

} // verus!
