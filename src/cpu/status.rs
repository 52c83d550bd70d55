use vstd::prelude::*;

verus! {

/// Bit of the negative flag.
pub const FLAG_N: u8 = 0x80;
/// Bit of the overflow flag.
pub const FLAG_V: u8 = 0x40;
/// Bit of the break flag (always read as set).
pub const FLAG_B: u8 = 0x10;
/// Bit of the decimal flag.
pub const FLAG_D: u8 = 0x08;
/// Bit of the interrupt-disable flag.
pub const FLAG_I: u8 = 0x04;
/// Bit of the zero flag.
pub const FLAG_Z: u8 = 0x02;
/// Bit of the carry flag.
pub const FLAG_C: u8 = 0x01;

/// The 6502 P register. Bits 4 and 5 always read as set.
pub struct StatusRegister(pub u8);

/// The value a register holds after `set(sr)`.
pub open spec fn status_of(sr: u8) -> u8 {
    sr | 0x30
}

/// The register byte with the bits of `mask` replaced by `value`.
pub open spec fn with_flag(p: u8, mask: u8, value: bool) -> u8 {
    if value { (p | mask) | 0x30 } else { (p & !mask) | 0x30 }
}

/// Setting bits 4 and 5 makes a byte a well-formed register value.
pub proof fn lemma_status_bits(x: u8)
    ensures
        (x | 0x30) & 0x30 == 0x30,
        x & 0x30 == 0x30 ==> x | 0x30 == x,
        0x34u8 & 0x30 == 0x30,
{
    assert((x | 0x30) & 0x30 == 0x30 && (x & 0x30 == 0x30 ==> x | 0x30 == x) && 0x34u8 & 0x30 == 0x30) by (bit_vector);
}

/// Setting or clearing a single flag bit makes that bit read as asked.
pub proof fn lemma_flag_bits(p: u8)
    ensures
        forall|v: bool| #[trigger] with_flag(p, 0x01, v) & 0x01 != 0 <==> v,
        forall|v: bool| #[trigger] with_flag(p, 0x04, v) & 0x04 != 0 <==> v,
        forall|v: bool| #[trigger] with_flag(p, 0x08, v) & 0x08 != 0 <==> v,
        forall|v: bool| #[trigger] with_flag(p, 0x40, v) & 0x40 != 0 <==> v,
{
    assert(((p | 0x01) | 0x30) & 0x01 != 0 && ((p & !0x01u8) | 0x30) & 0x01 == 0) by (bit_vector);
    assert(((p | 0x04) | 0x30) & 0x04 != 0 && ((p & !0x04u8) | 0x30) & 0x04 == 0) by (bit_vector);
    assert(((p | 0x08) | 0x30) & 0x08 != 0 && ((p & !0x08u8) | 0x30) & 0x08 == 0) by (bit_vector);
    assert(((p | 0x40) | 0x30) & 0x40 != 0 && ((p & !0x40u8) | 0x30) & 0x40 == 0) by (bit_vector);
}

impl StatusRegister {
    /// The register is well formed when bits 4 and 5 are set.
    pub open spec fn wf(&self) -> bool {
        self.0 & 0x30 == 0x30
    }

    pub open spec fn flag(&self, mask: u8) -> bool {
        self.0 & mask != 0
    }

    /// Power-up value 0x34: interrupts disabled.
    pub fn new() -> (r: Self)
        ensures
            r.0 == 0x34,
            r.wf(),
    {
        proof {
            lemma_status_bits(0x34);
        }
        StatusRegister(0x34)
    }

    pub fn get(&self) -> (r: u8)
        ensures
            r == self.0,
    {
        self.0
    }

    /// The register as pushed by an interrupt: the break bit clear.
    pub fn get_b_clear(&self) -> (r: u8)
        ensures
            r == self.0 & 0xEF,
    {
        self.0 & 0xEF
    }

    pub fn set(&mut self, sr: u8)
        ensures
            final(self).0 == status_of(sr),
            final(self).wf(),
    {
        self.0 = sr | 0x30;
        proof {
            lemma_status_bits(sr);
        }
    }

    fn set_flag(&mut self, mask: u8, value: bool)
        ensures
            final(self).0 == with_flag(old(self).0, mask, value),
            final(self).wf(),
    {
        let p = self.0;
        if value {
            self.0 = (p | mask) | 0x30;
            proof {
                lemma_status_bits(p | mask);
            }
        } else {
            self.0 = (p & !mask) | 0x30;
            proof {
                lemma_status_bits(p & !mask);
            }
        }
    }

    pub fn get_negative(&self) -> (r: bool)
        ensures
            r == self.flag(FLAG_N),
    {
        self.0 & FLAG_N != 0
    }

    pub fn set_negative(&mut self, value: bool)
        ensures
            final(self).0 == with_flag(old(self).0, FLAG_N, value),
            final(self).wf(),
    {
        self.set_flag(FLAG_N, value)
    }

    pub fn get_overflow(&self) -> (r: bool)
        ensures
            r == self.flag(FLAG_V),
    {
        self.0 & FLAG_V != 0
    }

    pub fn set_overflow(&mut self, value: bool)
        ensures
            final(self).0 == with_flag(old(self).0, FLAG_V, value),
            final(self).wf(),
    {
        self.set_flag(FLAG_V, value)
    }

    pub fn get_decimal(&self) -> (r: bool)
        ensures
            r == self.flag(FLAG_D),
    {
        self.0 & FLAG_D != 0
    }

    pub fn set_decimal(&mut self, value: bool)
        ensures
            final(self).0 == with_flag(old(self).0, FLAG_D, value),
            final(self).wf(),
    {
        self.set_flag(FLAG_D, value)
    }

    pub fn get_interrupt(&self) -> (r: bool)
        ensures
            r == self.flag(FLAG_I),
    {
        self.0 & FLAG_I != 0
    }

    pub fn set_interrupt(&mut self, value: bool)
        ensures
            final(self).0 == with_flag(old(self).0, FLAG_I, value),
            final(self).wf(),
    {
        self.set_flag(FLAG_I, value)
    }

    pub fn get_zero(&self) -> (r: bool)
        ensures
            r == self.flag(FLAG_Z),
    {
        self.0 & FLAG_Z != 0
    }

    pub fn set_zero(&mut self, value: bool)
        ensures
            final(self).0 == with_flag(old(self).0, FLAG_Z, value),
            final(self).wf(),
    {
        self.set_flag(FLAG_Z, value)
    }

    pub fn get_carry(&self) -> (r: bool)
        ensures
            r == self.flag(FLAG_C),
    {
        self.0 & FLAG_C != 0
    }

    pub fn set_carry(&mut self, value: bool)
        ensures
            final(self).0 == with_flag(old(self).0, FLAG_C, value),
            final(self).wf(),
    {
        self.set_flag(FLAG_C, value)
    }
}

} // verus!
