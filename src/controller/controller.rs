use vstd::prelude::*;

verus! {

/// The button byte: bit i set when button i (A, B, Select, Start, Up, Down,
/// Left, Right) is pressed.
pub open spec fn button_bits(b: Seq<bool>) -> u8 {
    ((if b[0] { 1int } else { 0int }) + (if b[1] { 2int } else { 0int }) + (if b[2] { 4int } else { 0int })
        + (if b[3] { 8int } else { 0int }) + (if b[4] { 16int } else { 0int }) + (if b[5] { 32int } else { 0int })
        + (if b[6] { 64int } else { 0int }) + (if b[7] { 128int } else { 0int })) as u8
}

/// A standard pad: an 8-bit parallel-in, serial-out shift register.
pub struct Controller {
    pub value: u8,
    pub strobe: u8,
    pub buttons: u8,
}

impl Controller {
    pub fn new() -> (r: Self)
        ensures
            r.value == 0 && r.strobe == 0 && r.buttons == 0,
    {
        Controller { value: 0, strobe: 0, buttons: 0 }
    }

    /// Latches the pressed buttons; while the strobe is high the shift
    /// register follows them.
    pub fn load_buttons(&mut self, buttons: [bool; 8])
        ensures
            final(self).buttons == button_bits(buttons@),
            final(self).strobe == old(self).strobe,
            old(self).strobe & 1 == 1 ==> final(self).value == button_bits(buttons@),
            old(self).strobe & 1 == 0 ==> final(self).value == old(self).value,
    {
        let bits = ((if buttons[0] { 1u16 } else { 0u16 }) + (if buttons[1] { 2u16 } else { 0u16 })
            + (if buttons[2] { 4u16 } else { 0u16 }) + (if buttons[3] { 8u16 } else { 0u16 })
            + (if buttons[4] { 16u16 } else { 0u16 }) + (if buttons[5] { 32u16 } else { 0u16 })
            + (if buttons[6] { 64u16 } else { 0u16 }) + (if buttons[7] { 128u16 } else { 0u16 })) as u8;
        self.buttons = bits;
        if self.strobe & 1 == 1 {
            self.load_value();
        }
    }

    fn load_value(&mut self)
        ensures
            final(self).value == old(self).buttons,
            final(self).buttons == old(self).buttons,
            final(self).strobe == old(self).strobe,
    {
        self.value = self.buttons;
    }

    /// One serial read: bit 0 of the shift register. With the strobe low the
    /// register then shifts right, filling with 1s.
    pub fn read(&mut self) -> (r: u8)
        ensures
            old(self).strobe & 1 == 1 ==> r == old(self).buttons & 1 && final(self).value == old(self).buttons,
            old(self).strobe & 1 == 0 ==> r == old(self).value & 1 && final(self).value == (old(self).value >> 1u8) | 0x80,
            final(self).strobe == old(self).strobe,
            final(self).buttons == old(self).buttons,
    {
        if self.strobe & 1 == 1 {
            self.load_value();
            self.value & 1
        } else {
            let result = self.value & 1;
            self.value = (self.value >> 1u8) | 0x80;
            result
        }
    }

    /// A write of the strobe: high reloads the shift register from the
    /// buttons; the fall to low freezes it.
    pub fn write(&mut self, value: u8)
        ensures
            final(self).strobe == value,
            final(self).buttons == old(self).buttons,
            value & 1 == 1 ==> final(self).value == old(self).buttons,
            value & 1 == 0 ==> final(self).value == old(self).value,
    {
        self.strobe = value;
        if value & 1 == 1 {
            self.load_value();
        }
    }
}

} // verus!
