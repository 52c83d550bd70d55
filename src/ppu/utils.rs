use vstd::prelude::*;

verus! {

/// The byte with bit i moved to bit 7 - i.
pub open spec fn reversed_bits(value: u8) -> u8 {
    ((value & 0x01) << 7u8) | ((value & 0x02) << 5u8) | ((value & 0x04) << 3u8) | ((value & 0x08) << 1u8)
        | ((value & 0x10) >> 1u8) | ((value & 0x20) >> 3u8) | ((value & 0x40) >> 5u8) | ((value & 0x80) >> 7u8)
}

/// Reverses the order of the bits of a byte (horizontal sprite flip).
pub fn flip_byte(value: u8) -> (r: u8)
    ensures
        r == reversed_bits(value),
        (r & 0x80 != 0) == (value & 0x01 != 0),
        (r & 0x40 != 0) == (value & 0x02 != 0),
        (r & 0x20 != 0) == (value & 0x04 != 0),
        (r & 0x10 != 0) == (value & 0x08 != 0),
        (r & 0x08 != 0) == (value & 0x10 != 0),
        (r & 0x04 != 0) == (value & 0x20 != 0),
        (r & 0x02 != 0) == (value & 0x40 != 0),
        (r & 0x01 != 0) == (value & 0x80 != 0),
{
    let r = ((value & 0x01) << 7u8) | ((value & 0x02) << 5u8) | ((value & 0x04) << 3u8) | ((value
        & 0x08) << 1u8) | ((value & 0x10) >> 1u8) | ((value & 0x20) >> 3u8) | ((value & 0x40)
        >> 5u8) | ((value & 0x80) >> 7u8);
    assert({
        &&& (r & 0x80 != 0) == (value & 0x01 != 0)
        &&& (r & 0x40 != 0) == (value & 0x02 != 0)
        &&& (r & 0x20 != 0) == (value & 0x04 != 0)
        &&& (r & 0x10 != 0) == (value & 0x08 != 0)
        &&& (r & 0x08 != 0) == (value & 0x10 != 0)
        &&& (r & 0x04 != 0) == (value & 0x20 != 0)
        &&& (r & 0x02 != 0) == (value & 0x40 != 0)
        &&& (r & 0x01 != 0) == (value & 0x80 != 0)
    }) by (bit_vector)
        requires
            r == ((value & 0x01) << 7u8) | ((value & 0x02) << 5u8) | ((value & 0x04) << 3u8) | ((
            value & 0x08) << 1u8) | ((value & 0x10) >> 1u8) | ((value & 0x20) >> 3u8) | ((value
                & 0x40) >> 5u8) | ((value & 0x80) >> 7u8),
    ;
    r
}

} // verus!
