use vstd::prelude::*;

verus! {

/// Horizontal mirroring: nametables 0/1 share the first KiB, 2/3 the second.
pub open spec fn horizontal_index(address: u16) -> int {
    address as int % 0x400 + if (address as int / 0x800) % 2 == 1 { 0x400int } else { 0int }
}

/// Vertical mirroring: nametables 0/2 share the first KiB, 1/3 the second.
pub open spec fn vertical_index(address: u16) -> int {
    address as int % 0x800
}

/// Single-screen mirroring: all four nametables share one KiB.
pub open spec fn single_index(address: u16) -> int {
    address as int % 0x400
}

pub fn mirror_namespace_horizontal(address: u16) -> (r: u16)
    ensures
        r == 0x2000 + horizontal_index(address),
{
    let bank: u16 = if (address / 0x800) % 2 == 1 { 0x400 } else { 0 };
    0x2000 + address % 0x400 + bank
}

pub fn mirror_namespace_vertical(address: u16) -> (r: u16)
    ensures
        r == 0x2000 + vertical_index(address),
{
    0x2000 + address % 0x800
}

/// The nametable-RAM address (0x2000..0x27FF) that PGU address `address`
/// reaches under the given mirroring; both flags set means single-screen.
pub fn mirror_namespace(address: u16, horizontal: bool, vertical: bool) -> (r: u16)
    ensures
        r == 0x2000 + if horizontal && vertical {
            single_index(address)
        } else if horizontal {
            horizontal_index(address)
        } else {
            vertical_index(address)
        },
        0x2000 <= r < 0x2800,
{
    if horizontal && vertical {
        0x2000 + address % 0x400
    } else if horizontal {
        mirror_namespace_horizontal(address)
    } else {
        mirror_namespace_vertical(address)
    }
}

} // verus!
