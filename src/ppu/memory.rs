use vstd::prelude::*;

verus! {

/// The PGU's view of its address space (pattern tables, nametables).
pub trait PPUMemory: Sized {
    /// What the memory keeps true between accesses.
    spec fn inv(&self) -> bool;

    /// The byte a read of `address` returns.
    spec fn byte_at(&self, address: u16) -> u8;

    /// A read, which changes nothing.
    fn read(&mut self, address: u16) -> (r: u8)
        requires
            old(self).inv(),
        ensures
            final(self).inv(),
            *final(self) == *old(self),
            r == old(self).byte_at(address),
    ;

    fn write(&mut self, address: u16, value: u8)
        requires
            old(self).inv(),
        ensures
            final(self).inv(),
    ;
}

/// The nametable byte for the tile that VRAM address `address` points at.
pub open spec fn nametable_address(address: u16) -> u16 {
    0x2000 | (address & 0x0FFF)
}

/// The attribute byte `address` (0..63) of nametable `nametable` (0..3).
pub open spec fn attribute_address(nametable: u16, address: u16) -> u16 {
    0x23C0 | (nametable << 10u16) | address
}

/// Row `y` of the low (or, with `high`, the high) plane of a tile.
pub open spec fn pattern_address(pattern_table: bool, tile: u16, y: u16, high: bool) -> u16 {
    (if pattern_table { 0x1000u16 } else { 0u16 }) | (tile << 4u16) | y | (if high { 8u16 } else { 0u16 })
}

pub fn get_nametable_address(address: u16) -> (r: u16)
    ensures
        r == nametable_address(address),
{
    0x2000 | (address & 0x0FFF)
}

pub fn get_attribute_address(nametable: u16, address: u16) -> (r: u16)
    ensures
        r == attribute_address(nametable, address),
{
    0x23C0 | (nametable << 10u16) | address
}

pub fn get_pattern_address(pattern_table: bool, tile: u16, y: u16, high: bool) -> (r: u16)
    ensures
        r == pattern_address(pattern_table, tile, y, high),
{
    (if pattern_table { 0x1000u16 } else { 0u16 }) | (tile << 4u16) | y | (if high { 8u16 } else { 0u16 })
}

pub fn read_nametable<M: PPUMemory>(memory: &mut M, address: u16) -> (r: u8)
    requires
        old(memory).inv(),
    ensures
        final(memory).inv(),
        *final(memory) == *old(memory),
        r == old(memory).byte_at(nametable_address(address)),
{
    memory.read(get_nametable_address(address))
}

pub fn read_attribute_table<M: PPUMemory>(memory: &mut M, nametable: u16, address: u16) -> (r: u8)
    requires
        old(memory).inv(),
    ensures
        final(memory).inv(),
        *final(memory) == *old(memory),
        r == old(memory).byte_at(attribute_address(nametable, address)),
{
    memory.read(get_attribute_address(nametable, address))
}

pub fn read_pattern_table_tile_low<M: PPUMemory>(memory: &mut M, pattern_table: bool, tile: u16, y: u16) -> (r: u8)
    requires
        old(memory).inv(),
    ensures
        final(memory).inv(),
        *final(memory) == *old(memory),
        r == old(memory).byte_at(pattern_address(pattern_table, tile, y, false)),
{
    memory.read(get_pattern_address(pattern_table, tile, y, false))
}

pub fn read_pattern_table_tile_high<M: PPUMemory>(memory: &mut M, pattern_table: bool, tile: u16, y: u16) -> (r: u8)
    requires
        old(memory).inv(),
    ensures
        final(memory).inv(),
        *final(memory) == *old(memory),
        r == old(memory).byte_at(pattern_address(pattern_table, tile, y, true)),
{
    memory.read(get_pattern_address(pattern_table, tile, y, true))
}

} // verus!
