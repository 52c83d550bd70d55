use vstd::prelude::*;
use crate::ppu::sprites::{Sprite, sprite_byte};

verus! {

/// Object attribute memory: a table of sprites, addressed by sprite or by byte.
pub struct OAM {
    pub data: Vec<Sprite>,
}

impl OAM {
    /// The byte at `index`: byte `index % 4` of sprite `index / 4`.
    pub open spec fn byte(&self, index: int) -> u8 {
        sprite_byte(self.data@[index / 4], index % 4)
    }

    /// A table of `size` sprites, all zero.
    pub fn new(size: usize) -> (r: Self)
        ensures
            r.data@.len() == size,
            forall|i: int| 0 <= i < size ==> #[trigger] r.data@[i] == Sprite::zeroed(),
    {
        let mut data: Vec<Sprite> = Vec::new();
        let mut i: usize = 0;
        while i < size
            invariant
                i <= size,
                data@.len() == i,
                forall|j: int| 0 <= j < i ==> #[trigger] data@[j] == Sprite::zeroed(),
            decreases size - i,
        {
            data.push(Sprite::new());
            i = i + 1;
        }
        OAM { data }
    }

    pub fn get_sprite(&self, index: usize) -> (r: &Sprite)
        requires
            index < self.data@.len(),
        ensures
            *r == self.data@[index as int],
    {
        &self.data[index]
    }

    pub fn get_sprite_mut(&mut self, index: usize) -> (r: &mut Sprite)
        requires
            index < old(self).data@.len(),
        ensures
            *r == old(self).data@[index as int],
            final(self).data@ == old(self).data@.update(index as int, *final(r)),
    {
        &mut self.data[index]
    }

    pub fn set_sprite(&mut self, index: usize, sprite: Sprite)
        requires
            index < old(self).data@.len(),
        ensures
            final(self).data@ == old(self).data@.update(index as int, sprite),
    {
        self.data.set(index, sprite);
    }

    pub fn get_byte(&self, index: usize) -> (r: u8)
        requires
            index < 4 * self.data@.len(),
        ensures
            r == self.byte(index as int),
    {
        self.data[index / 4].get(index % 4)
    }

    pub fn set_byte(&mut self, index: usize, value: u8)
        requires
            index < 4 * old(self).data@.len(),
        ensures
            final(self).data@.len() == old(self).data@.len(),
            final(self).byte(index as int) == value,
            forall|j: int| 0 <= j < 4 * old(self).data@.len() && j != index ==> #[trigger] final(self).byte(j) == old(self).byte(j),
    {
        let mut sprite = self.data[index / 4];
        sprite.set(index % 4, value);
        self.data.set(index / 4, sprite);
    }
}

} // verus!
