use vstd::prelude::*;
use crate::ppu::registers::Mask;

verus! {

/// The 64-entry master palette: the RGB colour of each colour index.
pub open spec fn palette_rgb(index: u8) -> (u8, u8, u8) {
    match index & 0x3F {
        0x00 => (84, 84, 84),
        0x01 => (0, 30, 116),
        0x02 => (8, 16, 144),
        0x03 => (48, 0, 136),
        0x04 => (68, 0, 100),
        0x05 => (92, 0, 48),
        0x06 => (84, 4, 0),
        0x07 => (60, 24, 0),
        0x08 => (32, 42, 0),
        0x09 => (8, 58, 0),
        0x0A => (0, 64, 0),
        0x0B => (0, 60, 0),
        0x0C => (0, 50, 60),
        0x0D => (0, 0, 0),
        0x0E => (0, 0, 0),
        0x0F => (0, 0, 0),
        0x10 => (152, 150, 152),
        0x11 => (8, 76, 196),
        0x12 => (48, 50, 236),
        0x13 => (92, 30, 228),
        0x14 => (136, 20, 176),
        0x15 => (160, 20, 100),
        0x16 => (152, 34, 32),
        0x17 => (120, 60, 0),
        0x18 => (84, 90, 0),
        0x19 => (40, 114, 0),
        0x1A => (8, 124, 0),
        0x1B => (0, 118, 40),
        0x1C => (0, 102, 120),
        0x1D => (0, 0, 0),
        0x1E => (0, 0, 0),
        0x1F => (0, 0, 0),
        0x20 => (236, 238, 236),
        0x21 => (76, 154, 236),
        0x22 => (120, 124, 236),
        0x23 => (176, 98, 236),
        0x24 => (228, 84, 236),
        0x25 => (236, 88, 180),
        0x26 => (236, 106, 100),
        0x27 => (212, 136, 32),
        0x28 => (160, 170, 0),
        0x29 => (116, 196, 0),
        0x2A => (76, 208, 32),
        0x2B => (56, 204, 108),
        0x2C => (56, 180, 204),
        0x2D => (60, 60, 60),
        0x2E => (0, 0, 0),
        0x2F => (0, 0, 0),
        0x30 => (236, 238, 236),
        0x31 => (168, 204, 236),
        0x32 => (188, 188, 236),
        0x33 => (212, 178, 236),
        0x34 => (236, 174, 236),
        0x35 => (236, 174, 212),
        0x36 => (236, 180, 176),
        0x37 => (228, 196, 144),
        0x38 => (204, 210, 120),
        0x39 => (180, 222, 120),
        0x3A => (168, 226, 144),
        0x3B => (152, 226, 180),
        0x3C => (160, 214, 228),
        0x3D => (160, 162, 160),
        0x3E => (0, 0, 0),
        _ => (0, 0, 0),
    }
}

/// A channel dimmed by emphasis of the other channels: three quarters.
pub open spec fn dimmed(c: u8, dim: bool) -> u8 {
    if dim { (c as int * 3 / 4) as u8 } else { c }
}

/// The colour of index `color` under the mask's grayscale and emphasis bits.
pub open spec fn color_of(color: u8, mask: u8) -> (u8, u8, u8) {
    let index = if mask & 0x01 != 0 { color & 0x30 } else { color };
    let rgb = palette_rgb(index);
    let red = mask & 0x20 != 0;
    let green = mask & 0x40 != 0;
    let blue = mask & 0x80 != 0;
    (dimmed(rgb.0, green || blue), dimmed(rgb.1, red || blue), dimmed(rgb.2, red || green))
}

fn master_palette(index: u8) -> (r: (u8, u8, u8))
    ensures
        r == palette_rgb(index),
{
    match index & 0x3F {
        0x00 => (84, 84, 84),
        0x01 => (0, 30, 116),
        0x02 => (8, 16, 144),
        0x03 => (48, 0, 136),
        0x04 => (68, 0, 100),
        0x05 => (92, 0, 48),
        0x06 => (84, 4, 0),
        0x07 => (60, 24, 0),
        0x08 => (32, 42, 0),
        0x09 => (8, 58, 0),
        0x0A => (0, 64, 0),
        0x0B => (0, 60, 0),
        0x0C => (0, 50, 60),
        0x0D => (0, 0, 0),
        0x0E => (0, 0, 0),
        0x0F => (0, 0, 0),
        0x10 => (152, 150, 152),
        0x11 => (8, 76, 196),
        0x12 => (48, 50, 236),
        0x13 => (92, 30, 228),
        0x14 => (136, 20, 176),
        0x15 => (160, 20, 100),
        0x16 => (152, 34, 32),
        0x17 => (120, 60, 0),
        0x18 => (84, 90, 0),
        0x19 => (40, 114, 0),
        0x1A => (8, 124, 0),
        0x1B => (0, 118, 40),
        0x1C => (0, 102, 120),
        0x1D => (0, 0, 0),
        0x1E => (0, 0, 0),
        0x1F => (0, 0, 0),
        0x20 => (236, 238, 236),
        0x21 => (76, 154, 236),
        0x22 => (120, 124, 236),
        0x23 => (176, 98, 236),
        0x24 => (228, 84, 236),
        0x25 => (236, 88, 180),
        0x26 => (236, 106, 100),
        0x27 => (212, 136, 32),
        0x28 => (160, 170, 0),
        0x29 => (116, 196, 0),
        0x2A => (76, 208, 32),
        0x2B => (56, 204, 108),
        0x2C => (56, 180, 204),
        0x2D => (60, 60, 60),
        0x2E => (0, 0, 0),
        0x2F => (0, 0, 0),
        0x30 => (236, 238, 236),
        0x31 => (168, 204, 236),
        0x32 => (188, 188, 236),
        0x33 => (212, 178, 236),
        0x34 => (236, 174, 236),
        0x35 => (236, 174, 212),
        0x36 => (236, 180, 176),
        0x37 => (228, 196, 144),
        0x38 => (204, 210, 120),
        0x39 => (180, 222, 120),
        0x3A => (168, 226, 144),
        0x3B => (152, 226, 180),
        0x3C => (160, 214, 228),
        0x3D => (160, 162, 160),
        0x3E => (0, 0, 0),
        _ => (0, 0, 0),
    }
}

fn dim(c: u8, darker: bool) -> (r: u8)
    ensures
        r == dimmed(c, darker),
{
    if darker { (c as u16 * 3 / 4) as u8 } else { c }
}

/// The RGB colour that palette byte `color` shows under `mask`.
pub fn get_color(color: u8, mask: &Mask) -> (r: (u8, u8, u8))
    ensures
        r == color_of(color, mask.0),
{
    let index = if mask.get_grayscale() { color & 0x30 } else { color };
    let rgb = master_palette(index);
    let red = mask.get_emphasize_red();
    let green = mask.get_emphasize_green();
    let blue = mask.get_emphasize_blue();
    (dim(rgb.0, green || blue), dim(rgb.1, red || blue), dim(rgb.2, red || green))
}

} // verus!
