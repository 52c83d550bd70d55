use nes_emu::bus::mapper::{Mapper, Mapper00, PPUMemoryMap};
use nes_emu::bus::ppu_bus::PPUBus;
use nes_emu::ppu::colors::get_color;
use nes_emu::ppu::memory::{get_attribute_address, get_nametable_address, get_pattern_address};
use nes_emu::ppu::oam::OAM;
use nes_emu::ppu::ppu::{PPURegister, PPU};
use nes_emu::ppu::registers::{Mask, Registers, VRAMAddress};
use nes_emu::ppu::sprites::{Sprite, Sprites};
use nes_emu::ppu::utils::flip_byte;

fn video_memory() -> PPUMemoryMap {
    let mapper = Mapper00::new(true, vec![0u8; 0x4000], Vec::new(), 0).unwrap();
    PPUMemoryMap::new(Mapper::NROM(mapper), PPUBus::new())
}

#[test]
fn address_latch_then_two_increments() {
    let mut ppu = PPU::new();
    let mut memory = video_memory();
    ppu.write_register(PPURegister::VRAMAddress, &mut memory, 0x21);
    ppu.write_register(PPURegister::VRAMAddress, &mut memory, 0x08);
    assert_eq!(ppu.register.vram_address.get(), 0x2108);
    ppu.read_register(PPURegister::VRAMData, &mut memory);
    ppu.read_register(PPURegister::VRAMData, &mut memory);
    assert_eq!(ppu.register.vram_address.get(), 0x210A);
}

#[test]
fn address_latch_with_vertical_increment() {
    let mut ppu = PPU::new();
    let mut memory = video_memory();
    ppu.write_register(PPURegister::Control, &mut memory, 0x04);
    ppu.write_register(PPURegister::VRAMAddress, &mut memory, 0x21);
    ppu.write_register(PPURegister::VRAMAddress, &mut memory, 0x08);
    ppu.write_register(PPURegister::VRAMData, &mut memory, 0x11);
    ppu.write_register(PPURegister::VRAMData, &mut memory, 0x22);
    assert_eq!(ppu.register.vram_address.get(), 0x2148);
}

#[test]
fn vram_data_reads_are_buffered() {
    let mut ppu = PPU::new();
    let mut memory = video_memory();
    ppu.write_register(PPURegister::VRAMAddress, &mut memory, 0x20);
    ppu.write_register(PPURegister::VRAMAddress, &mut memory, 0x05);
    ppu.write_register(PPURegister::VRAMData, &mut memory, 0x99);
    ppu.write_register(PPURegister::VRAMAddress, &mut memory, 0x20);
    ppu.write_register(PPURegister::VRAMAddress, &mut memory, 0x05);
    ppu.read_register(PPURegister::VRAMData, &mut memory);
    assert_eq!(ppu.read_register(PPURegister::VRAMData, &mut memory), 0x99);
}

#[test]
fn palette_backdrop_mirrors() {
    let mut ppu = PPU::new();
    let mut memory = video_memory();
    for (address, value) in [(0x3F10u16, 0x2Au8), (0x3F14, 0x15), (0x3F18, 0x0C), (0x3F1C, 0x30)] {
        ppu.write_register(PPURegister::VRAMAddress, &mut memory, (address >> 8) as u8);
        ppu.write_register(PPURegister::VRAMAddress, &mut memory, address as u8);
        ppu.write_register(PPURegister::VRAMData, &mut memory, value);
        let alias = address & !0x10;
        ppu.write_register(PPURegister::VRAMAddress, &mut memory, (alias >> 8) as u8);
        ppu.write_register(PPURegister::VRAMAddress, &mut memory, alias as u8);
        assert_eq!(ppu.read_register(PPURegister::VRAMData, &mut memory), value);
    }
    assert_eq!(PPU::get_palette_index(0x3F13), 0x13);
    assert_eq!(PPU::get_palette_index(0x3F10), PPU::get_palette_index(0x3F00));
}

#[test]
fn odd_frame_skips_a_dot() {
    let mut ppu = PPU::new();
    let mut memory = video_memory();
    ppu.write_register(PPURegister::Mask, &mut memory, 0x08);
    ppu.odd_frame = true;
    assert_eq!((ppu.scanline, ppu.cycle), (261, 0));
    let mut ticks = 0;
    while !(ppu.scanline == 0 && ppu.cycle == 0) {
        ppu.tick(&mut memory);
        ticks += 1;
    }
    assert_eq!(ticks, 340);
}

#[test]
fn even_frame_keeps_every_dot() {
    let mut ppu = PPU::new();
    let mut memory = video_memory();
    ppu.write_register(PPURegister::Mask, &mut memory, 0x08);
    let mut ticks = 0;
    while !(ppu.scanline == 0 && ppu.cycle == 0) {
        ppu.tick(&mut memory);
        ticks += 1;
    }
    assert_eq!(ticks, 341);
}

#[test]
fn frames_last_89342_or_89341_dots() {
    let mut ppu = PPU::new();
    let mut memory = video_memory();
    ppu.write_register(PPURegister::Mask, &mut memory, 0x18);
    while ppu.get_output().is_none() {
        ppu.tick(&mut memory);
    }
    let mut lengths = Vec::new();
    for _ in 0..4 {
        let mut dots = 0;
        loop {
            ppu.tick(&mut memory);
            dots += 1;
            if ppu.get_output().is_some() {
                break;
            }
        }
        lengths.push(dots);
    }
    assert_eq!(lengths, vec![89341, 89342, 89341, 89342]);
}

#[test]
fn frames_without_rendering_last_89342_dots() {
    let mut ppu = PPU::new();
    let mut memory = video_memory();
    while ppu.get_output().is_none() {
        ppu.tick(&mut memory);
    }
    for _ in 0..2 {
        let mut dots = 0;
        loop {
            ppu.tick(&mut memory);
            dots += 1;
            if ppu.get_output().is_some() {
                break;
            }
        }
        assert_eq!(dots, 89342);
    }
}

#[test]
fn vblank_raises_nmi_that_survives_a_status_read() {
    let mut ppu = PPU::new();
    let mut memory = video_memory();
    ppu.write_register(PPURegister::Control, &mut memory, 0x80);
    while !(ppu.scanline == 241 && ppu.cycle == 2) {
        ppu.tick(&mut memory);
    }
    let status = ppu.read_register(PPURegister::Status, &mut memory);
    assert_eq!(status & 0x80, 0x80);
    assert_eq!(ppu.read_register(PPURegister::Status, &mut memory) & 0x80, 0);
    assert!(ppu.pull_nmi());
    assert!(!ppu.pull_nmi());
}

#[test]
fn sprite_zero_hit_stays_clear_with_rendering_off() {
    let mut ppu = PPU::new();
    let mut memory = video_memory();
    for _ in 0..89342 * 2 {
        ppu.tick(&mut memory);
        assert_eq!(ppu.register.status.get() & 0x40, 0);
    }
}

#[test]
fn sprite_zero_hit_on_opaque_overlap() {
    let mut ppu = PPU::new();
    let mut memory = video_memory();
    // Tile 1: every pixel has colour 1 in both tables' low plane.
    for row in 0..8u16 {
        memory.write_vram(0x0010 + row, 0xFF);
    }
    // Background: tile 1 everywhere in nametable 0.
    for i in 0..960u16 {
        memory.write_vram(0x2000 + i, 1);
    }
    // Sprite 0 at (x=40, y=30), tile 1.
    for (i, value) in [30u8, 1, 0, 40].iter().enumerate() {
        ppu.write_oam(i as u8, *value);
    }
    ppu.write_register(PPURegister::Mask, &mut memory, 0x1E);
    let mut hit_at = None;
    for _ in 0..89342 * 2 {
        let before = ppu.register.status.get() & 0x40;
        let position = (ppu.scanline, ppu.cycle);
        ppu.tick(&mut memory);
        if before == 0 && ppu.register.status.get() & 0x40 != 0 {
            hit_at = Some(position);
            break;
        }
    }
    let (scanline, dot) = hit_at.expect("sprite 0 hit");
    assert!(scanline < 240);
    assert!(dot >= 1 && dot <= 257);
}

#[test]
fn scroll_and_control_fill_the_transfer_address() {
    let mut ppu = PPU::new();
    let mut memory = video_memory();
    ppu.write_register(PPURegister::Control, &mut memory, 0x03);
    ppu.write_register(PPURegister::Scroll, &mut memory, 0x7D);
    ppu.write_register(PPURegister::Scroll, &mut memory, 0x5E);
    assert_eq!(ppu.register.fine_x, 5);
    assert_eq!(ppu.transfer_address.get_tile_x(), 0x0F);
    assert_eq!(ppu.transfer_address.get_tile_y(), 0x0B);
    assert_eq!(ppu.transfer_address.get_fine_y(), 6);
    assert_eq!(ppu.transfer_address.get_nametable(), 3);
}

#[test]
fn oam_data_port_writes_and_reads() {
    let mut ppu = PPU::new();
    let mut memory = video_memory();
    ppu.write_register(PPURegister::OAMAddress, &mut memory, 0x10);
    ppu.write_register(PPURegister::OAMData, &mut memory, 0xAB);
    assert_eq!(ppu.register.oam_address, 0x11);
    ppu.write_register(PPURegister::OAMAddress, &mut memory, 0x10);
    assert_eq!(ppu.read_register(PPURegister::OAMData, &mut memory), 0xAB);
}

#[test]
fn loopy_increments() {
    let mut registers = Registers::new();
    registers.mask.set(0x08);
    registers.vram_address.set(0x001F);
    registers.increment_horizontal();
    assert_eq!(registers.vram_address.get(), 0x0400);
    registers.vram_address.set(0x7000 | (29 << 5));
    registers.increment_vertical();
    assert_eq!(registers.vram_address.get(), 0x0800);
    registers.vram_address.set(0x7000 | (31 << 5));
    registers.increment_vertical();
    assert_eq!(registers.vram_address.get(), 0x0000);
    registers.vram_address.set(0x1000);
    registers.increment_vertical();
    assert_eq!(registers.vram_address.get(), 0x2000);
    registers.mask.set(0);
    registers.increment_vertical();
    assert_eq!(registers.vram_address.get(), 0x2000);
}

#[test]
fn vram_address_fields() {
    let mut v = VRAMAddress::new();
    v.set(0xFFFF);
    assert_eq!(v.get(), 0x7FFF);
    v.set_tile_x(3);
    v.set_tile_y(4);
    v.set_nametable_x(false);
    v.set_nametable_y(true);
    v.set_fine_y(2);
    assert_eq!(v.get(), 0x2883);
    assert_eq!(v.get_attribute_index(), 0x08);
}

#[test]
fn attribute_quadrants() {
    let mut registers = Registers::new();
    registers.vram_address.set(0);
    assert_eq!(registers.get_palette_from_attribute(0b1110_0100), 0);
    registers.vram_address.set(2);
    assert_eq!(registers.get_palette_from_attribute(0b1110_0100), 1);
    registers.vram_address.set(2 << 5);
    assert_eq!(registers.get_palette_from_attribute(0b1110_0100), 2);
    registers.vram_address.set((2 << 5) | 2);
    assert_eq!(registers.get_palette_from_attribute(0b1110_0100), 3);
}

#[test]
fn fetch_addresses() {
    assert_eq!(get_nametable_address(0x7ABC), 0x2ABC);
    assert_eq!(get_attribute_address(2, 0x1B), 0x2BDB);
    assert_eq!(get_pattern_address(true, 0x12, 5, false), 0x1125);
    assert_eq!(get_pattern_address(false, 0x12, 5, true), 0x012D);
}

#[test]
fn flip_reverses_bits() {
    assert_eq!(flip_byte(0b1000_0000), 0b0000_0001);
    assert_eq!(flip_byte(0b1100_1010), 0b0101_0011);
    assert_eq!(flip_byte(0xFF), 0xFF);
}

#[test]
fn colours_with_grayscale_and_emphasis() {
    let mut mask = Mask::new();
    assert_eq!(get_color(0x00, &mask), (84, 84, 84));
    assert_eq!(get_color(0x21, &mask), (76, 154, 236));
    mask.set(0x01);
    assert_eq!(get_color(0x21, &mask), (236, 238, 236));
    mask.set(0x20);
    assert_eq!(get_color(0x30, &mask), (236, 178, 177));
}

#[test]
fn sprite_evaluation_keeps_eight_and_flags_overflow() {
    let mut sprites = Sprites::new();
    for i in 0..10usize {
        sprites.get_oam_primary().set_byte(i * 4, 20);
        sprites.get_oam_primary().set_byte(i * 4 + 1, i as u8);
    }
    for i in 10..64usize {
        sprites.get_oam_primary().set_byte(i * 4, 200);
    }
    sprites.reset_evaluation(24);
    for _ in 65..=256 {
        sprites.evaluate(8);
    }
    assert_eq!(sprites.sprite_count, 8);
    assert!(sprites.is_overflowing());
    assert!(sprites.is_sprite_zero_active());
    for i in 0..8usize {
        assert_eq!(sprites.get_oam_secondary().get_sprite(i).get_id(), i as u8);
    }
}

#[test]
fn sprite_evaluation_without_overflow() {
    let mut sprites = Sprites::new();
    for i in 0..64usize {
        sprites.get_oam_primary().set_byte(i * 4, if i == 5 { 100 } else { 240 });
    }
    sprites.reset_evaluation(107);
    for _ in 65..=256 {
        sprites.evaluate(8);
    }
    assert_eq!(sprites.sprite_count, 1);
    assert!(!sprites.is_overflowing());
    assert!(!sprites.is_sprite_zero_active());
    sprites.reset_evaluation(108);
    for _ in 65..=256 {
        sprites.evaluate(8);
    }
    assert_eq!(sprites.sprite_count, 0);
    sprites.reset_evaluation(108);
    for _ in 65..=256 {
        sprites.evaluate(16);
    }
    assert_eq!(sprites.sprite_count, 1);
}

#[test]
fn oam_bytes_map_to_sprite_fields() {
    let mut oam = OAM::new(2);
    oam.set_byte(4, 1);
    oam.set_byte(5, 2);
    oam.set_byte(6, 3);
    oam.set_byte(7, 4);
    let sprite = oam.get_sprite(1);
    assert_eq!((sprite.get_y(), sprite.get_id(), sprite.get_attribute().get(), sprite.get_x()), (1, 2, 3, 4));
    assert_eq!(oam.get_byte(6), 3);
    let mut s = Sprite::new();
    s.set(2, 0xE3);
    assert_eq!(s.get_attribute().get_palette(), 3);
    assert!(s.get_attribute().get_priority());
    assert!(s.get_attribute().get_flip_horizontal());
    assert!(s.get_attribute().get_flip_vertical());
}

#[test]
fn frame_is_delivered_once() {
    let mut ppu = PPU::new();
    let mut memory = video_memory();
    let mut frames = 0;
    for _ in 0..89342 * 3 {
        ppu.tick(&mut memory);
        if let Some(frame) = ppu.get_output() {
            assert_eq!(frame.len(), 256 * 240 * 3);
            frames += 1;
        }
    }
    assert_eq!(frames, 3);
    assert!(ppu.get_output().is_none());
}
