use nes_emu::bus::cpu_bus::CPUBus;
use nes_emu::bus::mapper::{from_ines, LoadError, Mapper, Mapper00};
use nes_emu::bus::ppu_bus::PPUBus;
use nes_emu::bus::utils::{mirror_namespace, mirror_namespace_horizontal, mirror_namespace_vertical};
use nes_emu::controller::controller::Controller;
use nes_emu::nes::{DMAState, NES};

/// An NROM image: `prg_banks` × 16 KiB of PRG (filled with NOP), one CHR bank,
/// `program` at 0x8000 and the reset vector pointing there.
fn image(prg_banks: u8, flags6: u8, program: &[u8]) -> Vec<u8> {
    let mut out = vec![0x4E, 0x45, 0x53, 0x1A, prg_banks, 1, flags6, 0, 0, 0, 0, 0, 0, 0, 0, 0];
    if flags6 & 4 != 0 {
        out.extend_from_slice(&vec![0xEEu8; 512]);
    }
    let size = prg_banks as usize * 0x4000;
    let mut prg = vec![0xEAu8; size];
    prg[..program.len()].copy_from_slice(program);
    prg[size - 4] = 0x00;
    prg[size - 3] = 0x80;
    out.extend_from_slice(&prg);
    let chr: Vec<u8> = (0..0x2000).map(|i| (i % 251) as u8).collect();
    out.extend_from_slice(&chr);
    out
}

fn cpu_slot(nes: &mut NES) {
    for _ in 0..12 {
        nes.tick();
    }
}

#[test]
fn loader_refuses_short_images() {
    assert!(matches!(from_ines(&[0x4E, 0x45, 0x53]), Err(LoadError::TruncatedImage)));
    let mut short = image(1, 0, &[]);
    short.truncate(16 + 0x4000);
    assert!(matches!(from_ines(&short), Err(LoadError::TruncatedImage)));
}

#[test]
fn loader_refuses_bad_magic() {
    let mut bad = image(1, 0, &[]);
    bad[3] = 0x1B;
    assert!(matches!(from_ines(&bad), Err(LoadError::InvalidHeader)));
}

#[test]
fn loader_refuses_other_mappers() {
    let mut other = image(1, 0x10, &[]);
    assert!(matches!(from_ines(&other), Err(LoadError::UnsupportedMapper)));
    other[6] = 0;
    other[7] = 0x10;
    assert!(matches!(from_ines(&other), Err(LoadError::UnsupportedMapper)));
}

#[test]
fn loader_refuses_unsupported_sizes() {
    let big = image(3, 0, &[]);
    assert!(matches!(from_ines(&big), Err(LoadError::InvalidHeader)));
    assert!(Mapper00::new(true, vec![0u8; 0x1000], vec![0u8; 0x2000], 0).is_err());
    assert!(Mapper00::new(true, vec![0u8; 0x4000], vec![0u8; 0x2000], 0x300).is_err());
}

#[test]
fn loader_reads_banks_mirroring_and_trainer() {
    let with_trainer = image(1, 0x05, &[0xA9, 0x42]);
    match from_ines(&with_trainer) {
        Ok(Mapper::NROM(m)) => {
            assert!(!m.horizontal_mirror);
            assert_eq!(m.prg_rom.len(), 0x4000);
            assert_eq!(&m.prg_rom[..2], &[0xA9, 0x42]);
            assert_eq!(m.chr_rom[300], (300 % 251) as u8);
            assert!(!m.chr_ram);
        },
        _ => panic!("image refused"),
    }
    let mut chr_ram = image(1, 0, &[]);
    chr_ram[5] = 0;
    chr_ram.truncate(16 + 0x4000);
    match from_ines(&chr_ram) {
        Ok(Mapper::NROM(m)) => {
            assert!(m.horizontal_mirror);
            assert!(m.chr_ram);
            assert_eq!(m.chr_rom.len(), 0x2000);
        },
        _ => panic!("image refused"),
    }
}

#[test]
fn nametable_mirroring() {
    assert_eq!(mirror_namespace_horizontal(0x2400), 0x2000);
    assert_eq!(mirror_namespace_horizontal(0x2C05), 0x2405);
    assert_eq!(mirror_namespace_vertical(0x2805), 0x2005);
    assert_eq!(mirror_namespace_vertical(0x2C05), 0x2405);
    assert_eq!(mirror_namespace(0x2C05, true, true), 0x2005);
    assert_eq!(mirror_namespace(0x3F05, false, true), 0x2705);
}

#[test]
fn nametable_ram_reads_back() {
    let mut bus = PPUBus::new();
    bus.write(0x27FF, 9);
    assert_eq!(bus.read(0x27FF), 9);
    assert_eq!(bus.vram[0x7FF], 9);
}

#[test]
fn nrom_prg_mirrors_and_ram() {
    let mut m = Mapper00::new(true, (0..0x4000).map(|i| (i % 256) as u8).collect(), vec![0u8; 0x2000], 0x800).unwrap();
    assert_eq!(m.cpu_read(0x8005), Some(5));
    assert_eq!(m.cpu_read(0xC005), Some(5));
    assert_eq!(m.cpu_read(0x5000), None);
    m.cpu_write(0x6001, 0x77);
    assert_eq!(m.cpu_read(0x6801), Some(0x77));
    m.ppu_write(0x0010, 0x55);
    assert_eq!(m.ppu_read(0x0010), 0);
}

#[test]
fn cpu_bus_ram_mirrors_and_open_bus() {
    let mapper = from_ines(&image(1, 0, &[0x11, 0x22])).unwrap();
    let mut bus = CPUBus::new(mapper);
    bus.write(0x0801, 0x5C);
    assert_eq!(bus.read(0x0001), 0x5C);
    assert_eq!(bus.read(0x1801), 0x5C);
    assert_eq!(bus.read(0xC001), 0x22);
    assert_eq!(bus.read(0x4018), 0x22);
    bus.write(0x4019, 0xFF);
    assert_eq!(bus.read(0x401F), 0x22);
}

#[test]
fn controller_strobe_then_serial_reads() {
    let mut pad = Controller::new();
    pad.write(0x01);
    pad.load_buttons([true, false, false, false, false, false, false, false]);
    pad.write(0x00);
    assert_eq!(pad.read(), 1);
    assert_eq!(pad.read(), 0);
    for _ in 0..6 {
        assert_eq!(pad.read(), 0);
    }
    assert_eq!(pad.read(), 1);
}

#[test]
fn controller_pattern_through_the_bus() {
    let mut nes = NES::from_ines(&image(1, 0, &[])).unwrap();
    nes.load_buttons([true, false, true, true, false, false, false, true], [false; 8]);
    nes.bus.write(0x4016, 1);
    nes.bus.write(0x4016, 0);
    let bits: Vec<u8> = (0..8).map(|_| nes.bus.read(0x4016) & 1).collect();
    assert_eq!(bits, vec![1, 0, 1, 1, 0, 0, 0, 1]);
    assert_eq!(nes.bus.read(0x4017) & 1, 0);
}

#[test]
fn controller_follows_buttons_while_strobed() {
    let mut pad = Controller::new();
    pad.write(0x01);
    pad.load_buttons([false, true, false, false, false, false, false, false]);
    assert_eq!(pad.read(), 0);
    assert_eq!(pad.read(), 0);
    pad.load_buttons([true, true, false, false, false, false, false, false]);
    assert_eq!(pad.read(), 1);
}

/// CPU slots during which the CPU is held by OAM DMA, from now until it ends.
fn stalled_slots(nes: &mut NES, limit: usize) -> (usize, usize) {
    let mut first = None;
    let mut stalled = 0;
    for slot in 0..limit {
        if nes.is_dma_active() {
            if first.is_none() {
                first = Some(slot);
            }
            stalled += 1;
        } else if first.is_some() {
            break;
        }
        cpu_slot(nes);
    }
    (first.expect("DMA started"), stalled)
}

#[test]
fn oam_dma_after_even_cycle_takes_513() {
    // LDA $00 (3), LDA #$02 (2), STA $4014 (4): the write lands on CPU cycle 9.
    let mut nes = NES::from_ines(&image(1, 0, &[0xA5, 0x00, 0xA9, 0x02, 0x8D, 0x14, 0x40])).unwrap();
    let (first, stalled) = stalled_slots(&mut nes, 2000);
    assert_eq!(first, 9);
    assert_eq!(stalled, 513);
}

#[test]
fn oam_dma_after_odd_cycle_takes_514() {
    // LDA #$02 (2), STA $4014 (4): the write lands on CPU cycle 6.
    let mut nes = NES::from_ines(&image(1, 0, &[0xA9, 0x02, 0x8D, 0x14, 0x40])).unwrap();
    let (first, stalled) = stalled_slots(&mut nes, 2000);
    assert_eq!(first, 6);
    assert_eq!(stalled, 514);
}

#[test]
fn oam_dma_at_cycle_100_copies_page_two() {
    // 47 NOPs (94 cycles), LDA #$02 (2), STA $4014 (4): the write is CPU cycle 100.
    let mut program = vec![0xEAu8; 47];
    program.extend_from_slice(&[0xA9, 0x02, 0x8D, 0x14, 0x40]);
    let mut nes = NES::from_ines(&image(1, 0, &program)).unwrap();
    for i in 0..256 {
        nes.bus.ram[0x200 + i] = (255 - i) as u8;
    }
    let (first, stalled) = stalled_slots(&mut nes, 2000);
    assert_eq!(first + 1, 101);
    assert_eq!(first + stalled, 614);
    assert_eq!(nes.dma.state, DMAState::INACTIVE);
    for i in 0..256 {
        assert_eq!(nes.bus.ppu.foreground.sprites.oam_primary.get_byte(i), (255 - i) as u8);
    }
}

#[test]
fn vblank_nmi_reaches_the_cpu() {
    // Enable NMI, then loop; the handler at 0x9000 loads 0x77 into A.
    let program = [0xA9, 0x80, 0x8D, 0x00, 0x20, 0x4C, 0x05, 0x80];
    let mut img = image(1, 0, &program);
    let handler = 16 + 0x1000;
    img[handler] = 0xA9;
    img[handler + 1] = 0x77;
    img[handler + 2] = 0x40;
    img[16 + 0x3FFA] = 0x00;
    img[16 + 0x3FFB] = 0x90;
    let mut nes = NES::from_ines(&img).unwrap();
    let mut slots = 0;
    while nes.cpu.registers.a != 0x77 {
        cpu_slot(&mut nes);
        slots += 1;
        assert!(slots < 40000);
    }
    assert!(nes.get_screen_output().is_some() || slots > 27000);
}

#[test]
fn samples_are_collected() {
    let mut nes = NES::from_ines(&image(1, 0, &[])).unwrap();
    for _ in 0..3125 {
        cpu_slot(&mut nes);
    }
    assert_eq!(nes.take_samples().len(), 77);
    nes.reset();
    assert_eq!(nes.cycle, 0);
}
