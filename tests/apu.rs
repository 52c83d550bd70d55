use nes_emu::apu::apu::APU;
use nes_emu::apu::components::{Divider, Envelope, LengthCounter, Timer};
use nes_emu::apu::delta_modulation_channel::DeltaModulationChannel;
use nes_emu::apu::noise_channel::{LinearFeedbackShiftRegister, NoiseChannel};
use nes_emu::apu::pulse_channel::{PulseChannel, PulseSequencer, Sweep};
use nes_emu::apu::registers::{APURegister, DMCRegister, NoiseRegister, PulseRegister, TriangleRegister};
use nes_emu::apu::triangle_channel::{LinearCounter, TriangleChannel, TriangleSequencer};

fn lfsr_period(mode: bool) -> u32 {
    let mut lfsr = LinearFeedbackShiftRegister::new();
    lfsr.set_mode(mode);
    let mut n = 0;
    loop {
        lfsr.tick();
        n += 1;
        if lfsr.value == 1 || n > 40000 {
            return n;
        }
    }
}

#[test]
fn noise_period_long_mode() {
    assert_eq!(lfsr_period(false), 32767);
}

#[test]
fn noise_period_short_mode() {
    assert_eq!(lfsr_period(true), 93);
}

#[test]
fn lfsr_mutes_on_bit_zero() {
    let mut lfsr = LinearFeedbackShiftRegister::new();
    assert!(lfsr.is_muting());
    lfsr.tick();
    assert_eq!(lfsr.value, 0x4000);
    assert!(!lfsr.is_muting());
}

#[test]
fn pulse_waveform_period_and_duty() {
    let mut pulse = PulseChannel::new(1);
    pulse.set_enabled(true);
    pulse.write(PulseRegister::Volume, 0b1001_1111);
    pulse.write(PulseRegister::Low, 253);
    pulse.write(PulseRegister::High, 0);
    assert_eq!(pulse.sweep.timer.get_period(), 253);
    // Timers are clocked on every other CPU cycle.
    let mut levels = Vec::new();
    for cycle in 0..3 * 4064 {
        if cycle % 2 == 1 {
            pulse.tick_timer();
        }
        levels.push(pulse.get_output());
    }
    let rises: Vec<usize> = (1..levels.len()).filter(|&i| levels[i - 1] == 0 && levels[i] == 15).collect();
    assert!(rises.len() >= 2);
    assert_eq!(rises[1] - rises[0], 2 * (253 + 1) * 8);
    let window = &levels[rises[0]..rises[0] + 4064];
    let high = window.iter().filter(|&&l| l == 15).count();
    assert_eq!(high, 4064 / 2);
}

#[test]
fn pulse_sequencer_steps_down() {
    let mut seq = PulseSequencer::new();
    seq.set_duty(1);
    let mut out = Vec::new();
    for _ in 0..8 {
        seq.tick();
        out.push(seq.get_output());
    }
    assert_eq!(out, vec![1, 1, 0, 0, 0, 0, 0, 0]);
    seq.restart();
    assert_eq!(seq.counter, 0);
}

#[test]
fn sweep_mutes_and_adjusts() {
    let mut sweep = Sweep::new(2);
    sweep.timer.set_period(7);
    assert!(sweep.is_muting());
    sweep.timer.set_period(0x700);
    sweep.shift = 1;
    assert!(sweep.is_muting());
    sweep.negate = true;
    assert!(!sweep.is_muting());
    sweep.enabled = true;
    sweep.tick();
    assert_eq!(sweep.timer.get_period(), 0x700 - 0x380);
    let mut first = Sweep::new(1);
    first.timer.set_period(0x100);
    first.shift = 1;
    first.negate = true;
    first.enabled = true;
    first.tick();
    assert_eq!(first.timer.get_period(), 0x100 - 0x80 - 1);
}

#[test]
fn length_counter_table_and_halt() {
    let mut length = LengthCounter::new();
    length.set(0);
    assert_eq!(length.get(), 10);
    length.set(1);
    assert_eq!(length.get(), 254);
    length.set(31);
    assert_eq!(length.get(), 30);
    length.tick();
    assert_eq!(length.get(), 29);
    length.set_halt(true);
    length.tick();
    assert_eq!(length.get(), 29);
    length.clear();
    assert!(length.is_muting());
}

#[test]
fn envelope_decays_and_loops() {
    let mut envelope = Envelope::new();
    envelope.set_start();
    envelope.tick();
    assert_eq!(envelope.get_output(), 15);
    for expected in (0..15).rev() {
        envelope.tick();
        assert_eq!(envelope.get_output(), expected);
    }
    envelope.tick();
    assert_eq!(envelope.get_output(), 0);
    envelope.set_loop(true);
    envelope.tick();
    assert_eq!(envelope.get_output(), 15);
    envelope.set_constant_volume(true);
    envelope.get_divider().set_reload(9);
    assert_eq!(envelope.get_output(), 9);
}

#[test]
fn divider_and_timer_fire_after_reload() {
    let mut divider = Divider::new();
    divider.set_reload(2);
    assert!(divider.tick());
    assert!(!divider.tick());
    assert!(!divider.tick());
    assert!(divider.tick());
    let mut timer = Timer::new();
    timer.set_period(1);
    assert!(timer.tick());
    assert!(!timer.tick());
    assert!(timer.tick());
}

#[test]
fn triangle_sequence() {
    let mut seq = TriangleSequencer::new();
    let mut out = Vec::new();
    for _ in 0..32 {
        out.push(seq.get_output());
        seq.tick();
    }
    let expected: Vec<u8> = (0..16).rev().chain(0..16).collect();
    assert_eq!(out, expected);
    assert_eq!(seq.index, 0);
}

#[test]
fn linear_counter_reloads_and_counts() {
    let mut counter = LinearCounter::new();
    counter.set_reload_value(3);
    counter.set_reload();
    counter.tick();
    assert_eq!(counter.get(), 3);
    counter.tick();
    assert_eq!(counter.get(), 2);
    counter.set_control(true);
    counter.set_reload();
    counter.tick();
    counter.tick();
    assert_eq!(counter.get(), 3);
}

#[test]
fn triangle_steps_only_with_both_counters() {
    let mut triangle = TriangleChannel::new();
    triangle.set_enabled(true);
    triangle.write(TriangleRegister::Linear, 0x7F);
    triangle.write(TriangleRegister::Low, 0);
    triangle.write(TriangleRegister::High, 0);
    triangle.tick_timer();
    assert_eq!(triangle.get_output(), 15);
    triangle.get_linear_counter().tick();
    triangle.tick_timer();
    assert_eq!(triangle.get_output(), 14);
}

#[test]
fn noise_register_writes() {
    let mut noise = NoiseChannel::new();
    noise.set_enabled(true);
    noise.write(NoiseRegister::Volume, 0x1A);
    noise.write(NoiseRegister::Low, 0x83);
    noise.write(NoiseRegister::High, 0x08);
    assert!(noise.shift_register.mode);
    assert_eq!(noise.timer.get_period(), 32);
    assert_eq!(noise.get_length_counter().get(), 254);
    assert_eq!(noise.get_output(), 0);
    noise.timer.set_period(0);
    noise.tick_timer();
    assert_eq!(noise.get_output(), 10);
}

#[test]
fn dmc_level_moves_by_two_within_range() {
    let mut dmc = DeltaModulationChannel::new();
    dmc.write(DMCRegister::Raw, 0x7E);
    assert_eq!(dmc.get_output(), 126);
    dmc.shift_register = 0xFF;
    dmc.tick_timer();
    assert_eq!(dmc.get_output(), 126);
    dmc.write(DMCRegister::Raw, 1);
    dmc.shift_register = 0x00;
    dmc.tick_timer();
    assert_eq!(dmc.get_output(), 1);
    dmc.write(DMCRegister::Raw, 10);
    dmc.shift_register = 0x01;
    dmc.tick_timer();
    assert_eq!(dmc.get_output(), 12);
}

#[test]
fn dmc_start_and_length_registers() {
    let mut dmc = DeltaModulationChannel::new();
    dmc.write(DMCRegister::Start, 0x10);
    dmc.write(DMCRegister::Length, 0x02);
    assert_eq!(dmc.reader.sample_address, 0xC400);
    assert_eq!(dmc.reader.sample_length, 0x21);
    dmc.restart_sample();
    assert!(dmc.are_bytes_remaining());
    assert!(dmc.get_dma());
    dmc.reset_dma();
    assert!(!dmc.get_dma());
}

#[test]
fn frame_counter_raises_irq_in_four_step_mode() {
    let mut apu = APU::new();
    for _ in 0..29828 {
        apu.tick();
    }
    assert!(!apu.get_irq());
    for _ in 0..4 {
        apu.tick();
    }
    assert!(apu.get_irq());
    let status = apu.read_sound_channels_enable();
    assert_eq!(status & 0x40, 0x40);
    assert!(!apu.get_irq());
}

#[test]
fn frame_counter_inhibit_and_five_step_mode() {
    let mut apu = APU::new();
    apu.write(APURegister::FrameCounter, 0x40);
    for _ in 0..40000 {
        apu.tick();
    }
    assert!(!apu.get_irq());
    let mut five = APU::new();
    five.write(APURegister::FrameCounter, 0x80);
    for _ in 0..40000 {
        five.tick();
    }
    assert!(!five.get_irq());
}

#[test]
fn channel_enable_and_status() {
    let mut apu = APU::new();
    apu.write(APURegister::SoundChannelsEnable, 0x0F);
    apu.write(APURegister::Pulse1(PulseRegister::High), 0x08);
    apu.write(APURegister::Noise(NoiseRegister::High), 0x08);
    assert_eq!(apu.read_sound_channels_enable(), 0x20 | 0x01 | 0x08);
    apu.write(APURegister::SoundChannelsEnable, 0x00);
    assert_eq!(apu.read_sound_channels_enable(), 0x20);
}

#[test]
fn register_addresses() {
    assert_eq!(APURegister::from_address(0x4000), APURegister::Pulse1(PulseRegister::Volume));
    assert_eq!(APURegister::from_address(0x4007), APURegister::Pulse2(PulseRegister::High));
    assert_eq!(APURegister::from_address(0x4008), APURegister::Triangle(TriangleRegister::Linear));
    assert_eq!(APURegister::from_address(0x4009), APURegister::Unused);
    assert_eq!(APURegister::from_address(0x400E), APURegister::Noise(NoiseRegister::Low));
    assert_eq!(APURegister::from_address(0x4013), APURegister::DMC(DMCRegister::Length));
    assert_eq!(APURegister::from_address(0x4015), APURegister::SoundChannelsEnable);
    assert_eq!(APURegister::from_address(0x4017), APURegister::FrameCounter);
}

#[test]
fn resampler_emits_77_samples_per_3125_cycles() {
    let mut apu = APU::new();
    for _ in 0..3125 {
        apu.tick();
    }
    assert_eq!(apu.get_output().len(), 77);
    assert_eq!(apu.get_output().len(), 0);
    apu.reset();
    assert!(!apu.get_irq());
}
