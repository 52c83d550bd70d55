use vstd::prelude::*;
use crate::apu::delta_modulation_channel::DeltaModulationChannel;
use crate::apu::noise_channel::NoiseChannel;
use crate::apu::pulse_channel::PulseChannel;
use crate::apu::registers::APURegister;
use crate::apu::triangle_channel::{TriangleChannel, linear_step, triangle_step};
use crate::apu::components::{envelope_step, length_step};
use crate::apu::pulse_channel::sweep_step;

verus! {

/// Audio samples per 3125 CPU cycles: the resampling ratio 77/3125.
pub const SAMPLE_NUMERATOR: u32 = 77;
pub const SAMPLE_DENOMINATOR: u32 = 3125;

/// The five channel levels at one output sample, ready for the mixer.
#[derive(Clone, Copy, PartialEq, Eq, Structural, Debug)]
pub struct ChannelLevels {
    pub pulse1: u8,
    pub pulse2: u8,
    pub triangle: u8,
    pub noise: u8,
    pub dmc: u8,
}

/// Whether the CPU cycle `ticks` (1..3125) of the resampling window emits a sample.
pub open spec fn sample_due(ticks: int) -> bool {
    (ticks - 1) * 77 / 3125 < ticks * 77 / 3125
}

/// The channel levels of an APU state.
pub open spec fn levels_of(a: APU) -> ChannelLevels {
    ChannelLevels {
        pulse1: a.pulse_channel1.output(),
        pulse2: a.pulse_channel2.output(),
        triangle: triangle_step(a.triangle_channel.sequencer.index),
        noise: a.noise_channel.output(),
        dmc: a.dmc_channel.output_level,
    }
}

/// A quarter-frame clock: envelopes and the triangle's linear counter.
pub open spec fn quarter_frame(a: APU) -> APU {
    APU {
        pulse_channel1: PulseChannel { envelope: envelope_step(a.pulse_channel1.envelope), ..a.pulse_channel1 },
        pulse_channel2: PulseChannel { envelope: envelope_step(a.pulse_channel2.envelope), ..a.pulse_channel2 },
        triangle_channel: TriangleChannel { linear_counter: linear_step(a.triangle_channel.linear_counter), ..a.triangle_channel },
        noise_channel: NoiseChannel { envelope: envelope_step(a.noise_channel.envelope), ..a.noise_channel },
        ..a
    }
}

/// A half-frame clock: length counters and sweeps.
pub open spec fn half_frame(a: APU) -> APU {
    APU {
        pulse_channel1: PulseChannel {
            length_counter: length_step(a.pulse_channel1.length_counter),
            sweep: sweep_step(a.pulse_channel1.sweep),
            ..a.pulse_channel1
        },
        pulse_channel2: PulseChannel {
            length_counter: length_step(a.pulse_channel2.length_counter),
            sweep: sweep_step(a.pulse_channel2.sweep),
            ..a.pulse_channel2
        },
        triangle_channel: TriangleChannel { length_counter: length_step(a.triangle_channel.length_counter), ..a.triangle_channel },
        noise_channel: NoiseChannel { length_counter: length_step(a.noise_channel.length_counter), ..a.noise_channel },
        ..a
    }
}

/// Sequencer steps with a quarter-frame clock: 3728, 7456, 11185 and the
/// last step (14914 in 4-step mode, 18640 in 5-step mode).
pub open spec fn quarter_step(step: u16, five: bool) -> bool {
    step == 3728 || step == 7456 || step == 11185 || (!five && step == 14914) || (five && step == 18640)
}

/// Sequencer steps with a half-frame clock: 7456 and the last step.
pub open spec fn half_step(step: u16, five: bool) -> bool {
    step == 7456 || (!five && step == 14914) || (five && step == 18640)
}

/// One CPU cycle of the frame counter: a pending mode write counts down and
/// then takes effect (restarting the sequence); on every other cycle the
/// sequencer issues its clocks, raises the IRQ at 14914 in 4-step mode
/// unless inhibited, and advances, wrapping after 14914 (4-step) or 18640 (5-step).
pub open spec fn frame_counter_step(a: APU) -> APU {
    let a1 = APU { frame_counter: write_applied(a.frame_counter), ..a };
    if a.apu_tick { a1 } else { sequencer_step(a1) }
}

/// The frame counter after a pending mode write counts down by one cycle.
pub open spec fn write_applied(fc: FrameCounter) -> FrameCounter {
    match fc.next_write {
        Some(v) => if v > 0 {
            FrameCounter { next_write: Some((v - 1) as u8), ..fc }
        } else {
            FrameCounter {
                sequencer: 0,
                sequence_mode: fc.next_sequence_mode,
                interrupt_inhibit: fc.next_interrupt_inhibit,
                next_write: None,
                ..fc
            }
        },
        None => fc,
    }
}

/// One step of the sequencer with its clocks and interrupt.
pub open spec fn sequencer_step(a1: APU) -> APU {
    let fc1 = a1.frame_counter;
    let step = fc1.sequencer;
    let five = fc1.sequence_mode;
    let a2 = if quarter_step(step, five) { quarter_frame(a1) } else { a1 };
    let a3 = if half_step(step, five) { half_frame(a2) } else { a2 };
    let a4 = if !five && step == 14914 && !fc1.interrupt_inhibit { APU { irq: true, ..a3 } } else { a3 };
    let next = step + 1;
    let wrapped = if five { if next >= 18641 { 0 } else { next } } else { if next >= 14915 { 0 } else { next } };
    APU { frame_counter: FrameCounter { sequencer: wrapped as u16, ..fc1 }, ..a4 }
}

/// The frame sequencer and its deferred mode write.
pub struct FrameCounter {
    pub sequencer: u16,
    pub sequence_mode: bool,
    pub interrupt_inhibit: bool,
    pub next_sequence_mode: bool,
    pub next_interrupt_inhibit: bool,
    pub next_write: Option<u8>,
}

impl FrameCounter {
    pub open spec fn wf(&self) -> bool {
        self.sequencer < 18641 && (!self.sequence_mode ==> self.sequencer < 14915)
    }

    pub fn new() -> (r: Self)
        ensures
            r.wf(),
            r.sequencer == 0 && !r.sequence_mode && !r.interrupt_inhibit && r.next_write.is_none(),
    {
        FrameCounter {
            sequencer: 0,
            sequence_mode: false,
            interrupt_inhibit: false,
            next_sequence_mode: false,
            next_interrupt_inhibit: false,
            next_write: None,
        }
    }
}

/// The audio-generation unit.
pub struct APU {
    pub frame_counter: FrameCounter,
    pub pulse_channel1: PulseChannel,
    pub pulse_channel2: PulseChannel,
    pub triangle_channel: TriangleChannel,
    pub noise_channel: NoiseChannel,
    pub dmc_channel: DeltaModulationChannel,
    pub apu_tick: bool,
    pub irq: bool,
    pub ticks: u32,
    pub samples: Vec<ChannelLevels>,
}

impl APU {
    pub open spec fn wf(&self) -> bool {
        &&& self.frame_counter.wf()
        &&& self.pulse_channel1.wf()
        &&& self.pulse_channel2.wf()
        &&& self.triangle_channel.wf()
        &&& self.noise_channel.wf()
        &&& self.dmc_channel.wf()
        &&& self.ticks < 3125
    }

    pub fn new() -> (r: Self)
        ensures
            r.wf(),
            !r.irq,
            r.samples@.len() == 0,
            !r.pulse_channel1.enabled && !r.pulse_channel2.enabled,
            !r.triangle_channel.enabled && !r.noise_channel.enabled,
    {
        APU {
            frame_counter: FrameCounter::new(),
            pulse_channel1: PulseChannel::new(1),
            pulse_channel2: PulseChannel::new(2),
            triangle_channel: TriangleChannel::new(),
            noise_channel: NoiseChannel::new(),
            dmc_channel: DeltaModulationChannel::new(),
            apu_tick: false,
            irq: false,
            ticks: 0,
            samples: Vec::new(),
        }
    }

    /// Back to the power-up state: counters cleared, channels disabled.
    pub fn reset(&mut self)
        ensures
            final(self).wf(),
            !final(self).irq,
            !final(self).pulse_channel1.enabled && !final(self).pulse_channel2.enabled,
            !final(self).triangle_channel.enabled && !final(self).noise_channel.enabled,
            final(self).pulse_channel1.length_counter.counter == 0,
            final(self).pulse_channel2.length_counter.counter == 0,
            final(self).triangle_channel.length_counter.counter == 0,
            final(self).noise_channel.length_counter.counter == 0,
    {
        self.frame_counter = FrameCounter::new();
        self.pulse_channel1 = PulseChannel::new(1);
        self.pulse_channel2 = PulseChannel::new(2);
        self.triangle_channel = TriangleChannel::new();
        self.noise_channel = NoiseChannel::new();
        self.dmc_channel = DeltaModulationChannel::new();
        self.apu_tick = false;
        self.irq = false;
        self.ticks = 0;
    }

    fn send_irq(&mut self)
        ensures
            final(self).irq,
            final(self).wf() == old(self).wf(),
            final(self).frame_counter == old(self).frame_counter,
            final(self).apu_tick == old(self).apu_tick,
            final(self).ticks == old(self).ticks,
            final(self).samples == old(self).samples,
            final(self).pulse_channel1 == old(self).pulse_channel1,
            final(self).pulse_channel2 == old(self).pulse_channel2,
            final(self).triangle_channel == old(self).triangle_channel,
            final(self).noise_channel == old(self).noise_channel,
            final(self).dmc_channel == old(self).dmc_channel,
    {
        self.irq = true;
    }

    pub fn reset_irq(&mut self)
        ensures
            !final(self).irq,
            final(self).wf() == old(self).wf(),
            final(self).frame_counter == old(self).frame_counter,
            final(self).apu_tick == old(self).apu_tick,
            final(self).ticks == old(self).ticks,
            final(self).samples == old(self).samples,
            final(self).pulse_channel1 == old(self).pulse_channel1,
            final(self).pulse_channel2 == old(self).pulse_channel2,
            final(self).triangle_channel == old(self).triangle_channel,
            final(self).noise_channel == old(self).noise_channel,
            final(self).dmc_channel == old(self).dmc_channel,
    {
        self.irq = false;
    }

    /// The interrupt line: the frame interrupt or the DMC's.
    pub fn get_irq(&self) -> (r: bool)
        ensures
            r == (self.irq || self.dmc_channel.reader.interrupt),
    {
        self.irq || self.dmc_channel.get_irq()
    }

    /// A read of 0x4015: which length counters run, DMC activity, and the
    /// interrupt flags; the frame interrupt clears.
    pub fn read_sound_channels_enable(&mut self) -> (r: u8)
        requires
            old(self).wf(),
        ensures
            final(self).wf(),
            !final(self).irq,
            r == 0x20
                + (if old(self).pulse_channel1.length_counter.counter > 0 { 0x01int } else { 0 })
                + (if old(self).pulse_channel2.length_counter.counter > 0 { 0x02int } else { 0 })
                + (if old(self).triangle_channel.length_counter.counter > 0 { 0x04int } else { 0 })
                + (if old(self).noise_channel.length_counter.counter > 0 { 0x08int } else { 0 })
                + (if old(self).dmc_channel.reader.bytes_remaining > 0 { 0x10int } else { 0 })
                + (if old(self).irq { 0x40int } else { 0 })
                + (if old(self).dmc_channel.reader.interrupt { 0x80int } else { 0 }),
    {
        let mut data: u8 = 0x20;
        if self.pulse_channel1.length_counter.get() > 0 {
            data = data + 0x01;
        }
        if self.pulse_channel2.length_counter.get() > 0 {
            data = data + 0x02;
        }
        if self.triangle_channel.length_counter.get() > 0 {
            data = data + 0x04;
        }
        if self.noise_channel.length_counter.get() > 0 {
            data = data + 0x08;
        }
        if self.dmc_channel.are_bytes_remaining() {
            data = data + 0x10;
        }
        if self.irq {
            data = data + 0x40;
            self.reset_irq();
        }
        if self.dmc_channel.get_irq() {
            data = data + 0x80;
        }
        data
    }

    /// A CPU write of an audio register.
    #[verifier::rlimit(50)]
    pub fn write(&mut self, register: APURegister, value: u8)
        requires
            old(self).wf(),
        ensures
            final(self).wf(),
            register == APURegister::SoundChannelsEnable ==> {
                &&& final(self).pulse_channel1.enabled == (value & 0x01 != 0)
                &&& final(self).pulse_channel2.enabled == (value & 0x02 != 0)
                &&& final(self).triangle_channel.enabled == (value & 0x04 != 0)
                &&& final(self).noise_channel.enabled == (value & 0x08 != 0)
                &&& value & 0x01 == 0 ==> final(self).pulse_channel1.length_counter.counter == 0
                &&& value & 0x02 == 0 ==> final(self).pulse_channel2.length_counter.counter == 0
                &&& value & 0x04 == 0 ==> final(self).triangle_channel.length_counter.counter == 0
                &&& value & 0x08 == 0 ==> final(self).noise_channel.length_counter.counter == 0
                &&& value & 0x10 == 0 ==> final(self).dmc_channel.reader.bytes_remaining == 0
            },
            register == APURegister::FrameCounter ==> {
                &&& final(self).frame_counter.next_write == Some(if old(self).apu_tick { 3u8 } else { 4u8 })
                &&& final(self).frame_counter.next_sequence_mode == (value & 0x80 != 0)
                &&& final(self).frame_counter.next_interrupt_inhibit == (value & 0x40 != 0)
                &&& value & 0x40 != 0 ==> !final(self).irq
                &&& value & 0x80 != 0 ==> {
                    let clocked = half_frame(quarter_frame(*old(self)));
                    &&& final(self).pulse_channel1 == clocked.pulse_channel1
                    &&& final(self).pulse_channel2 == clocked.pulse_channel2
                    &&& final(self).triangle_channel == clocked.triangle_channel
                    &&& final(self).noise_channel == clocked.noise_channel
                }
                &&& value & 0x80 == 0 ==> {
                    &&& final(self).pulse_channel1 == old(self).pulse_channel1
                    &&& final(self).pulse_channel2 == old(self).pulse_channel2
                    &&& final(self).triangle_channel == old(self).triangle_channel
                    &&& final(self).noise_channel == old(self).noise_channel
                }
            },
            register == APURegister::SoundChannelsEnable ==> {
                &&& value & 0x01 != 0 ==> final(self).pulse_channel1.length_counter == old(self).pulse_channel1.length_counter
                &&& value & 0x02 != 0 ==> final(self).pulse_channel2.length_counter == old(self).pulse_channel2.length_counter
                &&& value & 0x04 != 0 ==> final(self).triangle_channel.length_counter == old(self).triangle_channel.length_counter
                &&& value & 0x08 != 0 ==> final(self).noise_channel.length_counter == old(self).noise_channel.length_counter
            },
            register matches APURegister::Pulse1(_) ==> *final(self) == (APU { pulse_channel1: final(self).pulse_channel1, ..*old(self) }),
            register matches APURegister::Pulse2(_) ==> *final(self) == (APU { pulse_channel2: final(self).pulse_channel2, ..*old(self) }),
            register matches APURegister::Triangle(_) ==> *final(self) == (APU { triangle_channel: final(self).triangle_channel, ..*old(self) }),
            register matches APURegister::Noise(_) ==> *final(self) == (APU { noise_channel: final(self).noise_channel, ..*old(self) }),
            register matches APURegister::DMC(_) ==> *final(self) == (APU { dmc_channel: final(self).dmc_channel, ..*old(self) }),
            register == APURegister::Unused ==> *final(self) == *old(self),
            final(self).ticks == old(self).ticks && final(self).apu_tick == old(self).apu_tick,
            final(self).samples == old(self).samples,
            register == APURegister::SoundChannelsEnable ==> final(self).frame_counter == old(self).frame_counter && final(self).irq == old(self).irq,
            register == APURegister::FrameCounter ==> {
                &&& final(self).frame_counter.sequencer == old(self).frame_counter.sequencer
                &&& final(self).frame_counter.sequence_mode == old(self).frame_counter.sequence_mode
                &&& final(self).frame_counter.interrupt_inhibit == old(self).frame_counter.interrupt_inhibit
                &&& value & 0x40 == 0 ==> final(self).irq == old(self).irq
            },
    {
        match register {
            APURegister::Pulse1(r) => self.pulse_channel1.write(r, value),
            APURegister::Pulse2(r) => self.pulse_channel2.write(r, value),
            APURegister::Triangle(r) => self.triangle_channel.write(r, value),
            APURegister::Noise(r) => self.noise_channel.write(r, value),
            APURegister::DMC(r) => self.dmc_channel.write(r, value),
            APURegister::SoundChannelsEnable => self.write_enable(value),
            APURegister::FrameCounter => self.write_frame_counter(value),
            APURegister::Unused => {},
        }
    }

    fn write_enable(&mut self, value: u8)
        requires
            old(self).wf(),
        ensures
            final(self).wf(),
            ({
                &&& final(self).pulse_channel1.enabled == (value & 0x01 != 0)
                &&& final(self).pulse_channel2.enabled == (value & 0x02 != 0)
                &&& final(self).triangle_channel.enabled == (value & 0x04 != 0)
                &&& final(self).noise_channel.enabled == (value & 0x08 != 0)
                &&& value & 0x01 == 0 ==> final(self).pulse_channel1.length_counter.counter == 0
                &&& value & 0x02 == 0 ==> final(self).pulse_channel2.length_counter.counter == 0
                &&& value & 0x04 == 0 ==> final(self).triangle_channel.length_counter.counter == 0
                &&& value & 0x08 == 0 ==> final(self).noise_channel.length_counter.counter == 0
                &&& value & 0x10 == 0 ==> final(self).dmc_channel.reader.bytes_remaining == 0
            }),
            ({
                &&& value & 0x01 != 0 ==> final(self).pulse_channel1.length_counter == old(self).pulse_channel1.length_counter
                &&& value & 0x02 != 0 ==> final(self).pulse_channel2.length_counter == old(self).pulse_channel2.length_counter
                &&& value & 0x04 != 0 ==> final(self).triangle_channel.length_counter == old(self).triangle_channel.length_counter
                &&& value & 0x08 != 0 ==> final(self).noise_channel.length_counter == old(self).noise_channel.length_counter
            }),
            final(self).ticks == old(self).ticks && final(self).apu_tick == old(self).apu_tick,
            final(self).samples == old(self).samples,
            final(self).frame_counter == old(self).frame_counter && final(self).irq == old(self).irq,
    {
        self.noise_channel.set_enabled(value & 0x08 != 0);
        self.triangle_channel.set_enabled(value & 0x04 != 0);
        self.pulse_channel2.set_enabled(value & 0x02 != 0);
        self.pulse_channel1.set_enabled(value & 0x01 != 0);
        if !self.pulse_channel1.is_enabled() {
            self.pulse_channel1.length_counter.clear();
        }
        if !self.pulse_channel2.is_enabled() {
            self.pulse_channel2.length_counter.clear();
        }
        if !self.triangle_channel.is_enabled() {
            self.triangle_channel.length_counter.clear();
        }
        if !self.noise_channel.is_enabled() {
            self.noise_channel.length_counter.clear();
        }
        self.dmc_channel.reset_irq();
        if value & 0x10 == 0 {
            self.dmc_channel.set_bytes_remaining(0);
        } else if !self.dmc_channel.are_bytes_remaining() {
            self.dmc_channel.restart_sample();
        }
    }

    fn write_frame_counter(&mut self, value: u8)
        requires
            old(self).wf(),
        ensures
            final(self).wf(),
            ({
                &&& final(self).frame_counter.next_write == Some(if old(self).apu_tick { 3u8 } else { 4u8 })
                &&& final(self).frame_counter.next_sequence_mode == (value & 0x80 != 0)
                &&& final(self).frame_counter.next_interrupt_inhibit == (value & 0x40 != 0)
                &&& value & 0x40 != 0 ==> !final(self).irq
                &&& value & 0x80 != 0 ==> {
                    let clocked = half_frame(quarter_frame(*old(self)));
                    &&& final(self).pulse_channel1 == clocked.pulse_channel1
                    &&& final(self).pulse_channel2 == clocked.pulse_channel2
                    &&& final(self).triangle_channel == clocked.triangle_channel
                    &&& final(self).noise_channel == clocked.noise_channel
                }
                &&& value & 0x80 == 0 ==> {
                    &&& final(self).pulse_channel1 == old(self).pulse_channel1
                    &&& final(self).pulse_channel2 == old(self).pulse_channel2
                    &&& final(self).triangle_channel == old(self).triangle_channel
                    &&& final(self).noise_channel == old(self).noise_channel
                }
            }),
            final(self).ticks == old(self).ticks && final(self).apu_tick == old(self).apu_tick,
            final(self).samples == old(self).samples,
            final(self).frame_counter.sequencer == old(self).frame_counter.sequencer,
            final(self).frame_counter.sequence_mode == old(self).frame_counter.sequence_mode,
            final(self).frame_counter.interrupt_inhibit == old(self).frame_counter.interrupt_inhibit,
            final(self).dmc_channel == old(self).dmc_channel,
            value & 0x40 == 0 ==> final(self).irq == old(self).irq,
    {
        self.frame_counter.next_write = Some(if self.apu_tick { 3 } else { 4 });
        self.frame_counter.next_sequence_mode = value & 0x80 != 0;
        self.frame_counter.next_interrupt_inhibit = value & 0x40 != 0;
        if self.frame_counter.next_interrupt_inhibit {
            self.reset_irq();
        }
        if self.frame_counter.next_sequence_mode {
            self.tick_quarter_frame();
            self.tick_half_frame();
        }
    }

    /// Quarter frame: envelopes and the triangle's linear counter.
    fn tick_quarter_frame(&mut self)
        requires
            old(self).wf(),
        ensures
            final(self).wf(),
            *final(self) == quarter_frame(*old(self)),
            final(self).frame_counter == old(self).frame_counter,
            final(self).irq == old(self).irq,
            final(self).apu_tick == old(self).apu_tick,
            final(self).ticks == old(self).ticks,
            final(self).pulse_channel1.enabled == old(self).pulse_channel1.enabled,
            final(self).pulse_channel2.enabled == old(self).pulse_channel2.enabled,
            final(self).triangle_channel.enabled == old(self).triangle_channel.enabled,
            final(self).noise_channel.enabled == old(self).noise_channel.enabled,
            final(self).pulse_channel1.length_counter == old(self).pulse_channel1.length_counter,
            final(self).pulse_channel2.length_counter == old(self).pulse_channel2.length_counter,
            final(self).triangle_channel.length_counter == old(self).triangle_channel.length_counter,
            final(self).noise_channel.length_counter == old(self).noise_channel.length_counter,
            final(self).dmc_channel == old(self).dmc_channel,
            final(self).samples == old(self).samples,
    {
        self.pulse_channel1.envelope.tick();
        self.pulse_channel2.envelope.tick();
        self.triangle_channel.linear_counter.tick();
        self.noise_channel.envelope.tick();
    }

    /// Half frame: length counters and sweeps.
    fn tick_half_frame(&mut self)
        requires
            old(self).wf(),
        ensures
            final(self).wf(),
            *final(self) == half_frame(*old(self)),
            final(self).frame_counter == old(self).frame_counter,
            final(self).irq == old(self).irq,
            final(self).apu_tick == old(self).apu_tick,
            final(self).ticks == old(self).ticks,
            final(self).pulse_channel1.enabled == old(self).pulse_channel1.enabled,
            final(self).pulse_channel2.enabled == old(self).pulse_channel2.enabled,
            final(self).triangle_channel.enabled == old(self).triangle_channel.enabled,
            final(self).noise_channel.enabled == old(self).noise_channel.enabled,
            final(self).dmc_channel == old(self).dmc_channel,
            final(self).samples == old(self).samples,
    {
        self.pulse_channel1.length_counter.tick();
        self.pulse_channel2.length_counter.tick();
        self.triangle_channel.length_counter.tick();
        self.noise_channel.length_counter.tick();
        self.pulse_channel1.sweep.tick();
        self.pulse_channel2.sweep.tick();
    }

    /// One CPU cycle of the frame sequencer, which steps on every other cycle.
    fn tick_frame_counter(&mut self)
        requires
            old(self).wf(),
        ensures
            final(self).wf(),
            *final(self) == frame_counter_step(*old(self)),
    {
        self.apply_frame_write();
        if !self.apu_tick {
            self.step_sequencer();
        }
    }

    fn apply_frame_write(&mut self)
        requires
            old(self).wf(),
        ensures
            final(self).wf(),
            *final(self) == (APU { frame_counter: write_applied(old(self).frame_counter), ..*old(self) }),
    {
        match self.frame_counter.next_write {
            Some(value) => {
                if value > 0 {
                    self.frame_counter.next_write = Some(value - 1);
                } else {
                    self.frame_counter.sequencer = 0;
                    self.frame_counter.sequence_mode = self.frame_counter.next_sequence_mode;
                    self.frame_counter.interrupt_inhibit = self.frame_counter.next_interrupt_inhibit;
                    self.frame_counter.next_write = None;
                }
            },
            None => {},
        }
    }

    #[verifier::rlimit(50)]
    fn step_sequencer(&mut self)
        requires
            old(self).wf(),
        ensures
            final(self).wf(),
            *final(self) == sequencer_step(*old(self)),
    {
        let step = self.frame_counter.sequencer;
        let five = self.frame_counter.sequence_mode;
        if step == 3728 || step == 11185 {
            self.tick_quarter_frame();
        } else if step == 7456 {
            self.tick_quarter_frame();
            self.tick_half_frame();
        } else if step == 14914 && !five {
            self.tick_quarter_frame();
            self.tick_half_frame();
            if !self.frame_counter.interrupt_inhibit {
                self.send_irq();
            }
        } else if step == 18640 && five {
            self.tick_quarter_frame();
            self.tick_half_frame();
        }
        let next = self.frame_counter.sequencer + 1;
        if five {
            self.frame_counter.sequencer = if next >= 18641 { 0 } else { next };
        } else {
            self.frame_counter.sequencer = if next >= 14915 { 0 } else { next };
        }
    }

    /// The five channel levels now.
    pub fn get_levels(&self) -> (r: ChannelLevels)
        requires
            self.wf(),
        ensures
            r == levels_of(*self),
            r.pulse1 == self.pulse_channel1.output() && r.pulse2 == self.pulse_channel2.output(),
            r.noise == self.noise_channel.output(),
            r.dmc == self.dmc_channel.output_level,
            r.pulse1 < 16 && r.pulse2 < 16 && r.triangle < 16 && r.noise < 16 && r.dmc < 128,
    {
        ChannelLevels {
            pulse1: self.pulse_channel1.get_output(),
            pulse2: self.pulse_channel2.get_output(),
            triangle: self.triangle_channel.get_output(),
            noise: self.noise_channel.get_output(),
            dmc: self.dmc_channel.get_output(),
        }
    }

    /// One CPU cycle: pulse, noise and DMC timers on every other cycle, the
    /// triangle's on every cycle, the frame sequencer, and the resampler.
    pub fn tick(&mut self)
        requires
            old(self).wf(),
        ensures
            final(self).wf(),
            final(self).apu_tick == !old(self).apu_tick,
            final(self).ticks == (old(self).ticks + 1) % 3125,
            final(self).samples@.len() == old(self).samples@.len() + if sample_due(old(self).ticks + 1) { 1int } else { 0int },
            final(self).samples@ == if sample_due(old(self).ticks + 1) {
                old(self).samples@.push(levels_of(*final(self)))
            } else {
                old(self).samples@
            },
            final(self).triangle_channel.timer.time == if old(self).triangle_channel.timer.time == 0 {
                old(self).triangle_channel.timer.period
            } else {
                (old(self).triangle_channel.timer.time - 1) as u16
            },
            old(self).apu_tick ==> final(self).pulse_channel1.sweep.timer.time == if old(self).pulse_channel1.sweep.timer.time == 0 {
                old(self).pulse_channel1.sweep.timer.period
            } else {
                (old(self).pulse_channel1.sweep.timer.time - 1) as u16
            },
            old(self).apu_tick ==> final(self).noise_channel.timer.time == if old(self).noise_channel.timer.time == 0 {
                old(self).noise_channel.timer.period
            } else {
                (old(self).noise_channel.timer.time - 1) as u16
            },
            !old(self).apu_tick ==> final(self).pulse_channel1.sweep.timer.time == old(self).pulse_channel1.sweep.timer.time
                && final(self).pulse_channel2.sweep.timer.time == old(self).pulse_channel2.sweep.timer.time
                && final(self).noise_channel.timer.time == old(self).noise_channel.timer.time,
            final(self).frame_counter == frame_counter_step(*old(self)).frame_counter,
            final(self).irq == frame_counter_step(*old(self)).irq,
    {
        if self.apu_tick {
            self.pulse_channel1.tick_timer();
            self.pulse_channel2.tick_timer();
            self.noise_channel.tick_timer();
            self.dmc_channel.tick_timer();
        }
        self.triangle_channel.tick_timer();
        self.tick_frame_counter();
        let ticks = self.ticks + 1;
        if (ticks - 1) * SAMPLE_NUMERATOR / SAMPLE_DENOMINATOR < ticks * SAMPLE_NUMERATOR / SAMPLE_DENOMINATOR {
            let levels = self.get_levels();
            self.samples.push(levels);
        }
        self.ticks = if ticks >= 3125 { 0 } else { ticks };
        self.apu_tick = !self.apu_tick;
    }

    /// Whether the DMC asks for a sample byte.
    pub fn get_dma(&self) -> (r: bool)
        ensures
            r == self.dmc_channel.reader.dma,
    {
        self.dmc_channel.get_dma()
    }

    /// The address of the DMC's next sample byte.
    pub fn get_dma_address(&self) -> (r: u16)
        ensures
            r == self.dmc_channel.reader.address,
    {
        self.dmc_channel.reader.address
    }

    /// Hands the DMC the sample byte it asked for.
    pub fn load_dmc_sample(&mut self, value: u8)
        requires
            old(self).wf(),
        ensures
            final(self).wf(),
            !final(self).dmc_channel.reader.dma,
            old(self).dmc_channel.reader.bytes_remaining > 0 ==> final(self).dmc_channel.reader.sample_buffer == Some(value),
    {
        if self.dmc_channel.reader.bytes_remaining > 0 {
            self.dmc_channel.reader.load_value(value);
        }
        self.dmc_channel.reset_dma();
    }

    /// The channel levels of the samples since the last call.
    pub fn get_output(&mut self) -> (r: Vec<ChannelLevels>)
        ensures
            r@ == old(self).samples@,
            final(self).samples@.len() == 0,
            final(self).wf() == old(self).wf(),
    {
        let mut out: Vec<ChannelLevels> = Vec::new();
        core::mem::swap(&mut out, &mut self.samples);
        out
    }
}

} // verus!
