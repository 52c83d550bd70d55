use vstd::prelude::*;
use crate::apu::components::{Divider, Envelope, LengthCounter, Timer};
use crate::apu::registers::PulseRegister;

verus! {

/// The duty waveforms: step `counter` of duty `duty` (12.5%, 25%, 50%, 75%).
pub open spec fn waveform(duty: u8, counter: u8) -> u8 {
    if duty == 0 {
        if counter == 7 { 1 } else { 0 }
    } else if duty == 1 {
        if counter >= 6 { 1 } else { 0 }
    } else if duty == 2 {
        if counter >= 4 { 1 } else { 0 }
    } else {
        if counter <= 5 { 1 } else { 0 }
    }
}

/// The sweep target: the period moved by `period >> shift`; pulse 1 negates
/// in one's complement (one more is taken off), results below 0 are 0.
pub open spec fn target_period(period: u16, shift: u8, negate: bool, channel: u8) -> int {
    let change = (period >> shift) as int;
    if negate {
        let cut = change + if channel == 1 { 1int } else { 0int };
        if period as int >= cut { period as int - cut } else { 0 }
    } else {
        period as int + change
    }
}

/// A right shift never makes a number larger.
pub proof fn lemma_shift_le(x: u16, s: u8)
    requires
        s < 16,
    ensures
        x >> s <= x,
{
    assert(s < 16 ==> x >> s <= x) by (bit_vector);
}

/// A sweep unit after a half-frame clock: when the divider fires with the
/// unit enabled, a non-zero shift and the channel audible, the period moves
/// to the target; a pending reload (or the firing) reloads the divider.
pub open spec fn sweep_step(s: Sweep) -> Sweep {
    let fires = s.divider.counter == 0;
    let muted = s.timer.period < 8 || target_period(s.timer.period, s.shift, s.negate, s.channel) > 0x7FF;
    let period = if fires && s.enabled && s.shift > 0 && !muted {
        target_period(s.timer.period, s.shift, s.negate, s.channel) as u16
    } else {
        s.timer.period
    };
    Sweep {
        divider: Divider {
            counter: if fires || s.reload { s.divider.reload } else { (s.divider.counter - 1) as u8 },
            reload: s.divider.reload,
        },
        timer: Timer { period: period, time: s.timer.time },
        reload: false,
        ..s
    }
}

/// The pulse channel's sweep unit, which also holds the channel's timer.
pub struct Sweep {
    pub channel: u8,
    pub enabled: bool,
    pub divider: Divider,
    pub timer: Timer,
    pub negate: bool,
    pub shift: u8,
    pub reload: bool,
}

impl Sweep {
    pub open spec fn wf(&self) -> bool {
        self.timer.period <= 0x7FF && self.shift < 8
    }

    pub open spec fn muting(&self) -> bool {
        self.timer.period < 8 || target_period(self.timer.period, self.shift, self.negate, self.channel) > 0x7FF
    }

    pub fn new(channel: u8) -> (r: Self)
        ensures
            r.wf(),
            r.channel == channel,
            r.timer.period == 0,
    {
        Sweep { channel, enabled: false, divider: Divider::new(), timer: Timer::new(), negate: false, shift: 0, reload: false }
    }

    fn get_target_period(&self) -> (r: u16)
        requires
            self.wf(),
        ensures
            r == target_period(self.timer.period, self.shift, self.negate, self.channel),
    {
        let period = self.timer.get_period();
        proof {
            lemma_shift_le(period, self.shift);
        }
        let change = period >> self.shift;
        if self.negate {
            let cut = change + if self.channel == 1 { 1u16 } else { 0u16 };
            if period >= cut { period - cut } else { 0 }
        } else {
            period + change
        }
    }

    /// Silent when the period is below 8 or the target passes 0x7FF.
    pub fn is_muting(&self) -> (r: bool)
        requires
            self.wf(),
        ensures
            r == self.muting(),
    {
        self.timer.get_period() < 8 || self.get_target_period() > 0x7FF
    }

    /// A half-frame clock: moves the period to the target when the divider
    /// fires, the unit is enabled with a non-zero shift and the channel is not muted.
    pub fn tick(&mut self)
        requires
            old(self).wf(),
        ensures
            final(self).wf(),
            *final(self) == sweep_step(*old(self)),
            !final(self).reload,
            final(self).channel == old(self).channel,
            final(self).timer.period == if old(self).divider.counter == 0 && old(self).enabled && old(self).shift > 0 && !old(self).muting() {
                target_period(old(self).timer.period, old(self).shift, old(self).negate, old(self).channel) as u16
            } else {
                old(self).timer.period
            },
    {
        if self.divider.tick() && self.enabled && self.shift > 0 && !self.is_muting() {
            let target = self.get_target_period();
            self.timer.set_period(target);
        }
        if self.reload {
            self.divider.reload();
            self.reload = false;
        }
    }
}

/// The eight-step duty sequencer.
pub struct PulseSequencer {
    pub duty: u8,
    pub counter: u8,
}

impl PulseSequencer {
    pub open spec fn wf(&self) -> bool {
        self.duty < 4 && self.counter < 8
    }

    pub fn new() -> (r: Self)
        ensures
            r.wf(),
            r.duty == 0 && r.counter == 0,
    {
        PulseSequencer { duty: 0, counter: 0 }
    }

    /// Steps backwards through the waveform: 0, 7, 6, ..., 1, 0.
    pub fn tick(&mut self)
        requires
            old(self).wf(),
        ensures
            final(self).wf(),
            final(self).duty == old(self).duty,
            final(self).counter == if old(self).counter == 0 { 7 } else { (old(self).counter - 1) as u8 },
    {
        if self.counter == 0 {
            self.counter = 7;
        } else {
            self.counter = self.counter - 1;
        }
    }

    pub fn set_duty(&mut self, value: u8)
        requires
            old(self).wf(),
            value < 4,
        ensures
            final(self).wf(),
            final(self).duty == value,
            final(self).counter == old(self).counter,
    {
        self.duty = value;
    }

    pub fn restart(&mut self)
        requires
            old(self).wf(),
        ensures
            final(self).wf(),
            final(self).counter == 0,
            final(self).duty == old(self).duty,
    {
        self.counter = 0;
    }

    pub fn get_output(&self) -> (r: u8)
        requires
            self.wf(),
        ensures
            r == waveform(self.duty, self.counter),
    {
        let duty = self.duty;
        let counter = self.counter;
        if duty == 0 {
            if counter == 7 { 1 } else { 0 }
        } else if duty == 1 {
            if counter >= 6 { 1 } else { 0 }
        } else if duty == 2 {
            if counter >= 4 { 1 } else { 0 }
        } else {
            if counter <= 5 { 1 } else { 0 }
        }
    }
}

/// A square-wave channel.
pub struct PulseChannel {
    pub enabled: bool,
    pub envelope: Envelope,
    pub sweep: Sweep,
    pub sequencer: PulseSequencer,
    pub length_counter: LengthCounter,
}

impl PulseChannel {
    pub open spec fn wf(&self) -> bool {
        self.sweep.wf() && self.sequencer.wf() && self.envelope.divider.reload < 16 && self.envelope.decay_level < 16
    }

    /// The channel's output level, 0..15.
    pub open spec fn output(&self) -> u8 {
        if self.enabled && !self.sweep.muting() && self.length_counter.counter != 0
            && waveform(self.sequencer.duty, self.sequencer.counter) != 0 {
            if self.envelope.constant_volume { self.envelope.divider.reload } else { self.envelope.decay_level }
        } else {
            0
        }
    }

    /// Pulse channel `channel` (1 or 2); channel 1 negates in one's complement.
    pub fn new(channel: u8) -> (r: Self)
        ensures
            r.wf(),
            !r.enabled,
            r.sweep.channel == channel,
            r.length_counter.counter == 0,
    {
        PulseChannel {
            enabled: false,
            envelope: Envelope::new(),
            sweep: Sweep::new(channel),
            sequencer: PulseSequencer::new(),
            length_counter: LengthCounter::new(),
        }
    }

    pub fn is_enabled(&self) -> (r: bool)
        ensures
            r == self.enabled,
    {
        self.enabled
    }

    pub fn set_enabled(&mut self, value: bool)
        ensures
            final(self).enabled == value,
            final(self).wf() == old(self).wf(),
            final(self).length_counter == old(self).length_counter,
    {
        self.enabled = value;
    }

    pub fn get_envelope(&mut self) -> (r: &mut Envelope)
        ensures
            *r == old(self).envelope,
    {
        &mut self.envelope
    }

    pub fn get_sweep(&mut self) -> (r: &mut Sweep)
        ensures
            *r == old(self).sweep,
    {
        &mut self.sweep
    }

    pub fn get_length_counter(&mut self) -> (r: &mut LengthCounter)
        ensures
            *r == old(self).length_counter,
    {
        &mut self.length_counter
    }

    pub fn get_output(&self) -> (r: u8)
        requires
            self.wf(),
        ensures
            r == self.output(),
            r < 16,
    {
        if self.enabled && !self.sweep.is_muting() && !self.length_counter.is_muting() && self.sequencer.get_output() != 0 {
            self.envelope.get_output()
        } else {
            0
        }
    }

    /// A CPU write of one of the channel's four registers.
    pub fn write(&mut self, register: PulseRegister, value: u8)
        requires
            old(self).wf(),
        ensures
            final(self).wf(),
            final(self).enabled == old(self).enabled,
            register == PulseRegister::Volume ==> {
                &&& final(self).sequencer.duty == value / 64
                &&& final(self).length_counter.halt == (value & 0x20 != 0)
                &&& final(self).envelope.loop_flag == (value & 0x20 != 0)
                &&& final(self).envelope.constant_volume == (value & 0x10 != 0)
                &&& final(self).envelope.divider.reload == value % 16
            },
            register == PulseRegister::Sweep ==> {
                &&& final(self).sweep.enabled == (value & 0x80 != 0)
                &&& final(self).sweep.divider.reload == (value / 16) % 8
                &&& final(self).sweep.negate == (value & 0x08 != 0)
                &&& final(self).sweep.shift == value % 8
                &&& final(self).sweep.reload
            },
            register == PulseRegister::Low ==> final(self).sweep.timer.period == (old(self).sweep.timer.period / 256) * 256 + value,
            register == PulseRegister::High ==> {
                &&& final(self).sweep.timer.period == old(self).sweep.timer.period % 256 + (value % 8) as int * 256
                &&& final(self).sequencer.counter == 0
                &&& final(self).sweep.reload
                &&& final(self).envelope.start
                &&& old(self).enabled ==> final(self).length_counter.counter == crate::apu::components::length_table(value / 8) + 1
            },
            register == PulseRegister::High && !old(self).enabled ==> final(self).length_counter == old(self).length_counter,
            register != PulseRegister::High ==> final(self).length_counter.counter == old(self).length_counter.counter,
    {
        match register {
            PulseRegister::Volume => {
                self.sequencer.set_duty(value / 64);
                self.length_counter.set_halt(value & 0x20 != 0);
                self.envelope.set_loop(value & 0x20 != 0);
                self.envelope.set_constant_volume(value & 0x10 != 0);
                self.envelope.divider.set_reload(value % 16);
            },
            PulseRegister::Sweep => {
                self.sweep.enabled = value & 0x80 != 0;
                self.sweep.divider.set_reload((value / 16) % 8);
                self.sweep.negate = value & 0x08 != 0;
                self.sweep.shift = value % 8;
                self.sweep.reload = true;
            },
            PulseRegister::Low => {
                let period = (self.sweep.timer.get_period() / 256) * 256 + value as u16;
                self.sweep.timer.set_period(period);
            },
            PulseRegister::High => {
                if self.enabled {
                    self.length_counter.set(value / 8);
                }
                let period = self.sweep.timer.get_period() % 256 + ((value % 8) as u16) * 256;
                self.sweep.timer.set_period(period);
                self.sweep.reload = true;
                self.envelope.set_start();
                self.sequencer.restart();
            },
        }
    }

    /// A timer clock (every other CPU cycle): the sequencer steps when the timer fires.
    pub fn tick_timer(&mut self)
        requires
            old(self).wf(),
        ensures
            final(self).wf(),
            final(self).sweep.timer.period == old(self).sweep.timer.period,
            final(self).sweep.timer.time == if old(self).sweep.timer.time == 0 { old(self).sweep.timer.period } else { (old(self).sweep.timer.time - 1) as u16 },
            final(self).envelope == old(self).envelope && final(self).length_counter == old(self).length_counter,
            final(self).enabled == old(self).enabled,
            old(self).sweep.timer.time == 0 ==> final(self).sequencer.counter == if old(self).sequencer.counter == 0 { 7 } else { (old(self).sequencer.counter - 1) as u8 },
            old(self).sweep.timer.time != 0 ==> final(self).sequencer == old(self).sequencer,
    {
        if self.sweep.timer.tick() {
            self.sequencer.tick();
        }
    }
}

} // verus!
