use vstd::prelude::*;
use crate::apu::components::{LengthCounter, Timer, length_table};
use crate::apu::registers::TriangleRegister;

verus! {

/// The 32-step triangle: 15 down to 0, then 0 up to 15.
pub open spec fn triangle_step(index: u8) -> u8 {
    if index < 16 { (15 - index) as u8 } else { (index - 16) as u8 }
}

/// A linear counter after a quarter-frame clock.
pub open spec fn linear_step(c: LinearCounter) -> LinearCounter {
    LinearCounter {
        counter: if c.reload { c.reload_value } else if c.counter != 0 { (c.counter - 1) as u8 } else { 0 },
        reload: c.reload && c.control,
        ..c
    }
}

/// The triangle channel's linear counter.
pub struct LinearCounter {
    pub counter: u8,
    pub reload_value: u8,
    pub reload: bool,
    pub control: bool,
}

impl LinearCounter {
    pub fn new() -> (r: Self)
        ensures
            r.counter == 0 && r.reload_value == 0 && !r.reload && !r.control,
    {
        LinearCounter { counter: 0, reload_value: 0, reload: false, control: false }
    }

    pub fn get(&self) -> (r: u8)
        ensures
            r == self.counter,
    {
        self.counter
    }

    pub fn reload(&mut self)
        ensures
            final(self).counter == old(self).reload_value,
            final(self).reload_value == old(self).reload_value,
            final(self).reload == old(self).reload,
            final(self).control == old(self).control,
    {
        self.counter = self.reload_value;
    }

    pub fn set_reload_value(&mut self, value: u8)
        ensures
            final(self).reload_value == value,
            final(self).counter == old(self).counter,
            final(self).reload == old(self).reload,
            final(self).control == old(self).control,
    {
        self.reload_value = value;
    }

    pub fn set_reload(&mut self)
        ensures
            final(self).reload,
            final(self).counter == old(self).counter,
            final(self).reload_value == old(self).reload_value,
            final(self).control == old(self).control,
    {
        self.reload = true;
    }

    pub fn set_control(&mut self, value: bool)
        ensures
            final(self).control == value,
            final(self).counter == old(self).counter,
            final(self).reload_value == old(self).reload_value,
            final(self).reload == old(self).reload,
    {
        self.control = value;
    }

    /// A quarter-frame clock: reload if pending, else count down; the
    /// pending reload clears unless the control bit is set.
    pub fn tick(&mut self)
        ensures
            *final(self) == linear_step(*old(self)),
            final(self).counter == if old(self).reload {
                old(self).reload_value
            } else if old(self).counter != 0 {
                (old(self).counter - 1) as u8
            } else {
                0
            },
            final(self).reload == (old(self).reload && old(self).control),
            final(self).reload_value == old(self).reload_value,
            final(self).control == old(self).control,
    {
        if self.reload {
            self.reload();
        } else if self.counter != 0 {
            self.counter = self.counter - 1;
        }
        if !self.control {
            self.reload = false;
        }
    }
}

pub struct TriangleSequencer {
    pub index: u8,
}

impl TriangleSequencer {
    pub open spec fn wf(&self) -> bool {
        self.index < 32
    }

    pub fn new() -> (r: Self)
        ensures
            r.wf(),
            r.index == 0,
    {
        TriangleSequencer { index: 0 }
    }

    pub fn get_output(&self) -> (r: u8)
        requires
            self.wf(),
        ensures
            r == triangle_step(self.index),
            r < 16,
    {
        if self.index < 16 { 15 - self.index } else { self.index - 16 }
    }

    pub fn tick(&mut self)
        requires
            old(self).wf(),
        ensures
            final(self).wf(),
            final(self).index == (old(self).index + 1) % 32,
    {
        self.index = (self.index + 1) % 32;
    }
}

/// The triangle channel.
pub struct TriangleChannel {
    pub enabled: bool,
    pub timer: Timer,
    pub linear_counter: LinearCounter,
    pub length_counter: LengthCounter,
    pub sequencer: TriangleSequencer,
}

impl TriangleChannel {
    pub open spec fn wf(&self) -> bool {
        self.sequencer.wf() && self.timer.period <= 0x7FF
    }

    pub fn new() -> (r: Self)
        ensures
            r.wf(),
            !r.enabled,
            r.length_counter.counter == 0,
    {
        TriangleChannel {
            enabled: false,
            timer: Timer::new(),
            linear_counter: LinearCounter::new(),
            length_counter: LengthCounter::new(),
            sequencer: TriangleSequencer::new(),
        }
    }

    pub fn is_enabled(&self) -> (r: bool)
        ensures
            r == self.enabled,
    {
        self.enabled
    }

    pub fn set_enabled(&mut self, value: bool)
        ensures
            final(self).enabled == value,
            final(self).wf() == old(self).wf(),
            final(self).length_counter == old(self).length_counter,
    {
        self.enabled = value;
    }

    pub fn get_linear_counter(&mut self) -> (r: &mut LinearCounter)
        ensures
            *r == old(self).linear_counter,
    {
        &mut self.linear_counter
    }

    pub fn get_length_counter(&mut self) -> (r: &mut LengthCounter)
        ensures
            *r == old(self).length_counter,
    {
        &mut self.length_counter
    }

    /// The current step of the triangle, 0..15.
    pub fn get_output(&self) -> (r: u8)
        requires
            self.wf(),
        ensures
            r == triangle_step(self.sequencer.index),
            r < 16,
    {
        self.sequencer.get_output()
    }

    pub fn write(&mut self, register: TriangleRegister, value: u8)
        requires
            old(self).wf(),
        ensures
            final(self).wf(),
            final(self).enabled == old(self).enabled,
            register == TriangleRegister::Linear ==> {
                &&& final(self).linear_counter.control == (value & 0x80 != 0)
                &&& final(self).length_counter.halt == (value & 0x80 != 0)
                &&& final(self).linear_counter.reload_value == value % 128
            },
            register == TriangleRegister::Low ==> final(self).timer.period == (old(self).timer.period / 256) * 256 + value,
            register == TriangleRegister::High ==> {
                &&& final(self).timer.period == old(self).timer.period % 256 + (value % 8) as int * 256
                &&& final(self).linear_counter.reload
                &&& old(self).enabled ==> final(self).length_counter.counter == length_table(value / 8) + 1
            },
            register == TriangleRegister::High && !old(self).enabled ==> final(self).length_counter == old(self).length_counter,
            register != TriangleRegister::High ==> final(self).length_counter.counter == old(self).length_counter.counter,
    {
        match register {
            TriangleRegister::Linear => {
                self.linear_counter.set_control(value & 0x80 != 0);
                self.length_counter.set_halt(value & 0x80 != 0);
                self.linear_counter.set_reload_value(value % 128);
            },
            TriangleRegister::Low => {
                let period = (self.timer.get_period() / 256) * 256 + value as u16;
                self.timer.set_period(period);
            },
            TriangleRegister::High => {
                if self.enabled {
                    self.length_counter.set(value / 8);
                }
                let period = self.timer.get_period() % 256 + ((value % 8) as u16) * 256;
                self.timer.set_period(period);
                self.linear_counter.set_reload();
            },
        }
    }

    /// A timer clock (every CPU cycle): the sequence steps when the timer
    /// fires and both counters are non-zero.
    pub fn tick_timer(&mut self)
        requires
            old(self).wf(),
        ensures
            final(self).wf(),
            final(self).timer.period == old(self).timer.period,
            final(self).timer.time == if old(self).timer.time == 0 { old(self).timer.period } else { (old(self).timer.time - 1) as u16 },
            final(self).linear_counter == old(self).linear_counter && final(self).length_counter == old(self).length_counter,
            final(self).enabled == old(self).enabled,
            final(self).sequencer.index == if old(self).timer.time == 0 && old(self).linear_counter.counter != 0
                && old(self).length_counter.counter != 0 {
                (old(self).sequencer.index + 1) % 32
            } else {
                old(self).sequencer.index as int
            },
    {
        if self.timer.tick() && self.linear_counter.get() != 0 && self.length_counter.get() != 0 {
            self.sequencer.tick();
        }
    }
}

} // verus!
