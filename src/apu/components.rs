use vstd::prelude::*;

verus! {

/// The length-counter load table, less one, by the five-bit index of the write.
pub open spec fn length_table(index: u8) -> u8 {
    match index % 32 {
        0 => 9,
        1 => 253,
        2 => 19,
        3 => 1,
        4 => 39,
        5 => 3,
        6 => 79,
        7 => 5,
        8 => 159,
        9 => 7,
        10 => 59,
        11 => 9,
        12 => 13,
        13 => 11,
        14 => 25,
        15 => 13,
        16 => 11,
        17 => 15,
        18 => 23,
        19 => 17,
        20 => 47,
        21 => 19,
        22 => 95,
        23 => 21,
        24 => 191,
        25 => 23,
        26 => 71,
        27 => 25,
        28 => 15,
        29 => 27,
        30 => 31,
        _ => 29,
    }
}

fn length_table_entry(index: u8) -> (r: u8)
    ensures
        r == length_table(index),
        r < 255,
{
    match index % 32 {
        0 => 9,
        1 => 253,
        2 => 19,
        3 => 1,
        4 => 39,
        5 => 3,
        6 => 79,
        7 => 5,
        8 => 159,
        9 => 7,
        10 => 59,
        11 => 9,
        12 => 13,
        13 => 11,
        14 => 25,
        15 => 13,
        16 => 11,
        17 => 15,
        18 => 23,
        19 => 17,
        20 => 47,
        21 => 19,
        22 => 95,
        23 => 21,
        24 => 191,
        25 => 23,
        26 => 71,
        27 => 25,
        28 => 15,
        29 => 27,
        30 => 31,
        _ => 29,
    }
}

/// A divider after one clock.
pub open spec fn divider_step(d: Divider) -> Divider {
    Divider { counter: if d.counter == 0 { d.reload } else { (d.counter - 1) as u8 }, reload: d.reload }
}

/// A length counter after a half-frame clock.
pub open spec fn length_step(l: LengthCounter) -> LengthCounter {
    LengthCounter { counter: if l.counter != 0 && !l.halt { (l.counter - 1) as u8 } else { l.counter }, halt: l.halt }
}

/// An envelope after a quarter-frame clock: a pending start reloads decay
/// to 15 and the divider; else the divider clocks, and when it fires decay
/// counts down, wrapping to 15 only with loop set.
pub open spec fn envelope_step(e: Envelope) -> Envelope {
    if e.start {
        Envelope { start: false, decay_level: 15, divider: Divider { counter: e.divider.reload, reload: e.divider.reload }, ..e }
    } else {
        let decay = if e.divider.counter != 0 {
            e.decay_level
        } else if e.decay_level > 0 {
            (e.decay_level - 1) as u8
        } else if e.loop_flag {
            15
        } else {
            0
        };
        Envelope { divider: divider_step(e.divider), decay_level: decay, ..e }
    }
}

/// A divider: counts down from its reload value and fires on the step after 0.
pub struct Divider {
    pub counter: u8,
    pub reload: u8,
}

impl Divider {
    pub fn new() -> (r: Self)
        ensures
            r.counter == 0 && r.reload == 0,
    {
        Divider { counter: 0, reload: 0 }
    }

    pub fn get_reload(&self) -> (r: u8)
        ensures
            r == self.reload,
    {
        self.reload
    }

    pub fn set_reload(&mut self, reload: u8)
        ensures
            final(self).reload == reload,
            final(self).counter == old(self).counter,
    {
        self.reload = reload;
    }

    pub fn reload(&mut self)
        ensures
            final(self).counter == old(self).reload,
            final(self).reload == old(self).reload,
    {
        self.counter = self.reload;
    }

    /// One clock; true when the divider fires (and reloads).
    pub fn tick(&mut self) -> (r: bool)
        ensures
            r == (old(self).counter == 0),
            final(self).reload == old(self).reload,
            final(self).counter == if old(self).counter == 0 { old(self).reload } else { (old(self).counter - 1) as u8 },
    {
        if self.counter == 0 {
            self.reload();
            true
        } else {
            self.counter = self.counter - 1;
            false
        }
    }
}

/// A channel timer: counts down from its period and fires on the step after 0.
pub struct Timer {
    pub period: u16,
    pub time: u16,
}

impl Timer {
    pub fn new() -> (r: Self)
        ensures
            r.period == 0 && r.time == 0,
    {
        Timer { period: 0, time: 0 }
    }

    pub fn get_period(&self) -> (r: u16)
        ensures
            r == self.period,
    {
        self.period
    }

    pub fn set_period(&mut self, value: u16)
        ensures
            final(self).period == value,
            final(self).time == old(self).time,
    {
        self.period = value;
    }

    pub fn reset(&mut self)
        ensures
            final(self).time == old(self).period,
            final(self).period == old(self).period,
    {
        self.time = self.period;
    }

    /// One clock; true when the timer fires (and restarts).
    pub fn tick(&mut self) -> (r: bool)
        ensures
            r == (old(self).time == 0),
            final(self).period == old(self).period,
            final(self).time == if old(self).time == 0 { old(self).period } else { (old(self).time - 1) as u16 },
    {
        if self.time == 0 {
            self.reset();
            true
        } else {
            self.time = self.time - 1;
            false
        }
    }
}

/// A volume envelope: either a constant volume or a decay from 15.
pub struct Envelope {
    pub start: bool,
    pub loop_flag: bool,
    pub constant_volume: bool,
    pub divider: Divider,
    pub decay_level: u8,
}

impl Envelope {
    pub fn new() -> (r: Self)
        ensures
            !r.start && !r.loop_flag && !r.constant_volume && r.decay_level == 0,
            r.divider.reload == 0,
    {
        Envelope { start: false, loop_flag: false, constant_volume: false, divider: Divider::new(), decay_level: 0 }
    }

    pub fn set_start(&mut self)
        ensures
            final(self).start,
            final(self).decay_level == old(self).decay_level,
            final(self).divider == old(self).divider,
            final(self).constant_volume == old(self).constant_volume,
            final(self).loop_flag == old(self).loop_flag,
    {
        self.start = true;
    }

    pub fn set_loop(&mut self, value: bool)
        ensures
            final(self).loop_flag == value,
            final(self).start == old(self).start,
            final(self).decay_level == old(self).decay_level,
            final(self).divider == old(self).divider,
            final(self).constant_volume == old(self).constant_volume,
    {
        self.loop_flag = value;
    }

    pub fn set_constant_volume(&mut self, value: bool)
        ensures
            final(self).constant_volume == value,
            final(self).start == old(self).start,
            final(self).decay_level == old(self).decay_level,
            final(self).divider == old(self).divider,
            final(self).loop_flag == old(self).loop_flag,
    {
        self.constant_volume = value;
    }

    pub fn get_divider(&mut self) -> (r: &mut Divider)
        ensures
            *r == old(self).divider,
    {
        &mut self.divider
    }

    /// Clears the start flag, sets decay to 15 and reloads the divider.
    pub fn restart(&mut self)
        ensures
            !final(self).start,
            final(self).decay_level == 15,
            final(self).divider.counter == old(self).divider.reload,
            final(self).divider.reload == old(self).divider.reload,
            final(self).constant_volume == old(self).constant_volume,
            final(self).loop_flag == old(self).loop_flag,
    {
        self.start = false;
        self.decay_level = 15;
        self.divider.reload();
    }

    /// The volume: the divider's reload value when constant, else the decay level.
    pub fn get_output(&self) -> (r: u8)
        ensures
            r == if self.constant_volume { self.divider.reload } else { self.decay_level },
    {
        if self.constant_volume {
            self.divider.get_reload()
        } else {
            self.decay_level
        }
    }

    /// A quarter-frame clock.
    pub fn tick(&mut self)
        ensures
            *final(self) == envelope_step(*old(self)),
            final(self).constant_volume == old(self).constant_volume,
            final(self).loop_flag == old(self).loop_flag,
            final(self).divider.reload == old(self).divider.reload,
            old(self).start ==> !final(self).start && final(self).decay_level == 15,
            !old(self).start && old(self).divider.counter == 0 ==> final(self).decay_level == if old(self).decay_level > 0 {
                (old(self).decay_level - 1) as u8
            } else if old(self).loop_flag {
                15
            } else {
                0
            },
            !old(self).start && old(self).divider.counter != 0 ==> final(self).decay_level == old(self).decay_level,
    {
        if !self.start {
            if self.divider.tick() {
                if self.decay_level > 0 {
                    self.decay_level = self.decay_level - 1;
                } else if self.loop_flag {
                    self.decay_level = 15;
                }
            }
        } else {
            self.restart();
        }
    }
}

/// The length counter that silences a channel when it runs out.
pub struct LengthCounter {
    pub counter: u8,
    pub halt: bool,
}

impl LengthCounter {
    pub fn new() -> (r: Self)
        ensures
            r.counter == 0 && !r.halt,
    {
        LengthCounter { counter: 0, halt: false }
    }

    pub fn get(&self) -> (r: u8)
        ensures
            r == self.counter,
    {
        self.counter
    }

    /// Loads entry `value` (0..31) of the length table.
    pub fn set(&mut self, value: u8)
        ensures
            final(self).counter == length_table(value) + 1,
            final(self).halt == old(self).halt,
    {
        self.counter = length_table_entry(value) + 1;
    }

    pub fn clear(&mut self)
        ensures
            final(self).counter == 0,
            final(self).halt == old(self).halt,
    {
        self.counter = 0;
    }

    pub fn set_halt(&mut self, value: bool)
        ensures
            final(self).halt == value,
            final(self).counter == old(self).counter,
    {
        self.halt = value;
    }

    pub fn is_muting(&self) -> (r: bool)
        ensures
            r == (self.counter == 0),
    {
        self.counter == 0
    }

    /// A half-frame clock: counts down unless halted or already zero.
    pub fn tick(&mut self)
        ensures
            *final(self) == length_step(*old(self)),
            final(self).halt == old(self).halt,
            final(self).counter == if old(self).counter != 0 && !old(self).halt { (old(self).counter - 1) as u8 } else { old(self).counter },
    {
        if self.counter != 0 && !self.halt {
            self.counter = self.counter - 1;
        }
    }
}

} // verus!
