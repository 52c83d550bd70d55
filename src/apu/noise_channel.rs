use vstd::prelude::*;
use crate::apu::components::{Envelope, LengthCounter, Timer, length_table};
use crate::apu::registers::NoiseRegister;

verus! {

/// The noise timer periods, by the low four bits of the period register.
pub open spec fn noise_period(index: u8) -> u16 {
    let i = index % 16;
    if i == 0 { 4 } else if i == 1 { 8 } else if i == 2 { 16 } else if i == 3 { 32 }
    else if i == 4 { 64 } else if i == 5 { 96 } else if i == 6 { 128 } else if i == 7 { 160 }
    else if i == 8 { 202 } else if i == 9 { 254 } else if i == 10 { 380 } else if i == 11 { 508 }
    else if i == 12 { 762 } else if i == 13 { 1016 } else if i == 14 { 2034 } else { 4068 }
}

fn noise_period_entry(index: u8) -> (r: u16)
    ensures
        r == noise_period(index),
{
    let i = index % 16;
    if i == 0 { 4 } else if i == 1 { 8 } else if i == 2 { 16 } else if i == 3 { 32 }
    else if i == 4 { 64 } else if i == 5 { 96 } else if i == 6 { 128 } else if i == 7 { 160 }
    else if i == 8 { 202 } else if i == 9 { 254 } else if i == 10 { 380 } else if i == 11 { 508 }
    else if i == 12 { 762 } else if i == 13 { 1016 } else if i == 14 { 2034 } else { 4068 }
}

/// One step of the 15-bit shift register: shift right and feed bit 0 XOR
/// bit 1 (bit 6 in mode 1) into bit 14.
pub open spec fn lfsr_step(value: u16, mode: bool) -> u16 {
    let tap = if mode { 64int } else { 2int };
    let feedback = if (value as int % 2) != ((value as int / tap) % 2) { 1int } else { 0int };
    (value as int / 2 + feedback * 0x4000) as u16
}

/// Steps of the shift register from `value` until it holds 1 again, if that
/// happens within `fuel` steps (else `fuel + 1`).
pub open spec fn steps_to_seed(value: u16, mode: bool, fuel: nat) -> nat
    decreases fuel,
{
    if fuel == 0 {
        1
    } else if lfsr_step(value, mode) == 1 {
        1
    } else {
        1 + steps_to_seed(lfsr_step(value, mode), mode, (fuel - 1) as nat)
    }
}

/// In mode 1 the register seeded with 1 comes back to 1 after 93 steps,
/// and not before: the short noise sequence has period 93. (Each step is
/// computed, from the last back to the first.)
#[verifier::rlimit(100)]
pub proof fn lemma_short_mode_period()
    ensures
        steps_to_seed(1, true, 100) == 93,
{
    assert(lfsr_step(2, true) == 1);
    assert(steps_to_seed(2, true, 8) == 1);
    assert(lfsr_step(4, true) == 2);
    assert(steps_to_seed(4, true, 9) == 2);
    assert(lfsr_step(8, true) == 4);
    assert(steps_to_seed(8, true, 10) == 3);
    assert(lfsr_step(16, true) == 8);
    assert(steps_to_seed(16, true, 11) == 4);
    assert(lfsr_step(32, true) == 16);
    assert(steps_to_seed(32, true, 12) == 5);
    assert(lfsr_step(65, true) == 32);
    assert(steps_to_seed(65, true, 13) == 6);
    assert(lfsr_step(130, true) == 65);
    assert(steps_to_seed(130, true, 14) == 7);
    assert(lfsr_step(260, true) == 130);
    assert(steps_to_seed(260, true, 15) == 8);
    assert(lfsr_step(520, true) == 260);
    assert(steps_to_seed(520, true, 16) == 9);
    assert(lfsr_step(1040, true) == 520);
    assert(steps_to_seed(1040, true, 17) == 10);
    assert(lfsr_step(2080, true) == 1040);
    assert(steps_to_seed(2080, true, 18) == 11);
    assert(lfsr_step(4161, true) == 2080);
    assert(steps_to_seed(4161, true, 19) == 12);
    assert(lfsr_step(8322, true) == 4161);
    assert(steps_to_seed(8322, true, 20) == 13);
    assert(lfsr_step(16644, true) == 8322);
    assert(steps_to_seed(16644, true, 21) == 14);
    assert(lfsr_step(521, true) == 16644);
    assert(steps_to_seed(521, true, 22) == 15);
    assert(lfsr_step(1042, true) == 521);
    assert(steps_to_seed(1042, true, 23) == 16);
    assert(lfsr_step(2084, true) == 1042);
    assert(steps_to_seed(2084, true, 24) == 17);
    assert(lfsr_step(4169, true) == 2084);
    assert(steps_to_seed(4169, true, 25) == 18);
    assert(lfsr_step(8338, true) == 4169);
    assert(steps_to_seed(8338, true, 26) == 19);
    assert(lfsr_step(16676, true) == 8338);
    assert(steps_to_seed(16676, true, 27) == 20);
    assert(lfsr_step(584, true) == 16676);
    assert(steps_to_seed(584, true, 28) == 21);
    assert(lfsr_step(1168, true) == 584);
    assert(steps_to_seed(1168, true, 29) == 22);
    assert(lfsr_step(2336, true) == 1168);
    assert(steps_to_seed(2336, true, 30) == 23);
    assert(lfsr_step(4673, true) == 2336);
    assert(steps_to_seed(4673, true, 31) == 24);
    assert(lfsr_step(9346, true) == 4673);
    assert(steps_to_seed(9346, true, 32) == 25);
    assert(lfsr_step(18692, true) == 9346);
    assert(steps_to_seed(18692, true, 33) == 26);
    assert(lfsr_step(4617, true) == 18692);
    assert(steps_to_seed(4617, true, 34) == 27);
    assert(lfsr_step(9234, true) == 4617);
    assert(steps_to_seed(9234, true, 35) == 28);
    assert(lfsr_step(18468, true) == 9234);
    assert(steps_to_seed(18468, true, 36) == 29);
    assert(lfsr_step(4168, true) == 18468);
    assert(steps_to_seed(4168, true, 37) == 30);
    assert(lfsr_step(8336, true) == 4168);
    assert(steps_to_seed(8336, true, 38) == 31);
    assert(lfsr_step(16672, true) == 8336);
    assert(steps_to_seed(16672, true, 39) == 32);
    assert(lfsr_step(576, true) == 16672);
    assert(steps_to_seed(576, true, 40) == 33);
    assert(lfsr_step(1152, true) == 576);
    assert(steps_to_seed(1152, true, 41) == 34);
    assert(lfsr_step(2304, true) == 1152);
    assert(steps_to_seed(2304, true, 42) == 35);
    assert(lfsr_step(4608, true) == 2304);
    assert(steps_to_seed(4608, true, 43) == 36);
    assert(lfsr_step(9216, true) == 4608);
    assert(steps_to_seed(9216, true, 44) == 37);
    assert(lfsr_step(18432, true) == 9216);
    assert(steps_to_seed(18432, true, 45) == 38);
    assert(lfsr_step(4097, true) == 18432);
    assert(steps_to_seed(4097, true, 46) == 39);
    assert(lfsr_step(8194, true) == 4097);
    assert(steps_to_seed(8194, true, 47) == 40);
    assert(lfsr_step(16388, true) == 8194);
    assert(steps_to_seed(16388, true, 48) == 41);
    assert(lfsr_step(9, true) == 16388);
    assert(steps_to_seed(9, true, 49) == 42);
    assert(lfsr_step(18, true) == 9);
    assert(steps_to_seed(18, true, 50) == 43);
    assert(lfsr_step(36, true) == 18);
    assert(steps_to_seed(36, true, 51) == 44);
    assert(lfsr_step(73, true) == 36);
    assert(steps_to_seed(73, true, 52) == 45);
    assert(lfsr_step(146, true) == 73);
    assert(steps_to_seed(146, true, 53) == 46);
    assert(lfsr_step(292, true) == 146);
    assert(steps_to_seed(292, true, 54) == 47);
    assert(lfsr_step(585, true) == 292);
    assert(steps_to_seed(585, true, 55) == 48);
    assert(lfsr_step(1170, true) == 585);
    assert(steps_to_seed(1170, true, 56) == 49);
    assert(lfsr_step(2340, true) == 1170);
    assert(steps_to_seed(2340, true, 57) == 50);
    assert(lfsr_step(4681, true) == 2340);
    assert(steps_to_seed(4681, true, 58) == 51);
    assert(lfsr_step(9362, true) == 4681);
    assert(steps_to_seed(9362, true, 59) == 52);
    assert(lfsr_step(18724, true) == 9362);
    assert(steps_to_seed(18724, true, 60) == 53);
    assert(lfsr_step(4680, true) == 18724);
    assert(steps_to_seed(4680, true, 61) == 54);
    assert(lfsr_step(9360, true) == 4680);
    assert(steps_to_seed(9360, true, 62) == 55);
    assert(lfsr_step(18720, true) == 9360);
    assert(steps_to_seed(18720, true, 63) == 56);
    assert(lfsr_step(4672, true) == 18720);
    assert(steps_to_seed(4672, true, 64) == 57);
    assert(lfsr_step(9344, true) == 4672);
    assert(steps_to_seed(9344, true, 65) == 58);
    assert(lfsr_step(18688, true) == 9344);
    assert(steps_to_seed(18688, true, 66) == 59);
    assert(lfsr_step(4609, true) == 18688);
    assert(steps_to_seed(4609, true, 67) == 60);
    assert(lfsr_step(9218, true) == 4609);
    assert(steps_to_seed(9218, true, 68) == 61);
    assert(lfsr_step(18436, true) == 9218);
    assert(steps_to_seed(18436, true, 69) == 62);
    assert(lfsr_step(4105, true) == 18436);
    assert(steps_to_seed(4105, true, 70) == 63);
    assert(lfsr_step(8210, true) == 4105);
    assert(steps_to_seed(8210, true, 71) == 64);
    assert(lfsr_step(16420, true) == 8210);
    assert(steps_to_seed(16420, true, 72) == 65);
    assert(lfsr_step(72, true) == 16420);
    assert(steps_to_seed(72, true, 73) == 66);
    assert(lfsr_step(144, true) == 72);
    assert(steps_to_seed(144, true, 74) == 67);
    assert(lfsr_step(288, true) == 144);
    assert(steps_to_seed(288, true, 75) == 68);
    assert(lfsr_step(577, true) == 288);
    assert(steps_to_seed(577, true, 76) == 69);
    assert(lfsr_step(1154, true) == 577);
    assert(steps_to_seed(1154, true, 77) == 70);
    assert(lfsr_step(2308, true) == 1154);
    assert(steps_to_seed(2308, true, 78) == 71);
    assert(lfsr_step(4616, true) == 2308);
    assert(steps_to_seed(4616, true, 79) == 72);
    assert(lfsr_step(9232, true) == 4616);
    assert(steps_to_seed(9232, true, 80) == 73);
    assert(lfsr_step(18464, true) == 9232);
    assert(steps_to_seed(18464, true, 81) == 74);
    assert(lfsr_step(4160, true) == 18464);
    assert(steps_to_seed(4160, true, 82) == 75);
    assert(lfsr_step(8320, true) == 4160);
    assert(steps_to_seed(8320, true, 83) == 76);
    assert(lfsr_step(16640, true) == 8320);
    assert(steps_to_seed(16640, true, 84) == 77);
    assert(lfsr_step(513, true) == 16640);
    assert(steps_to_seed(513, true, 85) == 78);
    assert(lfsr_step(1026, true) == 513);
    assert(steps_to_seed(1026, true, 86) == 79);
    assert(lfsr_step(2052, true) == 1026);
    assert(steps_to_seed(2052, true, 87) == 80);
    assert(lfsr_step(4104, true) == 2052);
    assert(steps_to_seed(4104, true, 88) == 81);
    assert(lfsr_step(8208, true) == 4104);
    assert(steps_to_seed(8208, true, 89) == 82);
    assert(lfsr_step(16416, true) == 8208);
    assert(steps_to_seed(16416, true, 90) == 83);
    assert(lfsr_step(64, true) == 16416);
    assert(steps_to_seed(64, true, 91) == 84);
    assert(lfsr_step(128, true) == 64);
    assert(steps_to_seed(128, true, 92) == 85);
    assert(lfsr_step(256, true) == 128);
    assert(steps_to_seed(256, true, 93) == 86);
    assert(lfsr_step(512, true) == 256);
    assert(steps_to_seed(512, true, 94) == 87);
    assert(lfsr_step(1024, true) == 512);
    assert(steps_to_seed(1024, true, 95) == 88);
    assert(lfsr_step(2048, true) == 1024);
    assert(steps_to_seed(2048, true, 96) == 89);
    assert(lfsr_step(4096, true) == 2048);
    assert(steps_to_seed(4096, true, 97) == 90);
    assert(lfsr_step(8192, true) == 4096);
    assert(steps_to_seed(8192, true, 98) == 91);
    assert(lfsr_step(16384, true) == 8192);
    assert(steps_to_seed(16384, true, 99) == 92);
    assert(lfsr_step(1, true) == 16384);
    assert(steps_to_seed(1, true, 100) == 93);
}

pub struct LinearFeedbackShiftRegister {
    pub value: u16,
    pub mode: bool,
}

impl LinearFeedbackShiftRegister {
    pub open spec fn wf(&self) -> bool {
        self.value < 0x8000
    }

    /// Seeded with 1.
    pub fn new() -> (r: Self)
        ensures
            r.wf(),
            r.value == 1 && !r.mode,
    {
        LinearFeedbackShiftRegister { value: 1, mode: false }
    }

    pub fn set_mode(&mut self, value: bool)
        ensures
            final(self).mode == value,
            final(self).value == old(self).value,
    {
        self.mode = value;
    }

    /// The channel is silent while bit 0 is set.
    pub fn is_muting(&self) -> (r: bool)
        ensures
            r == (self.value % 2 == 1),
    {
        self.value % 2 == 1
    }

    pub fn tick(&mut self)
        requires
            old(self).wf(),
        ensures
            final(self).wf(),
            final(self).value == lfsr_step(old(self).value, old(self).mode),
            final(self).mode == old(self).mode,
    {
        let tap: u16 = if self.mode { 64 } else { 2 };
        let feedback: u16 = if (self.value % 2) != ((self.value / tap) % 2) { 1 } else { 0 };
        self.value = self.value / 2 + feedback * 0x4000;
    }
}

/// The noise channel.
pub struct NoiseChannel {
    pub enabled: bool,
    pub envelope: Envelope,
    pub timer: Timer,
    pub shift_register: LinearFeedbackShiftRegister,
    pub length_counter: LengthCounter,
}

impl NoiseChannel {
    pub open spec fn wf(&self) -> bool {
        self.shift_register.wf() && self.envelope.divider.reload < 16 && self.envelope.decay_level < 16
    }

    pub open spec fn output(&self) -> u8 {
        if self.enabled && self.shift_register.value % 2 == 0 && self.length_counter.counter != 0 {
            if self.envelope.constant_volume { self.envelope.divider.reload } else { self.envelope.decay_level }
        } else {
            0
        }
    }

    pub fn new() -> (r: Self)
        ensures
            r.wf(),
            !r.enabled,
            r.length_counter.counter == 0,
    {
        NoiseChannel {
            enabled: false,
            envelope: Envelope::new(),
            timer: Timer::new(),
            shift_register: LinearFeedbackShiftRegister::new(),
            length_counter: LengthCounter::new(),
        }
    }

    pub fn is_enabled(&self) -> (r: bool)
        ensures
            r == self.enabled,
    {
        self.enabled
    }

    pub fn set_enabled(&mut self, value: bool)
        ensures
            final(self).enabled == value,
            final(self).wf() == old(self).wf(),
            final(self).length_counter == old(self).length_counter,
    {
        self.enabled = value;
    }

    pub fn get_envelope(&mut self) -> (r: &mut Envelope)
        ensures
            *r == old(self).envelope,
    {
        &mut self.envelope
    }

    pub fn get_length_counter(&mut self) -> (r: &mut LengthCounter)
        ensures
            *r == old(self).length_counter,
    {
        &mut self.length_counter
    }

    pub fn get_output(&self) -> (r: u8)
        requires
            self.wf(),
        ensures
            r == self.output(),
            r < 16,
    {
        if self.enabled && !self.shift_register.is_muting() && !self.length_counter.is_muting() {
            self.envelope.get_output()
        } else {
            0
        }
    }

    pub fn write(&mut self, register: NoiseRegister, value: u8)
        requires
            old(self).wf(),
        ensures
            final(self).wf(),
            final(self).enabled == old(self).enabled,
            register == NoiseRegister::Volume ==> {
                &&& final(self).length_counter.halt == (value & 0x20 != 0)
                &&& final(self).envelope.loop_flag == (value & 0x20 != 0)
                &&& final(self).envelope.constant_volume == (value & 0x10 != 0)
                &&& final(self).envelope.divider.reload == value % 16
            },
            register == NoiseRegister::Low ==> {
                &&& final(self).shift_register.mode == (value & 0x80 != 0)
                &&& final(self).timer.period == noise_period(value)
            },
            register == NoiseRegister::High ==> {
                &&& final(self).envelope.start
                &&& old(self).enabled ==> final(self).length_counter.counter == length_table(value / 8) + 1
            },
            register == NoiseRegister::High && !old(self).enabled ==> final(self).length_counter == old(self).length_counter,
            register != NoiseRegister::High ==> final(self).length_counter.counter == old(self).length_counter.counter,
    {
        match register {
            NoiseRegister::Volume => {
                self.length_counter.set_halt(value & 0x20 != 0);
                self.envelope.set_loop(value & 0x20 != 0);
                self.envelope.set_constant_volume(value & 0x10 != 0);
                self.envelope.divider.set_reload(value % 16);
            },
            NoiseRegister::Low => {
                self.shift_register.set_mode(value & 0x80 != 0);
                self.timer.set_period(noise_period_entry(value));
            },
            NoiseRegister::High => {
                if self.enabled {
                    self.length_counter.set(value / 8);
                }
                self.envelope.set_start();
            },
        }
    }

    /// A timer clock (every other CPU cycle): the shift register steps when the timer fires.
    pub fn tick_timer(&mut self)
        requires
            old(self).wf(),
        ensures
            final(self).wf(),
            final(self).timer.period == old(self).timer.period,
            final(self).timer.time == if old(self).timer.time == 0 { old(self).timer.period } else { (old(self).timer.time - 1) as u16 },
            final(self).envelope == old(self).envelope && final(self).length_counter == old(self).length_counter,
            final(self).enabled == old(self).enabled,
            old(self).timer.time == 0 ==> final(self).shift_register.value == lfsr_step(old(self).shift_register.value, old(self).shift_register.mode),
            old(self).timer.time != 0 ==> final(self).shift_register == old(self).shift_register,
    {
        if self.timer.tick() {
            self.shift_register.tick();
        }
    }
}

} // verus!
