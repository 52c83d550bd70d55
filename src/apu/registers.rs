use vstd::prelude::*;

verus! {

#[derive(Clone, Copy, PartialEq, Eq, Structural, Debug)]
pub enum PulseRegister {
    Volume,
    Sweep,
    Low,
    High,
}

#[derive(Clone, Copy, PartialEq, Eq, Structural, Debug)]
pub enum TriangleRegister {
    Linear,
    Low,
    High,
}

#[derive(Clone, Copy, PartialEq, Eq, Structural, Debug)]
pub enum NoiseRegister {
    Volume,
    Low,
    High,
}

#[derive(Clone, Copy, PartialEq, Eq, Structural, Debug)]
pub enum DMCRegister {
    Frequency,
    Raw,
    Start,
    Length,
}

/// The audio registers at 0x4000..0x4017.
#[derive(Clone, Copy, PartialEq, Eq, Structural, Debug)]
pub enum APURegister {
    Pulse1(PulseRegister),
    Pulse2(PulseRegister),
    Triangle(TriangleRegister),
    Noise(NoiseRegister),
    DMC(DMCRegister),
    SoundChannelsEnable,
    FrameCounter,
    Unused,
}

pub open spec fn pulse_register(offset: u16) -> PulseRegister {
    if offset == 0 {
        PulseRegister::Volume
    } else if offset == 1 {
        PulseRegister::Sweep
    } else if offset == 2 {
        PulseRegister::Low
    } else {
        PulseRegister::High
    }
}

pub open spec fn register_at(address: u16) -> APURegister {
    if 0x4000 <= address < 0x4004 {
        APURegister::Pulse1(pulse_register((address - 0x4000) as u16))
    } else if 0x4004 <= address < 0x4008 {
        APURegister::Pulse2(pulse_register((address - 0x4004) as u16))
    } else if address == 0x4008 {
        APURegister::Triangle(TriangleRegister::Linear)
    } else if address == 0x400A {
        APURegister::Triangle(TriangleRegister::Low)
    } else if address == 0x400B {
        APURegister::Triangle(TriangleRegister::High)
    } else if address == 0x400C {
        APURegister::Noise(NoiseRegister::Volume)
    } else if address == 0x400E {
        APURegister::Noise(NoiseRegister::Low)
    } else if address == 0x400F {
        APURegister::Noise(NoiseRegister::High)
    } else if address == 0x4010 {
        APURegister::DMC(DMCRegister::Frequency)
    } else if address == 0x4011 {
        APURegister::DMC(DMCRegister::Raw)
    } else if address == 0x4012 {
        APURegister::DMC(DMCRegister::Start)
    } else if address == 0x4013 {
        APURegister::DMC(DMCRegister::Length)
    } else if address == 0x4015 {
        APURegister::SoundChannelsEnable
    } else if address == 0x4017 {
        APURegister::FrameCounter
    } else {
        APURegister::Unused
    }
}

fn pulse_register_at(offset: u16) -> (r: PulseRegister)
    ensures
        r == pulse_register(offset),
{
    if offset == 0 {
        PulseRegister::Volume
    } else if offset == 1 {
        PulseRegister::Sweep
    } else if offset == 2 {
        PulseRegister::Low
    } else {
        PulseRegister::High
    }
}

impl APURegister {
    pub fn from_address(address: u16) -> (r: APURegister)
        ensures
            r == register_at(address),
    {
        if 0x4000 <= address && address < 0x4004 {
            APURegister::Pulse1(pulse_register_at(address - 0x4000))
        } else if 0x4004 <= address && address < 0x4008 {
            APURegister::Pulse2(pulse_register_at(address - 0x4004))
        } else if address == 0x4008 {
            APURegister::Triangle(TriangleRegister::Linear)
        } else if address == 0x400A {
            APURegister::Triangle(TriangleRegister::Low)
        } else if address == 0x400B {
            APURegister::Triangle(TriangleRegister::High)
        } else if address == 0x400C {
            APURegister::Noise(NoiseRegister::Volume)
        } else if address == 0x400E {
            APURegister::Noise(NoiseRegister::Low)
        } else if address == 0x400F {
            APURegister::Noise(NoiseRegister::High)
        } else if address == 0x4010 {
            APURegister::DMC(DMCRegister::Frequency)
        } else if address == 0x4011 {
            APURegister::DMC(DMCRegister::Raw)
        } else if address == 0x4012 {
            APURegister::DMC(DMCRegister::Start)
        } else if address == 0x4013 {
            APURegister::DMC(DMCRegister::Length)
        } else if address == 0x4015 {
            APURegister::SoundChannelsEnable
        } else if address == 0x4017 {
            APURegister::FrameCounter
        } else {
            APURegister::Unused
        }
    }
}

} // verus!
