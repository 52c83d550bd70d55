use vstd::prelude::*;
use crate::apu::components::Timer;
use crate::apu::registers::DMCRegister;
use crate::cpu::cpu::{CPUMemory, modelled};

verus! {

/// The DMC timer periods, by the low four bits of the frequency register.
pub open spec fn pitch_period(index: u8) -> u16 {
    let i = index % 16;
    if i == 0 { 214 } else if i == 1 { 190 } else if i == 2 { 170 } else if i == 3 { 160 }
    else if i == 4 { 143 } else if i == 5 { 127 } else if i == 6 { 113 } else if i == 7 { 107 }
    else if i == 8 { 95 } else if i == 9 { 80 } else if i == 10 { 71 } else if i == 11 { 64 }
    else if i == 12 { 53 } else if i == 13 { 42 } else if i == 14 { 36 } else { 27 }
}

fn pitch_period_entry(index: u8) -> (r: u16)
    ensures
        r == pitch_period(index),
{
    let i = index % 16;
    if i == 0 { 214 } else if i == 1 { 190 } else if i == 2 { 170 } else if i == 3 { 160 }
    else if i == 4 { 143 } else if i == 5 { 127 } else if i == 6 { 113 } else if i == 7 { 107 }
    else if i == 8 { 95 } else if i == 9 { 80 } else if i == 10 { 71 } else if i == 11 { 64 }
    else if i == 12 { 53 } else if i == 13 { 42 } else if i == 14 { 36 } else { 27 }
}

/// The DMC's memory reader: where the sample is, how much is left, and the
/// one-byte sample buffer.
pub struct Reader {
    pub address: u16,
    pub sample_buffer: Option<u8>,
    pub bytes_remaining: u16,
    pub sample_address: u16,
    pub sample_length: u16,
    pub loop_flag: bool,
    pub irq_enabled: bool,
    pub interrupt: bool,
    pub dma: bool,
}

impl Reader {
    pub fn new() -> (r: Self)
        ensures
            r.sample_buffer.is_none(),
            r.bytes_remaining == 0,
            !r.interrupt && !r.dma,
    {
        Reader {
            address: 0,
            sample_buffer: None,
            bytes_remaining: 0,
            sample_address: 0,
            sample_length: 0,
            loop_flag: false,
            irq_enabled: false,
            interrupt: false,
            dma: false,
        }
    }

    pub fn are_bytes_remaining(&self) -> (r: bool)
        ensures
            r == (self.bytes_remaining > 0),
    {
        self.bytes_remaining > 0
    }

    /// Sets the count first, then asks for a byte if the buffer is empty.
    pub fn set_bytes_remaining(&mut self, bytes_remaining: u16)
        ensures
            final(self).bytes_remaining == bytes_remaining,
            final(self).dma == (old(self).dma || (bytes_remaining > 0 && old(self).sample_buffer.is_none())),
            final(self).sample_buffer == old(self).sample_buffer,
            final(self).address == old(self).address,
            final(self).interrupt == old(self).interrupt,
    {
        self.bytes_remaining = bytes_remaining;
        if self.are_bytes_remaining() && self.buffer_is_empty() {
            self.fetch_sample();
        }
    }

    pub fn buffer_is_empty(&self) -> (r: bool)
        ensures
            r == self.sample_buffer.is_none(),
    {
        self.sample_buffer.is_none()
    }

    /// Hands over the buffered byte, asking for the next one if any remain.
    pub fn empty_buffer(&mut self) -> (r: u8)
        requires
            old(self).sample_buffer.is_some(),
        ensures
            r == old(self).sample_buffer.unwrap(),
            final(self).sample_buffer.is_none(),
            final(self).dma == (old(self).dma || old(self).bytes_remaining > 0),
            final(self).bytes_remaining == old(self).bytes_remaining,
    {
        if self.are_bytes_remaining() {
            self.fetch_sample();
        }
        let value = match self.sample_buffer {
            Some(v) => v,
            None => 0,
        };
        self.sample_buffer = None;
        value
    }

    /// Reads the next sample byte into the buffer and advances (wrapping from
    /// 0xFFFF to 0x8000); at the end, loops or raises the interrupt.
    pub fn load_buffer<M: CPUMemory>(&mut self, memory: &mut M)
        requires
            old(memory).inv(),
        ensures
            final(memory).inv(),
            old(self).bytes_remaining > 0 ==> final(self).sample_buffer.is_some(),
            old(self).bytes_remaining > 0 ==> final(self).address == if old(self).address == 0xFFFF {
                0x8000
            } else {
                (old(self).address + 1) as u16
            } || (old(self).bytes_remaining == 1 && old(self).loop_flag),
            old(self).bytes_remaining == 1 && !old(self).loop_flag && old(self).irq_enabled ==> final(self).interrupt,
            old(self).bytes_remaining == 0 ==> *final(self) == *old(self),
            old(self).bytes_remaining > 1 ==> final(self).bytes_remaining == old(self).bytes_remaining - 1,
            old(self).bytes_remaining > 0 && modelled(old(self).address) ==> final(self).sample_buffer == Some(old(memory).byte_at(old(self).address)),
            old(self).bytes_remaining == 1 && old(self).loop_flag ==> final(self).address == old(self).sample_address
                && final(self).bytes_remaining == old(self).sample_length,
            old(self).bytes_remaining == 1 && !old(self).loop_flag ==> final(self).bytes_remaining == 0,
    {
        if self.bytes_remaining > 0 {
            let value = memory.read(self.address);
            self.load_value(value);
        }
    }

    /// Takes `value` as the next sample byte and advances (wrapping from
    /// 0xFFFF to 0x8000); at the end, loops or raises the interrupt.
    pub fn load_value(&mut self, value: u8)
        requires
            old(self).bytes_remaining > 0,
        ensures
            final(self).sample_buffer == Some(value),
            final(self).address == if old(self).address == 0xFFFF {
                0x8000
            } else {
                (old(self).address + 1) as u16
            } || (old(self).bytes_remaining == 1 && old(self).loop_flag),
            old(self).bytes_remaining == 1 && !old(self).loop_flag && old(self).irq_enabled ==> final(self).interrupt,
            old(self).bytes_remaining > 1 ==> final(self).bytes_remaining == old(self).bytes_remaining - 1,
            old(self).bytes_remaining == 1 && old(self).loop_flag ==> final(self).address == old(self).sample_address
                && final(self).bytes_remaining == old(self).sample_length,
            old(self).bytes_remaining == 1 && !old(self).loop_flag ==> final(self).bytes_remaining == 0,
    {
        {
            self.sample_buffer = Some(value);
            if self.address == 0xFFFF {
                self.address = 0x8000;
            } else {
                self.address = self.address + 1;
            }
            self.bytes_remaining = self.bytes_remaining - 1;
            if !self.are_bytes_remaining() {
                if self.loop_flag {
                    self.restart();
                } else if self.irq_enabled {
                    self.interrupt = true;
                }
            }
        }
    }

    /// Asks the console for a DMA read of the next byte.
    pub fn fetch_sample(&mut self)
        ensures
            final(self).dma,
            final(self).sample_buffer == old(self).sample_buffer,
            final(self).bytes_remaining == old(self).bytes_remaining,
            final(self).address == old(self).address,
            final(self).interrupt == old(self).interrupt,
    {
        self.dma = true;
    }

    fn restart(&mut self)
        ensures
            final(self).address == old(self).sample_address,
            final(self).bytes_remaining == old(self).sample_length,
            final(self).sample_buffer == old(self).sample_buffer,
            final(self).interrupt == old(self).interrupt,
    {
        self.address = self.sample_address;
        self.set_bytes_remaining(self.sample_length);
    }
}

/// The delta-modulation channel: a 7-bit level moved by ±2 per sample bit.
pub struct DeltaModulationChannel {
    pub shift_register: u8,
    pub bits_remaining: u8,
    pub output_level: u8,
    pub silence: bool,
    pub timer: Timer,
    pub reader: Reader,
}

impl DeltaModulationChannel {
    pub open spec fn wf(&self) -> bool {
        1 <= self.bits_remaining <= 8 && self.output_level < 128
    }

    pub fn new() -> (r: Self)
        ensures
            r.wf(),
            r.output_level == 0,
    {
        DeltaModulationChannel {
            shift_register: 0,
            bits_remaining: 8,
            output_level: 0,
            silence: false,
            timer: Timer::new(),
            reader: Reader::new(),
        }
    }

    pub fn write(&mut self, register: DMCRegister, value: u8)
        requires
            old(self).wf(),
        ensures
            final(self).wf(),
            register == DMCRegister::Frequency ==> {
                &&& final(self).reader.irq_enabled == (value & 0x80 != 0)
                &&& final(self).reader.loop_flag == (value & 0x40 != 0)
                &&& final(self).timer.period == pitch_period(value)
                &&& value & 0x80 == 0 ==> !final(self).reader.interrupt
            },
            register == DMCRegister::Raw ==> final(self).output_level == value % 128,
            register == DMCRegister::Start ==> final(self).reader.sample_address == 0xC000 + value as int * 64,
            register == DMCRegister::Length ==> final(self).reader.sample_length == value as int * 16 + 1,
    {
        match register {
            DMCRegister::Frequency => {
                self.reader.irq_enabled = value & 0x80 != 0;
                if !self.reader.irq_enabled {
                    self.reader.interrupt = false;
                }
                self.reader.loop_flag = value & 0x40 != 0;
                self.timer.set_period(pitch_period_entry(value));
            },
            DMCRegister::Raw => self.output_level = value % 128,
            DMCRegister::Start => self.reader.sample_address = 0xC000 + (value as u16) * 64,
            DMCRegister::Length => self.reader.sample_length = (value as u16) * 16 + 1,
        }
    }

    pub fn are_bytes_remaining(&self) -> (r: bool)
        ensures
            r == (self.reader.bytes_remaining > 0),
    {
        self.reader.are_bytes_remaining()
    }

    pub fn set_bytes_remaining(&mut self, value: u16)
        requires
            old(self).wf(),
        ensures
            final(self).wf(),
            final(self).reader.bytes_remaining == value,
    {
        self.reader.set_bytes_remaining(value)
    }

    /// Starts the sample over from its start address and length.
    pub fn restart_sample(&mut self)
        requires
            old(self).wf(),
        ensures
            final(self).wf(),
            final(self).reader.address == old(self).reader.sample_address,
            final(self).reader.bytes_remaining == old(self).reader.sample_length,
    {
        self.reader.restart()
    }

    pub fn get_irq(&self) -> (r: bool)
        ensures
            r == self.reader.interrupt,
    {
        self.reader.interrupt
    }

    pub fn reset_irq(&mut self)
        requires
            old(self).wf(),
        ensures
            final(self).wf(),
            !final(self).reader.interrupt,
    {
        self.reader.interrupt = false;
    }

    pub fn get_dma(&self) -> (r: bool)
        ensures
            r == self.reader.dma,
    {
        self.reader.dma
    }

    pub fn reset_dma(&mut self)
        requires
            old(self).wf(),
        ensures
            final(self).wf(),
            !final(self).reader.dma,
            final(self).reader.sample_buffer == old(self).reader.sample_buffer,
            final(self).reader.bytes_remaining == old(self).reader.bytes_remaining,
            final(self).reader.address == old(self).reader.address,
            final(self).reader.interrupt == old(self).reader.interrupt,
            final(self).output_level == old(self).output_level,
    {
        self.reader.dma = false;
    }

    pub fn load_buffer<M: CPUMemory>(&mut self, memory: &mut M)
        requires
            old(self).wf(),
            old(memory).inv(),
        ensures
            final(self).wf(),
            final(memory).inv(),
            old(self).reader.bytes_remaining > 0 ==> final(self).reader.sample_buffer.is_some(),
            old(self).reader.bytes_remaining == 0 ==> *final(self) == *old(self),
            final(self).output_level == old(self).output_level,
    {
        self.reader.load_buffer(memory)
    }

    pub fn get_output(&self) -> (r: u8)
        ensures
            r == self.output_level,
    {
        self.output_level
    }

    /// A timer clock: when the timer fires, the level moves by ±2 (kept in
    /// 0..127) unless silenced, and after eight bits the buffer is taken.
    pub fn tick_timer(&mut self)
        requires
            old(self).wf(),
        ensures
            final(self).wf(),
            old(self).timer.time == 0 && !old(self).silence && old(self).shift_register % 2 == 1 ==>
                final(self).output_level == if old(self).output_level <= 125 { (old(self).output_level + 2) as u8 } else { old(self).output_level },
            old(self).timer.time == 0 && !old(self).silence && old(self).shift_register % 2 == 0 ==>
                final(self).output_level == if old(self).output_level >= 2 { (old(self).output_level - 2) as u8 } else { old(self).output_level },
            old(self).timer.time != 0 || old(self).silence ==> final(self).output_level == old(self).output_level,
    {
        if self.timer.tick() {
            if !self.silence {
                if self.shift_register % 2 == 1 {
                    if self.output_level <= 125 {
                        self.output_level = self.output_level + 2;
                    }
                } else {
                    if self.output_level >= 2 {
                        self.output_level = self.output_level - 2;
                    }
                }
            }
            self.shift_register = self.shift_register / 2;
            self.bits_remaining = self.bits_remaining - 1;
            if self.bits_remaining == 0 {
                self.bits_remaining = 8;
                self.silence = self.reader.buffer_is_empty();
                if !self.reader.buffer_is_empty() {
                    self.shift_register = self.reader.empty_buffer();
                }
            }
        }
    }
}

} // verus!
