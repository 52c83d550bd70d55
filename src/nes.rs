use vstd::prelude::*;
use crate::apu::apu::ChannelLevels;
use crate::bus::cpu_bus::CPUBus;
use crate::bus::mapper::{LoadError, from_ines};
use crate::cpu::cpu::{CPU, modelled, successor};
use crate::cpu::state::BreakSignal;
use crate::ppu::ppu::next_dot;
use crate::cpu::registers::pc_of;
use crate::cpu::state::CPUState;
use crate::ppu::ppu::PPU;

verus! {

/// The OAM-DMA engine's phase.
#[derive(Clone, Copy, PartialEq, Eq, Structural, Debug)]
pub enum DMAState {
    INACTIVE,
    /// One CPU cycle (two when it starts on a read cycle) to align with reads.
    WAIT,
    /// Alternating read and write cycles, 256 of each.
    TRANSFER,
}

/// The OAM-DMA engine: the source address and the byte in flight.
#[derive(Clone, Copy, PartialEq, Eq, Structural, Debug)]
pub struct DMA {
    pub state: DMAState,
    pub value: u8,
    pub address: u16,
}

impl DMA {
    pub fn new() -> (r: Self)
        ensures
            r.state == DMAState::INACTIVE,
    {
        DMA { state: DMAState::INACTIVE, value: 0, address: 0 }
    }
}

/// The DMA engine's next phase and source low byte after a CPU slot that is
/// a read slot (master cycle 0) or a write slot (master cycle 12).
pub open spec fn dma_step(state: DMAState, low: int, read_slot: bool) -> (DMAState, int) {
    match state {
        DMAState::WAIT => if read_slot { (DMAState::WAIT, low) } else { (DMAState::TRANSFER, low) },
        DMAState::TRANSFER => if read_slot {
            (DMAState::TRANSFER, low)
        } else if low == 255 {
            (DMAState::INACTIVE, low)
        } else {
            (DMAState::TRANSFER, low + 1)
        },
        DMAState::INACTIVE => (DMAState::INACTIVE, low),
    }
}

/// CPU slots the DMA engine still holds, counting the coming one.
pub open spec fn dma_slots_left(state: DMAState, low: int, read_slot: bool) -> int {
    match state {
        DMAState::WAIT => if read_slot { 514 } else { 513 },
        DMAState::TRANSFER => if read_slot { 2 * (256 - low) } else { 2 * (256 - low) - 1 },
        DMAState::INACTIVE => 0,
    }
}

/// OAM DMA holds the CPU for 513 cycles when it starts before a write slot and
/// 514 when it starts before a read slot: every slot takes one off the count,
/// and the engine stops exactly when none is left.
pub proof fn lemma_dma_length(state: DMAState, low: int, read_slot: bool)
    requires
        0 <= low < 256,
        state != DMAState::INACTIVE,
        state == DMAState::WAIT ==> low == 0,
    ensures
        dma_slots_left(DMAState::WAIT, 0, true) == 514,
        dma_slots_left(DMAState::WAIT, 0, false) == 513,
        dma_slots_left(state, low, read_slot) >= 1,
        ({
            let (next, next_low) = dma_step(state, low, read_slot);
            &&& dma_slots_left(next, next_low, !read_slot) == dma_slots_left(state, low, read_slot) - 1
            &&& (next == DMAState::INACTIVE <==> dma_slots_left(state, low, read_slot) == 1)
            &&& 0 <= next_low < 256
            &&& next == DMAState::WAIT ==> next_low == 0
        }),
{
}

/// The master clock period in master cycles: two CPU cycles, six PGU dots.
pub const MASTER_CYCLES: usize = 24;

/// The console: CPU, bus (PGU, APU, pads, cartridge), DMA and master clock.
pub struct NES {
    pub cpu: CPU,
    pub bus: CPUBus,
    pub dma: DMA,
    pub cycle: usize,
    pub cpu_cycle: u64,
}

impl NES {
    pub open spec fn wf(&self) -> bool {
        &&& self.cpu.wf()
        &&& self.bus.wf()
        &&& self.cycle < 24
    }

    /// Loads an iNES image and starts the CPU at its reset vector.
    pub fn from_ines(binary: &[u8]) -> (r: Result<Self, LoadError>)
        ensures
            match crate::bus::mapper::ines_error(binary@) {
                Some(e) => r == Err::<Self, LoadError>(e),
                None => r matches Ok(nes) && {
                    let b = binary@;
                    let off = crate::bus::mapper::ines_offset(b);
                    let prg = crate::bus::mapper::ines_prg_size(b);
                    &&& nes.wf()
                    &&& nes.cycle == 0
                    &&& nes.dma.state == DMAState::INACTIVE
                    &&& nes.cpu.state == CPUState::FetchInstruction
                    &&& nes.cpu.registers.stack_pointer == 0xFD
                    &&& nes.cpu.registers.status.0 == 0x34
                    &&& nes.cpu.registers.program_counter == pc_of(b[off + prg - 4], b[off + prg - 3])
                },
            },
    {
        match from_ines(binary) {
            Ok(mapper) => {
                let mut bus = CPUBus::new(mapper);
                let mut cpu = CPU::new();
                let low = bus.read(0xFFFC);
                let high = bus.read(0xFFFD);
                cpu.registers.set_pc(low, high);
                Ok(NES { cpu, bus, dma: DMA::new(), cycle: 0, cpu_cycle: 0 })
            },
            Err(e) => Err(e),
        }
    }

    /// Sets the buttons of both pads (A, B, Select, Start, Up, Down, Left, Right).
    pub fn load_buttons(&mut self, controller1: [bool; 8], controller2: [bool; 8])
        requires
            old(self).wf(),
        ensures
            final(self).wf(),
            final(self).bus.controller_1.buttons == crate::controller::controller::button_bits(controller1@),
            final(self).bus.controller_2.buttons == crate::controller::controller::button_bits(controller2@),
    {
        self.bus.controller_1.load_buttons(controller1);
        self.bus.controller_2.load_buttons(controller2);
    }

    /// Back to the power-up state of every part; the cartridge stays.
    pub fn reset(&mut self)
        requires
            old(self).wf(),
        ensures
            final(self).wf(),
            final(self).dma.state == DMAState::INACTIVE,
            final(self).cycle == 0,
            final(self).bus.memory == old(self).bus.memory,
            final(self).cpu.state == CPUState::Break(0, BreakSignal::Reset),
            final(self).cpu.registers == old(self).cpu.registers,
            final(self).bus.ppu.scanline == 261 && final(self).bus.ppu.cycle == 0,
            final(self).bus.ppu.register.control.0 == 0 && final(self).bus.ppu.register.mask.0 == 0
                && final(self).bus.ppu.register.status.0 == 0,
            !final(self).bus.ppu.nmi && final(self).bus.ppu.dma.is_none(),
            !final(self).bus.apu.irq,
            !final(self).bus.apu.pulse_channel1.enabled && !final(self).bus.apu.pulse_channel2.enabled,
            !final(self).bus.apu.triangle_channel.enabled && !final(self).bus.apu.noise_channel.enabled,
            final(self).bus.apu.pulse_channel1.length_counter.counter == 0 && final(self).bus.apu.pulse_channel2.length_counter.counter == 0,
            final(self).bus.apu.triangle_channel.length_counter.counter == 0 && final(self).bus.apu.noise_channel.length_counter.counter == 0,
            final(self).bus.ram == old(self).bus.ram,
    {
        self.cpu.reset();
        self.bus.ppu = PPU::new();
        self.bus.apu.reset();
        self.dma = DMA::new();
        self.cycle = 0;
    }

    /// Whether OAM DMA holds the CPU.
    pub fn is_dma_active(&self) -> (r: bool)
        ensures
            r == (self.dma.state != DMAState::INACTIVE),
    {
        self.dma.state != DMAState::INACTIVE
    }

    /// One CPU-clock slot: the CPU cycle (or a DMC fetch in its place)
    /// unless DMA holds the CPU, then the APU.
    fn cpu_slot(&mut self)
        requires
            old(self).wf(),
            old(self).dma.state == DMAState::INACTIVE,
        ensures
            final(self).wf(),
            final(self).cycle == old(self).cycle,
            final(self).dma == old(self).dma,
            old(self).bus.apu.dmc_channel.reader.dma ==> final(self).cpu == old(self).cpu,
            !old(self).bus.apu.dmc_channel.reader.dma && old(self).cpu.state != CPUState::FetchInstruction
                && (old(self).cpu.state != CPUState::FetchOperand || old(self).cpu.registers.instruction.0 != 0)
                ==> final(self).cpu.state == successor(old(self).cpu.state, old(self).cpu.registers.instruction.0,
                    old(self).cpu.fix_pch, BreakSignal::BRK),
            !old(self).bus.apu.dmc_channel.reader.dma && old(self).cpu.state == CPUState::FetchInstruction
                && !old(self).cpu.branch && !old(self).cpu.fix_pch && !old(self).cpu.nmi && !old(self).cpu.irq
                ==> final(self).cpu.state == CPUState::FetchOperand,
    {
        if self.bus.apu.get_dma() {
            let address = self.bus.apu.get_dma_address();
            let value = self.bus.read(address);
            self.bus.apu.load_dmc_sample(value);
        } else {
            self.cpu.tick(&mut self.bus);
        }
    }

    /// Passes the PGU's NMI and the APU's IRQ to the CPU, and starts a
    /// requested OAM DMA.
    fn poll_lines(&mut self)
        requires
            old(self).wf(),
        ensures
            final(self).wf(),
            final(self).cycle == old(self).cycle,
            final(self).bus.ppu.dma.is_none(),
            final(self).bus.ppu.foreground == old(self).bus.ppu.foreground,
            old(self).bus.ppu.dma.is_none() ==> final(self).dma == old(self).dma,
            old(self).bus.ppu.dma matches Some(page) ==> final(self).dma.state == DMAState::WAIT
                && final(self).dma.address == page as int * 256,
            final(self).cpu.state == old(self).cpu.state && final(self).cpu.registers == old(self).cpu.registers,
            final(self).cpu.branch == old(self).cpu.branch && final(self).cpu.fix_pch == old(self).cpu.fix_pch,
            final(self).cpu.low == old(self).cpu.low && final(self).cpu.high == old(self).cpu.high,
            final(self).cpu.value == old(self).cpu.value && final(self).cpu.alu == old(self).cpu.alu,
            final(self).cpu.output == old(self).cpu.output,
            final(self).bus.ppu.scanline == old(self).bus.ppu.scanline && final(self).bus.ppu.cycle == old(self).bus.ppu.cycle,
            final(self).bus.ppu.odd_frame == old(self).bus.ppu.odd_frame && final(self).bus.ppu.register == old(self).bus.ppu.register,
            final(self).bus.apu == old(self).bus.apu,
            old(self).bus.ppu.nmi ==> final(self).cpu.nmi,
            final(self).bus.ram == old(self).bus.ram && final(self).bus.memory == old(self).bus.memory,
    {
        if self.bus.ppu.pull_nmi() {
            self.cpu.send_nmi();
        }
        let irq = self.bus.apu.get_irq();
        self.cpu.set_irq(irq);
        match self.bus.ppu.pull_dma() {
            Some(page) => {
                self.dma.state = DMAState::WAIT;
                self.dma.address = (page as u16) * 256;
            },
            None => {},
        }
    }

    /// The DMA engine's share of a CPU slot: waits for a read cycle, then
    /// reads on master cycle 0 and writes OAM on master cycle 12.
    fn dma_slot(&mut self)
        requires
            old(self).wf(),
            old(self).dma.state != DMAState::INACTIVE,
            old(self).cycle == 0 || old(self).cycle == 12,
        ensures
            final(self).cpu == old(self).cpu,
            final(self).wf(),
            final(self).cycle == old(self).cycle,
            (final(self).dma.state, (final(self).dma.address % 256) as int)
                == dma_step(old(self).dma.state, (old(self).dma.address % 256) as int, old(self).cycle == 0),
            old(self).dma.state == DMAState::WAIT && old(self).cycle == 12 ==> final(self).dma.state == DMAState::TRANSFER
                && final(self).dma.address == old(self).dma.address,
            old(self).dma.state == DMAState::WAIT && old(self).cycle == 0 ==> final(self).dma == old(self).dma,
            old(self).dma.state == DMAState::TRANSFER && old(self).cycle == 0 ==> final(self).dma.state == DMAState::TRANSFER
                && final(self).dma.address == old(self).dma.address,
            old(self).dma.state == DMAState::TRANSFER && old(self).cycle == 12 ==> {
                &&& final(self).bus.ppu.foreground.sprites.oam_primary.byte(old(self).dma.address as int % 256) == old(self).dma.value
                &&& old(self).dma.address % 256 == 255 ==> final(self).dma.state == DMAState::INACTIVE
                &&& old(self).dma.address % 256 != 255 ==> final(self).dma.state == DMAState::TRANSFER
                    && final(self).dma.address == old(self).dma.address + 1
            },
            old(self).dma.state == DMAState::TRANSFER && old(self).cycle == 0 && modelled(old(self).dma.address)
                ==> final(self).dma.value == old(self).bus.modelled_byte(old(self).dma.address),
            final(self).bus.ram == old(self).bus.ram,
    {
        match self.dma.state {
            DMAState::WAIT => {
                if self.cycle == 12 {
                    self.dma.state = DMAState::TRANSFER;
                }
            },
            DMAState::TRANSFER => {
                if self.cycle == 0 {
                    let value = self.bus.read(self.dma.address);
                    self.dma.value = value;
                } else {
                    let low = (self.dma.address % 256) as u8;
                    self.bus.ppu.write_oam(low, self.dma.value);
                    if self.dma.address % 256 == 255 {
                        self.dma.state = DMAState::INACTIVE;
                    } else {
                        self.dma.address = self.dma.address + 1;
                    }
                }
            },
            DMAState::INACTIVE => {},
        }
    }

    /// One master cycle. CPU and APU run on master cycles 0 and 12, the PGU
    /// on 1, 5, 9, 13, 17 and 21; OAM DMA takes the CPU's slots.
    pub fn tick(&mut self)
        requires
            old(self).wf(),
        ensures
            final(self).wf(),
            final(self).cycle == (old(self).cycle + 1) % 24,
            old(self).bus.ppu.dma.is_none() && old(self).dma.state == DMAState::WAIT && old(self).cycle == 12
                ==> final(self).dma.state == DMAState::TRANSFER,
            old(self).bus.ppu.dma.is_none() && old(self).dma.state == DMAState::WAIT && old(self).cycle != 12
                ==> final(self).dma.state == DMAState::WAIT,
            old(self).bus.ppu.dma.is_none() && old(self).dma.state == DMAState::TRANSFER && old(self).cycle == 12 ==> {
                &&& final(self).bus.ppu.foreground.sprites.oam_primary.byte(old(self).dma.address as int % 256) == old(self).dma.value
                &&& old(self).dma.address % 256 == 255 ==> final(self).dma.state == DMAState::INACTIVE
                &&& old(self).dma.address % 256 != 255 ==> final(self).dma.state == DMAState::TRANSFER
                    && final(self).dma.address == old(self).dma.address + 1
            },
            old(self).bus.ppu.dma.is_none() && old(self).dma.state == DMAState::TRANSFER && old(self).cycle != 12
                ==> final(self).dma.state == DMAState::TRANSFER && final(self).dma.address == old(self).dma.address,
            old(self).bus.ppu.dma matches Some(page) ==> final(self).dma.state != DMAState::INACTIVE
                && final(self).dma.address == page as int * 256,
            (old(self).cycle != 0 && old(self).cycle != 12) || old(self).dma.state != DMAState::INACTIVE
                || old(self).bus.ppu.dma.is_some() ==> {
                &&& final(self).cpu.state == old(self).cpu.state
                &&& final(self).cpu.registers == old(self).cpu.registers
                &&& final(self).cpu.value == old(self).cpu.value && final(self).cpu.alu == old(self).cpu.alu
            },
            (old(self).cycle == 0 || old(self).cycle == 12) && old(self).dma.state == DMAState::INACTIVE
                && old(self).bus.ppu.dma.is_none() && !old(self).bus.apu.dmc_channel.reader.dma
                && old(self).cpu.state != CPUState::FetchInstruction
                && (old(self).cpu.state != CPUState::FetchOperand || old(self).cpu.registers.instruction.0 != 0)
                ==> final(self).cpu.state == successor(old(self).cpu.state, old(self).cpu.registers.instruction.0,
                    old(self).cpu.fix_pch, BreakSignal::BRK),
            old(self).cycle % 4 == 1 ==> (final(self).bus.ppu.scanline as int, final(self).bus.ppu.cycle as int, final(self).bus.ppu.odd_frame)
                == next_dot(old(self).bus.ppu.scanline as int, old(self).bus.ppu.cycle as int, old(self).bus.ppu.odd_frame,
                    old(self).bus.ppu.register.mask.rendering()),
            old(self).cycle % 4 != 1 && old(self).cycle != 0 && old(self).cycle != 12 ==> {
                &&& final(self).bus.ppu.scanline == old(self).bus.ppu.scanline
                &&& final(self).bus.ppu.cycle == old(self).bus.ppu.cycle
                &&& final(self).bus.apu == old(self).bus.apu
            },
            old(self).bus.ppu.dma.is_none() && old(self).dma.state == DMAState::TRANSFER && old(self).cycle == 0
                && modelled(old(self).dma.address) ==> final(self).dma.value == old(self).bus.modelled_byte(old(self).dma.address),
    {
        self.poll_lines();
        if self.cycle == 0 || self.cycle == 12 {
            if self.dma.state == DMAState::INACTIVE {
                self.cpu_slot();
            } else {
                self.dma_slot();
            }
            self.bus.apu.tick();
            self.cpu_cycle = self.cpu_cycle.wrapping_add(1);
        } else if self.cycle % 4 == 1 {
            self.bus.ppu.tick(&mut self.bus.memory);
        }
        self.cycle = (self.cycle + 1) % MASTER_CYCLES;
    }

    /// The finished frame (256×240 RGB triples, row by row), once per frame.
    pub fn get_screen_output(&mut self) -> (r: Option<Vec<u8>>)
        requires
            old(self).wf(),
        ensures
            final(self).wf(),
            r.is_some() == old(self).bus.ppu.render,
            r.is_some() ==> r.unwrap()@ == old(self).bus.ppu.pixels@,
    {
        self.bus.ppu.get_output()
    }

    /// The channel levels of each audio sample since the last call.
    pub fn take_samples(&mut self) -> (r: Vec<ChannelLevels>)
        requires
            old(self).wf(),
        ensures
            final(self).wf(),
            r@ == old(self).bus.apu.samples@,
    {
        self.bus.apu.get_output()
    }
}

} // verus!
