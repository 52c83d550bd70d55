use vstd::prelude::*;
use crate::cpu::instruction::Instruction;
use crate::cpu::status::StatusRegister;

verus! {

/// The programmer-visible registers and the instruction register.
pub struct Registers {
    pub instruction: Instruction,
    pub a: u8,
    pub x: u8,
    pub y: u8,
    pub status: StatusRegister,
    pub stack_pointer: u8,
    pub program_counter: u16,
}

/// The program counter made of a low and a high byte.
pub open spec fn pc_of(pcl: u8, pch: u8) -> u16 {
    (pcl as int + 256 * pch as int) as u16
}

impl Registers {
    pub open spec fn get_pcl_spec(&self) -> u8 {
        (self.program_counter % 256) as u8
    }

    pub fn new() -> (r: Self)
        ensures
            r.a == 0 && r.x == 0 && r.y == 0,
            r.status.0 == 0x34,
            r.status.wf(),
            r.stack_pointer == 0xFD,
            r.program_counter == 0,
            r.instruction.0 == 0,
    {
        Registers {
            instruction: Instruction::new(0),
            a: 0,
            x: 0,
            y: 0,
            status: StatusRegister::new(),
            stack_pointer: 0xFD,
            program_counter: 0,
        }
    }

    pub fn get_pcl(&self) -> (r: u8)
        ensures
            r == self.program_counter % 256,
    {
        (self.program_counter % 256) as u8
    }

    pub fn set_pcl(&mut self, pcl: u8)
        ensures
            final(self).program_counter == pc_of(pcl, (old(self).program_counter / 256) as u8),
            final(self).a == old(self).a && final(self).x == old(self).x && final(self).y == old(self).y,
            final(self).stack_pointer == old(self).stack_pointer,
            final(self).status == old(self).status,
            final(self).instruction == old(self).instruction,
    {
        self.program_counter = (self.program_counter / 256) * 256 + pcl as u16;
    }

    pub fn get_pch(&self) -> (r: u8)
        ensures
            r == self.program_counter / 256,
    {
        (self.program_counter / 256) as u8
    }

    pub fn set_pch(&mut self, pch: u8)
        ensures
            final(self).program_counter == pc_of((old(self).program_counter % 256) as u8, pch),
            final(self).a == old(self).a && final(self).x == old(self).x && final(self).y == old(self).y,
            final(self).stack_pointer == old(self).stack_pointer,
            final(self).status == old(self).status,
            final(self).instruction == old(self).instruction,
    {
        self.program_counter = (self.program_counter % 256) + (pch as u16) * 256;
    }

    pub fn set_pc(&mut self, pcl: u8, pch: u8)
        ensures
            final(self).program_counter == pc_of(pcl, pch),
            final(self).a == old(self).a && final(self).x == old(self).x && final(self).y == old(self).y,
            final(self).stack_pointer == old(self).stack_pointer,
            final(self).status == old(self).status,
            final(self).instruction == old(self).instruction,
    {
        self.program_counter = pcl as u16 + (pch as u16) * 256;
    }

    pub fn increment_pc(&mut self)
        ensures
            final(self).program_counter == old(self).program_counter.wrapping_add(1),
            final(self).a == old(self).a && final(self).x == old(self).x && final(self).y == old(self).y,
            final(self).stack_pointer == old(self).stack_pointer,
            final(self).status == old(self).status,
            final(self).instruction == old(self).instruction,
    {
        self.program_counter = self.program_counter.wrapping_add(1);
    }
}

} // verus!
