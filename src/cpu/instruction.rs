use vstd::prelude::*;
use crate::cpu::alu::ALUOperation;
use crate::cpu::status::StatusRegister;

verus! {

/// A register an instruction reads from or writes to.
#[derive(Clone, Copy, PartialEq, Eq, Structural, Debug)]
pub enum TargetRegister {
    A,
    X,
    Y,
    SP,
    SR,
}

/// The index register an indexed addressing mode adds.
#[derive(Clone, Copy, PartialEq, Eq, Structural, Debug)]
pub enum IndexMode {
    X,
    Y,
}

#[derive(Clone, Copy, PartialEq, Eq, Structural, Debug)]
pub enum AddressingMode {
    Implied,
    Immediate,
    ZeroPage,
    ZeroPageIndexed(IndexMode),
    Absolute,
    AbsoluteIndexed(IndexMode),
    Indirect(IndexMode),
    Branch,
}

/// The addressing mode of each opcode column (the low five bits of the opcode).
pub open spec fn address_table(column: u8) -> AddressingMode {
    match column {
        0x00 | 0x08 | 0x0A | 0x18 | 0x1A => AddressingMode::Implied,
        0x01 | 0x03 => AddressingMode::Indirect(IndexMode::X),
        0x02 | 0x09 | 0x0B | 0x12 => AddressingMode::Immediate,
        0x04 | 0x05 | 0x06 | 0x07 => AddressingMode::ZeroPage,
        0x0C | 0x0D | 0x0E | 0x0F => AddressingMode::Absolute,
        0x10 => AddressingMode::Branch,
        0x11 | 0x13 => AddressingMode::Indirect(IndexMode::Y),
        0x14 | 0x15 | 0x16 | 0x17 => AddressingMode::ZeroPageIndexed(IndexMode::X),
        0x19 | 0x1B => AddressingMode::AbsoluteIndexed(IndexMode::Y),
        _ => AddressingMode::AbsoluteIndexed(IndexMode::X),
    }
}

/// The addressing mode of an opcode: the column table, with the indexed
/// forms that use Y in place of X, the row-0 immediates and JSR's absolute operand.
pub open spec fn addressing_mode_of(op: u8) -> AddressingMode {
    if op == 0x96 || op == 0x97 || op == 0xB6 || op == 0xB7 {
        AddressingMode::ZeroPageIndexed(IndexMode::Y)
    } else if op == 0x9E || op == 0x9F || op == 0xBE || op == 0xBF {
        AddressingMode::AbsoluteIndexed(IndexMode::Y)
    } else if op == 0x80 || op == 0xA0 || op == 0xC0 || op == 0xE0 {
        AddressingMode::Immediate
    } else if op == 0x20 {
        AddressingMode::Absolute
    } else {
        address_table(op & 0x1F)
    }
}

/// The operator of an ALU-table index `((op >> 1) & 0x78) | (op & 3)`: the
/// operation group (bits 5..7 of the opcode, at bits 4..6) and the column
/// class (bits 0..1). Undocumented class 3 behaves as class 1.
pub open spec fn alu_table(index: u8) -> Option<ALUOperation> {
    let group = index >> 4;
    let class = index & 3;
    if class == 0 {
        if group == 1 {
            Some(ALUOperation::BIT)
        } else if group == 4 || group == 5 {
            Some(ALUOperation::LOAD)
        } else if group == 6 || group == 7 {
            Some(ALUOperation::CMP)
        } else {
            None
        }
    } else if class == 2 {
        if group == 0 {
            Some(ALUOperation::ASL)
        } else if group == 1 {
            Some(ALUOperation::ROL)
        } else if group == 2 {
            Some(ALUOperation::LSR)
        } else if group == 3 {
            Some(ALUOperation::ROR)
        } else if group == 6 {
            Some(ALUOperation::DEC)
        } else if group == 7 {
            Some(ALUOperation::INC)
        } else {
            Some(ALUOperation::LOAD)
        }
    } else {
        if group == 0 {
            Some(ALUOperation::OR)
        } else if group == 1 {
            Some(ALUOperation::AND)
        } else if group == 2 {
            Some(ALUOperation::EOR)
        } else if group == 3 {
            Some(ALUOperation::ADC)
        } else if group == 6 {
            Some(ALUOperation::CMP)
        } else if group == 7 {
            Some(ALUOperation::SBC)
        } else {
            Some(ALUOperation::LOAD)
        }
    }
}

pub open spec fn alu_index(op: u8) -> u8 {
    ((op >> 1) & 0x78) | (op & 3)
}

pub open spec fn input_of(op: u8) -> TargetRegister {
    if op == 0xEB || op == 0xE0 || op == 0xE4 || op == 0xEC || op == 0x86 || op == 0x96
        || op == 0x8E || op == 0x8A || op == 0x9A || op == 0xCA {
        TargetRegister::X
    } else if op == 0xE8 || op == 0xC0 || op == 0xC4 || op == 0xCC || op == 0x84 || op == 0x94
        || op == 0x8C {
        TargetRegister::Y
    } else if op == 0xBA {
        TargetRegister::SP
    } else if op == 0x08 {
        TargetRegister::SR
    } else {
        TargetRegister::A
    }
}

pub open spec fn output_of(op: u8) -> TargetRegister {
    if op == 0xA2 || op == 0xA6 || op == 0xB6 || op == 0xAE || op == 0xBE || op == 0xAA
        || op == 0xBA || op == 0xCA {
        TargetRegister::X
    } else if op == 0xA0 || op == 0xA4 || op == 0xB4 || op == 0xAC || op == 0xBC {
        TargetRegister::Y
    } else if op == 0x9A {
        TargetRegister::SP
    } else if op == 0x28 {
        TargetRegister::SR
    } else {
        TargetRegister::A
    }
}

/// Whether a branch opcode's condition holds for the status byte `p`.
/// Opcode `0x10 | (f << 6) | (t << 5)` tests flag f (N, V, C, Z) against t.
pub open spec fn branch_taken(op: u8, p: u8) -> bool {
    let flag = if op >> 6 == 0 {
        p & 0x80 != 0
    } else if op >> 6 == 1 {
        p & 0x40 != 0
    } else if op >> 6 == 2 {
        p & 0x01 != 0
    } else {
        p & 0x02 != 0
    };
    flag == (op & 0x20 != 0)
}

/// The opcode of the instruction being executed.
#[derive(Clone, Copy)]
pub struct Instruction(pub u8);

impl Instruction {
    pub fn new(opcode: u8) -> (r: Self)
        ensures
            r.0 == opcode,
    {
        Instruction(opcode)
    }

    pub fn get_opcode(&self) -> (r: u8)
        ensures
            r == self.0,
    {
        self.0
    }

    /// Every opcode outside the store group (0x80..0x9F) reads its operand.
    pub fn is_read(&self) -> (r: bool)
        ensures
            r == (self.0 & 0xE0 != 0x80),
    {
        self.0 & 0xE0 != 0x80
    }

    /// Stores and read-modify-write opcodes write their operand.
    pub fn is_write(&self) -> (r: bool)
        ensures
            r == (self.0 & 3 == 3 || self.0 & 6 == 6 || self.0 & 0xE0 == 0x80),
    {
        self.0 & 3 == 3 || self.0 & 6 == 6 || self.0 & 0xE0 == 0x80
    }

    pub fn get_addressing_mode(&self) -> (r: AddressingMode)
        ensures
            r == addressing_mode_of(self.0),
    {
        let op = self.0;
        if op == 0x96 || op == 0x97 || op == 0xB6 || op == 0xB7 {
            AddressingMode::ZeroPageIndexed(IndexMode::Y)
        } else if op == 0x9E || op == 0x9F || op == 0xBE || op == 0xBF {
            AddressingMode::AbsoluteIndexed(IndexMode::Y)
        } else if op == 0x80 || op == 0xA0 || op == 0xC0 || op == 0xE0 {
            AddressingMode::Immediate
        } else if op == 0x20 {
            AddressingMode::Absolute
        } else {
            match op & 0x1F {
                0x00 | 0x08 | 0x0A | 0x18 | 0x1A => AddressingMode::Implied,
                0x01 | 0x03 => AddressingMode::Indirect(IndexMode::X),
                0x02 | 0x09 | 0x0B | 0x12 => AddressingMode::Immediate,
                0x04 | 0x05 | 0x06 | 0x07 => AddressingMode::ZeroPage,
                0x0C | 0x0D | 0x0E | 0x0F => AddressingMode::Absolute,
                0x10 => AddressingMode::Branch,
                0x11 | 0x13 => AddressingMode::Indirect(IndexMode::Y),
                0x14 | 0x15 | 0x16 | 0x17 => AddressingMode::ZeroPageIndexed(IndexMode::X),
                0x19 | 0x1B => AddressingMode::AbsoluteIndexed(IndexMode::Y),
                _ => AddressingMode::AbsoluteIndexed(IndexMode::X),
            }
        }
    }

    pub fn get_alu_operation(&self) -> (r: Option<ALUOperation>)
        ensures
            r == alu_table(alu_index(self.0)),
    {
        let index = ((self.0 >> 1) & 0x78) | (self.0 & 3);
        let group = index >> 4;
        let class = index & 3;
        if class == 0 {
            if group == 1 {
                Some(ALUOperation::BIT)
            } else if group == 4 || group == 5 {
                Some(ALUOperation::LOAD)
            } else if group == 6 || group == 7 {
                Some(ALUOperation::CMP)
            } else {
                None
            }
        } else if class == 2 {
            if group == 0 {
                Some(ALUOperation::ASL)
            } else if group == 1 {
                Some(ALUOperation::ROL)
            } else if group == 2 {
                Some(ALUOperation::LSR)
            } else if group == 3 {
                Some(ALUOperation::ROR)
            } else if group == 6 {
                Some(ALUOperation::DEC)
            } else if group == 7 {
                Some(ALUOperation::INC)
            } else {
                Some(ALUOperation::LOAD)
            }
        } else {
            if group == 0 {
                Some(ALUOperation::OR)
            } else if group == 1 {
                Some(ALUOperation::AND)
            } else if group == 2 {
                Some(ALUOperation::EOR)
            } else if group == 3 {
                Some(ALUOperation::ADC)
            } else if group == 6 {
                Some(ALUOperation::CMP)
            } else if group == 7 {
                Some(ALUOperation::SBC)
            } else {
                Some(ALUOperation::LOAD)
            }
        }
    }

    pub fn get_input(&self) -> (r: TargetRegister)
        ensures
            r == input_of(self.0),
    {
        let op = self.0;
        if op == 0xEB || op == 0xE0 || op == 0xE4 || op == 0xEC || op == 0x86 || op == 0x96
            || op == 0x8E || op == 0x8A || op == 0x9A || op == 0xCA {
            TargetRegister::X
        } else if op == 0xE8 || op == 0xC0 || op == 0xC4 || op == 0xCC || op == 0x84 || op
            == 0x94 || op == 0x8C {
            TargetRegister::Y
        } else if op == 0xBA {
            TargetRegister::SP
        } else if op == 0x08 {
            TargetRegister::SR
        } else {
            TargetRegister::A
        }
    }

    pub fn get_output(&self) -> (r: TargetRegister)
        ensures
            r == output_of(self.0),
    {
        let op = self.0;
        if op == 0xA2 || op == 0xA6 || op == 0xB6 || op == 0xAE || op == 0xBE || op == 0xAA
            || op == 0xBA || op == 0xCA {
            TargetRegister::X
        } else if op == 0xA0 || op == 0xA4 || op == 0xB4 || op == 0xAC || op == 0xBC {
            TargetRegister::Y
        } else if op == 0x9A {
            TargetRegister::SP
        } else if op == 0x28 {
            TargetRegister::SR
        } else {
            TargetRegister::A
        }
    }

    /// Whether this branch opcode's condition holds.
    pub fn branch(&self, status: &StatusRegister) -> (r: bool)
        ensures
            r == branch_taken(self.0, status.0),
    {
        let flag = if self.0 >> 6 == 0 {
            status.get_negative()
        } else if self.0 >> 6 == 1 {
            status.get_overflow()
        } else if self.0 >> 6 == 2 {
            status.get_carry()
        } else {
            status.get_zero()
        };
        flag == (self.0 & 0x20 != 0)
    }
}

} // verus!
