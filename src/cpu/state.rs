use vstd::prelude::*;
use crate::cpu::instruction::{IndexMode, TargetRegister};

verus! {

/// What started a break sequence.
#[derive(Clone, Copy, PartialEq, Eq, Structural, Debug)]
pub enum BreakSignal {
    /// The BRK instruction.
    BRK,
    NMI,
    IRQ,
    Reset,
}

/// The CPU's micro-state: which cycle of which instruction comes next.
#[derive(Clone, Copy, PartialEq, Eq, Structural, Debug)]
pub enum CPUState {
    FetchInstruction,
    FetchOperand,
    JumpAbsolute,
    JumpIndirect(u8),
    IndexedRead(IndexMode),
    FetchOperandHigh(Option<IndexMode>),
    Indirect(u8, IndexMode),
    DummyRead,
    Read,
    DummyWrite,
    Write,
    Break(u8, BreakSignal),
    JumpSubroutine(u8),
    ReturnInterrupt(u8),
    ReturnSubroutine(u8),
    PushRegister(TargetRegister),
    PullRegister(u8, TargetRegister),
}

/// The bus access a micro-state makes.
#[derive(Clone, Copy, PartialEq, Eq, Structural, Debug)]
pub enum CycleMode {
    /// Read at the program counter.
    Fetch,
    /// Read at the effective address.
    Read,
    /// Write the data latch at the effective address.
    Write,
    /// Write the data latch at the stack pointer, then decrement it.
    Push,
    /// Read at the stack pointer, then increment it.
    Pop,
    /// Read at the stack pointer.
    Peak,
}

pub open spec fn mode_of(state: CPUState) -> CycleMode {
    match state {
        CPUState::FetchInstruction | CPUState::FetchOperand | CPUState::FetchOperandHigh(_)
        | CPUState::JumpAbsolute => CycleMode::Fetch,
        CPUState::JumpIndirect(c) => if c == 0 { CycleMode::Fetch } else { CycleMode::Read },
        CPUState::ReturnSubroutine(c) => if c == 3 {
            CycleMode::Fetch
        } else if c == 2 {
            CycleMode::Peak
        } else {
            CycleMode::Pop
        },
        CPUState::JumpSubroutine(c) => if c == 3 {
            CycleMode::Fetch
        } else if c == 0 {
            CycleMode::Peak
        } else {
            CycleMode::Push
        },
        CPUState::IndexedRead(_) | CPUState::Indirect(_, _) | CPUState::DummyRead
        | CPUState::Read => CycleMode::Read,
        CPUState::Break(c, _) => if c >= 3 { CycleMode::Read } else { CycleMode::Push },
        CPUState::ReturnInterrupt(c) => if c == 3 { CycleMode::Peak } else { CycleMode::Pop },
        CPUState::PullRegister(c, _) => if c == 1 { CycleMode::Peak } else { CycleMode::Pop },
        CPUState::Write | CPUState::DummyWrite => CycleMode::Write,
        CPUState::PushRegister(_) => CycleMode::Push,
    }
}

impl CPUState {
    pub fn get_mode(&self) -> (r: CycleMode)
        ensures
            r == mode_of(*self),
    {
        match *self {
            CPUState::FetchInstruction | CPUState::FetchOperand | CPUState::FetchOperandHigh(_)
            | CPUState::JumpAbsolute => CycleMode::Fetch,
            CPUState::JumpIndirect(c) => if c == 0 { CycleMode::Fetch } else { CycleMode::Read },
            CPUState::ReturnSubroutine(c) => if c == 3 {
                CycleMode::Fetch
            } else if c == 2 {
                CycleMode::Peak
            } else {
                CycleMode::Pop
            },
            CPUState::JumpSubroutine(c) => if c == 3 {
                CycleMode::Fetch
            } else if c == 0 {
                CycleMode::Peak
            } else {
                CycleMode::Push
            },
            CPUState::IndexedRead(_) | CPUState::Indirect(_, _) | CPUState::DummyRead
            | CPUState::Read => CycleMode::Read,
            CPUState::Break(c, _) => if c >= 3 { CycleMode::Read } else { CycleMode::Push },
            CPUState::ReturnInterrupt(c) => if c == 3 { CycleMode::Peak } else { CycleMode::Pop },
            CPUState::PullRegister(c, _) => if c == 1 { CycleMode::Peak } else { CycleMode::Pop },
            CPUState::Write | CPUState::DummyWrite => CycleMode::Write,
            CPUState::PushRegister(_) => CycleMode::Push,
        }
    }
}

} // verus!
