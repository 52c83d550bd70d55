use vstd::prelude::*;
use crate::cpu::alu::{ALUOperation, ALU, alu_result, bit_flags, commit_flags};
use crate::cpu::status::{status_of, with_flag};
use crate::cpu::instruction::{AddressingMode, IndexMode, Instruction, TargetRegister, addressing_mode_of, alu_index, alu_table, branch_taken, input_of, output_of};
use crate::cpu::registers::{Registers, pc_of};
use crate::cpu::state::{BreakSignal, CPUState, CycleMode, mode_of};

verus! {

/// Addresses whose bytes the memory model tracks: work RAM (0x0000..0x1FFF,
/// mirrored every 0x800 bytes) and cartridge ROM (0x8000..0xFFFF).
pub open spec fn modelled(address: u16) -> bool {
    address < 0x2000 || address >= 0x8000
}

/// The CPU's view of the address space.
pub trait CPUMemory: Sized {
    /// What the memory keeps true between accesses.
    spec fn inv(&self) -> bool;

    /// The byte a read of a modelled address returns.
    spec fn byte_at(&self, address: u16) -> u8;

    /// A read. Reads of modelled addresses return their byte; no read changes
    /// a modelled byte.
    fn read(&mut self, address: u16) -> (r: u8)
        requires
            old(self).inv(),
        ensures
            final(self).inv(),
            modelled(address) ==> r == old(self).byte_at(address),
            forall|a: u16| modelled(a) ==> #[trigger] final(self).byte_at(a) == old(self).byte_at(a),
    ;

    /// A write. A write to RAM stores the byte (at all its mirrors); RAM
    /// elsewhere is kept, and ROM is kept by every write outside the PGU's
    /// register window.
    fn write(&mut self, address: u16, value: u8)
        requires
            old(self).inv(),
        ensures
            final(self).inv(),
            address < 0x2000 ==> forall|a: u16| a < 0x2000 && a % 0x800 == address % 0x800 ==> #[trigger] final(self).byte_at(a) == value,
            forall|a: u16| a < 0x2000 && !(address < 0x2000 && a % 0x800 == address % 0x800)
                ==> #[trigger] final(self).byte_at(a) == old(self).byte_at(a),
            !(0x2000 <= address < 0x4000) ==> forall|a: u16| a >= 0x8000 ==> #[trigger] final(self).byte_at(a) == old(self).byte_at(a),
    ;
}

/// The address a cycle in `cpu`'s micro-state reads: the program counter
/// for fetches, the effective address for reads, the stack slot for pops.
pub open spec fn read_address(cpu: CPU) -> u16 {
    match mode_of(cpu.state) {
        CycleMode::Fetch => cpu.registers.program_counter,
        CycleMode::Read => address_of(cpu.low, cpu.high),
        _ => stack_address(cpu.registers.stack_pointer),
    }
}

/// Whether a cycle in `state` reads the bus.
pub open spec fn reads(state: CPUState) -> bool {
    mode_of(state) != CycleMode::Write && mode_of(state) != CycleMode::Push
}

/// The ALU's result that the write-back at the start of a cycle hands over.
pub open spec fn alu_ready(alu: ALU) -> Option<u8> {
    match alu.output {
        Some(v) => if alu.operator == Some(ALUOperation::CMP) { None } else { Some(v) },
        None => if alu.operator == Some(ALUOperation::LOAD) { Some(alu.b) } else { None },
    }
}

/// N and Z set from a result byte.
pub open spec fn set_nz(p: u8, v: u8) -> u8 {
    with_flag(with_flag(p, 0x80, v & 0x80 != 0), 0x02, v == 0)
}

/// The status byte after the write-back at the start of a cycle: the ALU
/// commits its flags, and a result routed to a register (or parked for a
/// read-modify-write) sets N and Z; a result for P replaces it.
pub open spec fn status_after_write_back(cpu: CPU) -> u8 {
    let p = cpu.registers.status.0;
    let alu = cpu.alu;
    match alu.output {
        Some(v) => {
            let op = match alu.operator { Some(o) => o, None => ALUOperation::LOAD };
            let p1 = commit_flags(p, op, alu.a, alu.b, v, alu.carry);
            if op == ALUOperation::CMP {
                p1
            } else if cpu.output == Some(TargetRegister::SR) {
                status_of(v)
            } else if cpu.output == Some(TargetRegister::SP) {
                p1
            } else {
                set_nz(p1, v)
            }
        },
        None => match alu.operator {
            Some(ALUOperation::LOAD) => if cpu.output == Some(TargetRegister::SR) {
                status_of(alu.b)
            } else if cpu.output == Some(TargetRegister::SP) {
                p
            } else {
                set_nz(p, alu.b)
            },
            Some(ALUOperation::BIT) => bit_flags(p, alu.a, alu.b),
            _ => p,
        },
    }
}

/// The ALU after the write-back step: a settled result is handed over and
/// cleared; a pending operator settles (LOAD and BIT finish at once).
pub open spec fn alu_after_write_back(alu: ALU, p: u8) -> ALU {
    match alu.output {
        Some(_) => ALU { output: None, operator: None, ..alu },
        None => match alu.operator {
            None => alu,
            Some(ALUOperation::LOAD) => ALU { output: None, operator: None, ..alu },
            Some(ALUOperation::BIT) => ALU { output: None, operator: None, ..alu },
            Some(op) => {
                let res = alu_result(op, alu.a, alu.b, p & 0x01 != 0);
                ALU { output: Some(res.0), carry: res.1, ..alu }
            },
        },
    }
}

/// A data register after the write-back: the ALU's result when it is
/// routed there, else unchanged.
pub open spec fn written_back(cpu: CPU, target: TargetRegister, current: u8) -> u8 {
    match alu_ready(cpu.alu) {
        Some(v) => if cpu.output == Some(target) { v } else { current },
        None => current,
    }
}

/// What started the break sequence that `state` belongs to.
pub open spec fn signal_of(state: CPUState) -> BreakSignal {
    match state {
        CPUState::Break(_, s) => s,
        _ => BreakSignal::BRK,
    }
}

/// The low byte of the interrupt vector a break sequence reads.
pub open spec fn vector_low(signal: BreakSignal) -> u8 {
    match signal {
        BreakSignal::NMI => 0xFA,
        BreakSignal::Reset => 0xFC,
        _ => 0xFE,
    }
}

/// The stack slot that the stack pointer `sp` designates.
pub open spec fn stack_address(sp: u8) -> u16 {
    (0x100 + sp as int) as u16
}

/// The effective address made of the `low` and `high` latches.
pub open spec fn address_of(low: u8, high: u8) -> u16 {
    (low as int + 256 * high as int) as u16
}

pub open spec fn is_read_op(op: u8) -> bool {
    op & 0xE0 != 0x80
}

pub open spec fn is_write_op(op: u8) -> bool {
    op & 3 == 3 || op & 6 == 6 || op & 0xE0 == 0x80
}

/// The operand access of an instruction: a read unless it only stores.
pub open spec fn access_state(op: u8) -> CPUState {
    if is_read_op(op) { CPUState::Read } else { CPUState::Write }
}

/// What starts a break sequence at an operand fetch of opcode 0: a latched
/// NMI, an unmasked IRQ, or else the BRK instruction itself.
pub open spec fn break_signal(nmi: bool, irq: bool, p: u8) -> BreakSignal {
    if nmi {
        BreakSignal::NMI
    } else if irq && p & 0x04 == 0 {
        BreakSignal::IRQ
    } else {
        BreakSignal::BRK
    }
}

/// The state after the operand fetch of a one-byte instruction.
pub open spec fn implied_successor(op: u8, signal: BreakSignal) -> CPUState {
    if op == 0x00 {
        CPUState::Break(0, signal)
    } else if op == 0x40 {
        CPUState::ReturnInterrupt(0)
    } else if op == 0x60 {
        CPUState::ReturnSubroutine(0)
    } else if op == 0x08 || op == 0x48 {
        CPUState::PushRegister(input_of(op))
    } else if op == 0x28 || op == 0x68 {
        CPUState::PullRegister(0, output_of(op))
    } else {
        CPUState::FetchInstruction
    }
}

/// The micro-state that follows `state` (other than an opcode fetch) while
/// opcode `op` executes; `fix` is the pending page-fix latch.
pub open spec fn successor(state: CPUState, op: u8, fix: bool, signal: BreakSignal) -> CPUState {
    match state {
        CPUState::FetchInstruction => CPUState::FetchOperand,
        CPUState::FetchOperand => match addressing_mode_of(op) {
            AddressingMode::Implied => implied_successor(op, signal),
            AddressingMode::Immediate => CPUState::FetchInstruction,
            AddressingMode::Branch => CPUState::FetchInstruction,
            AddressingMode::ZeroPage => access_state(op),
            AddressingMode::ZeroPageIndexed(i) => CPUState::IndexedRead(i),
            AddressingMode::Absolute => if op == 0x4C {
                CPUState::JumpAbsolute
            } else if op == 0x6C {
                CPUState::JumpIndirect(0)
            } else if op == 0x20 {
                CPUState::JumpSubroutine(0)
            } else {
                CPUState::FetchOperandHigh(None)
            },
            AddressingMode::AbsoluteIndexed(i) => CPUState::FetchOperandHigh(Some(i)),
            AddressingMode::Indirect(i) => match i {
                IndexMode::X => CPUState::Indirect(0, IndexMode::X),
                IndexMode::Y => CPUState::Indirect(1, IndexMode::Y),
            },
        },
        CPUState::JumpAbsolute => CPUState::FetchInstruction,
        CPUState::JumpIndirect(c) => if c == 0 {
            CPUState::JumpIndirect(1)
        } else if c == 1 {
            CPUState::JumpIndirect(2)
        } else {
            CPUState::FetchInstruction
        },
        CPUState::IndexedRead(_) => access_state(op),
        CPUState::FetchOperandHigh(index) => match index {
            None => access_state(op),
            Some(_) => if is_write_op(op) { CPUState::DummyRead } else { CPUState::Read },
        },
        CPUState::Indirect(c, i) => if c == 0 {
            CPUState::Indirect(1, i)
        } else if c == 1 {
            CPUState::Indirect(2, i)
        } else if i == IndexMode::X {
            access_state(op)
        } else if is_write_op(op) {
            CPUState::DummyRead
        } else {
            CPUState::Read
        },
        CPUState::DummyRead => access_state(op),
        CPUState::Read => if fix {
            CPUState::Read
        } else if is_write_op(op) {
            CPUState::DummyWrite
        } else {
            CPUState::FetchInstruction
        },
        CPUState::DummyWrite => CPUState::Write,
        CPUState::Write => CPUState::FetchInstruction,
        CPUState::Break(c, s) => if c < 4 { CPUState::Break((c + 1) as u8, s) } else { CPUState::FetchInstruction },
        CPUState::JumpSubroutine(c) => if c < 3 { CPUState::JumpSubroutine((c + 1) as u8) } else { CPUState::FetchInstruction },
        CPUState::ReturnInterrupt(c) => if c < 3 { CPUState::ReturnInterrupt((c + 1) as u8) } else { CPUState::FetchInstruction },
        CPUState::ReturnSubroutine(c) => if c < 3 { CPUState::ReturnSubroutine((c + 1) as u8) } else { CPUState::FetchInstruction },
        CPUState::PushRegister(_) => CPUState::FetchInstruction,
        CPUState::PullRegister(c, t) => if c == 0 { CPUState::PullRegister(1, t) } else { CPUState::FetchInstruction },
    }
}

/// The page-fix latch after a cycle in `state`: an indexed address sets it
/// to whether the index addition carried (`cross`); the read that follows
/// (or its dummy) consumes it.
pub open spec fn fix_after(state: CPUState, fix: bool, cross: bool) -> bool {
    match state {
        CPUState::FetchOperandHigh(Some(_)) => cross,
        CPUState::Indirect(c, i) => if c >= 2 && i == IndexMode::Y { cross } else { fix },
        CPUState::DummyRead | CPUState::Read => false,
        _ => fix,
    }
}

/// CPU cycles from `state` until the next opcode fetch, following the
/// micro-state machine of `CPU::next` for opcode `op`, where an index
/// addition carries into the high byte exactly when `cross` holds.
pub open spec fn cycles_to_boundary(state: CPUState, op: u8, fix: bool, cross: bool, fuel: nat) -> int
    decreases fuel,
{
    if fuel == 0 || (state == CPUState::FetchInstruction && !fix) {
        0
    } else {
        1 + cycles_to_boundary(successor(state, op, fix, BreakSignal::BRK), op, fix_after(state, fix, cross), cross, (fuel - 1) as nat)
    }
}

/// The documented 6502 cycle count of a non-branch opcode, by addressing
/// mode and access: reads, stores, and read-modify-write instructions; a
/// page crossed by an indexed read costs one more.
pub open spec fn documented_cycles(op: u8, cross: bool) -> int {
    let rmw = is_read_op(op) && is_write_op(op);
    let store = !is_read_op(op);
    match addressing_mode_of(op) {
        AddressingMode::Implied => if op == 0x00 {
            7
        } else if op == 0x40 || op == 0x60 {
            6
        } else if op == 0x08 || op == 0x48 {
            3
        } else if op == 0x28 || op == 0x68 {
            4
        } else {
            2
        },
        AddressingMode::Immediate => 2,
        AddressingMode::Branch => 2,
        AddressingMode::ZeroPage => if rmw { 5 } else { 3 },
        AddressingMode::ZeroPageIndexed(_) => if rmw { 6 } else { 4 },
        AddressingMode::Absolute => if op == 0x4C {
            3
        } else if op == 0x6C {
            5
        } else if op == 0x20 {
            6
        } else if rmw {
            6
        } else {
            4
        },
        AddressingMode::AbsoluteIndexed(_) => if rmw { 7 } else if store { 5 } else if cross { 5 } else { 4 },
        AddressingMode::Indirect(i) => match i {
            IndexMode::X => if rmw { 8 } else { 6 },
            IndexMode::Y => if rmw { 8 } else if store { 6 } else if cross { 6 } else { 5 },
        },
    }
}

/// Every opcode other than a branch takes its documented number of cycles:
/// the opcode fetch, then the micro-states that `CPU::tick` steps through
/// (its `successor` and page-fix clauses, with `cross` the carry that tick
/// states for the index addition) until the next opcode fetch (7 for BRK, 2 to 8 for the others, one more
/// when an indexed read crosses a page).
#[verifier::rlimit(100)]
pub proof fn lemma_cycle_counts(op: u8, cross: bool)
    requires
        addressing_mode_of(op) != AddressingMode::Branch,
    ensures
        1 + cycles_to_boundary(CPUState::FetchOperand, op, false, cross, 10) == documented_cycles(op, cross),
{
    reveal_with_fuel(cycles_to_boundary, 11);
}

/// Whether a taken branch with offset `offset` from a program counter whose
/// low byte is `pcl` needs the extra cycle that corrects the high byte.
pub open spec fn branch_fix_needed(pcl: u8, offset: u8) -> bool {
    (pcl as int + offset as int >= 256) != (offset >= 0x80)
}

/// The target of a branch: the program counter plus the signed offset.
pub open spec fn branch_target(pc: u16, offset: u8) -> u16 {
    let signed = if offset >= 0x80 { offset as int - 256 } else { offset as int };
    ((pc as int + signed + 0x10000) % 0x10000) as u16
}

/// A branch needs its extra cycle exactly when the target lies on another page.
pub proof fn lemma_branch_page_cross(pc: u16, offset: u8)
    ensures
        branch_fix_needed((pc % 256) as u8, offset) <==> branch_target(pc, offset) / 256 != pc / 256,
{
}

/// The opcode-fetch cycles that follow a branch's operand fetch, as
/// `CPU::tick` takes them: a taken branch adds the offset to the low byte
/// of the program counter, and a carry that the offset's sign does not
/// cancel costs one more cycle to fix the high byte.
pub open spec fn branch_extra_cycles(taken: bool, pcl: u8, offset: u8) -> int {
    if !taken {
        0
    } else if branch_fix_needed(pcl, offset) {
        2
    } else {
        1
    }
}

/// A branch takes 2 cycles, one more when taken, and one more again when the
/// target lies on another page.
pub proof fn lemma_branch_cycles(pc: u16, offset: u8, taken: bool)
    ensures
        2 + branch_extra_cycles(taken, (pc % 256) as u8, offset) == if !taken {
            2int
        } else if branch_target(pc, offset) / 256 != pc / 256 {
            4int
        } else {
            3int
        },
{
    lemma_branch_page_cross(pc, offset);
}

/// A push writes at the stack slot of the old stack pointer and moves it
/// down (`CPU::tick`: the pushed byte lands at `stack_address` of the new
/// stack pointer plus one); the pull that follows moves it back up and its
/// peek reads that same slot (`read_address` of a pop or peek is
/// `stack_address` of the stack pointer), always inside page 1.
/// Over the console's 2 KiB of work RAM (mirrored every 0x800 bytes), the
/// pulled byte is the pushed one and the stack pointer is restored.
pub proof fn lemma_push_pull(ram: Seq<u8>, sp: u8, v: u8)
    requires
        ram.len() == 0x800,
    ensures
        sp.wrapping_sub(1).wrapping_add(1) == sp,
        stack_address(sp.wrapping_sub(1).wrapping_add(1)) == stack_address(sp),
        ram.update(stack_address(sp) as int % 0x800, v)[stack_address(sp.wrapping_sub(1).wrapping_add(1)) as int % 0x800] == v,
{
}

/// The stack pointer is a byte and the program counter sixteen bits, at
/// instruction boundaries as at every other cycle.
pub proof fn lemma_register_ranges(cpu: CPU)
    ensures
        0 <= cpu.registers.stack_pointer <= 255,
        0 <= cpu.registers.program_counter <= 0xFFFF,
        stack_address(cpu.registers.stack_pointer) / 256 == 1,
        0x0100 <= stack_address(cpu.registers.stack_pointer) <= 0x01FF,
{
}

/// A cycle-stepped 6502.
pub struct CPU {
    pub state: CPUState,
    pub registers: Registers,
    pub alu: ALU,
    pub low: u8,
    pub high: u8,
    pub value: u8,
    pub fix_pch: bool,
    pub branch: bool,
    pub output: Option<TargetRegister>,
    pub nmi: bool,
    pub irq: bool,
}

impl CPU {
    pub open spec fn wf(&self) -> bool {
        self.registers.status.wf()
    }

    /// Whether an interrupt is waiting for the next instruction boundary.
    pub open spec fn interrupt_pending(&self) -> bool {
        self.nmi || (self.irq && self.registers.status.0 & 0x04 == 0)
    }

    pub fn new() -> (r: Self)
        ensures
            r.wf(),
            r.state == CPUState::FetchInstruction,
            r.registers.stack_pointer == 0xFD,
            r.registers.status.0 == 0x34,
            r.registers.program_counter == 0,
            !r.nmi && !r.irq && !r.branch && !r.fix_pch,
    {
        CPU {
            state: CPUState::FetchInstruction,
            registers: Registers::new(),
            alu: ALU::new(),
            low: 0,
            high: 0,
            value: 0,
            fix_pch: false,
            branch: false,
            output: None,
            nmi: false,
            irq: false,
        }
    }

    pub fn get_registers(&self) -> (r: &Registers)
        ensures
            *r == self.registers,
    {
        &self.registers
    }

    /// Starts the reset sequence: a break with the reset vector whose stack
    /// writes are suppressed.
    pub fn reset(&mut self)
        ensures
            final(self).state == CPUState::Break(0, BreakSignal::Reset),
            final(self).registers == old(self).registers,
    {
        self.state = CPUState::Break(0, BreakSignal::Reset);
        self.branch = false;
        self.fix_pch = false;
        self.nmi = false;
    }

    /// Latches a non-maskable interrupt (edge): it is taken at the next
    /// instruction boundary.
    pub fn send_nmi(&mut self)
        ensures
            *final(self) == (CPU { nmi: true, ..*old(self) }),
    {
        self.nmi = true;
    }

    /// Sets the level of the interrupt-request line.
    pub fn set_irq(&mut self, level: bool)
        ensures
            *final(self) == (CPU { irq: level, ..*old(self) }),
    {
        self.irq = level;
    }

    /// Whether the CPU is about to fetch the opcode of a new instruction.
    pub fn at_instruction_boundary(&self) -> (r: bool)
        ensures
            r == (self.state == CPUState::FetchInstruction && !self.branch && !self.fix_pch),
    {
        self.state == CPUState::FetchInstruction && !self.branch && !self.fix_pch
    }

    /// Advances one machine cycle: at most one read and one write on the bus.
    #[verifier::rlimit(100)]
    pub fn tick<M: CPUMemory>(&mut self, memory: &mut M)
        requires
            old(memory).inv(),
            old(self).wf(),
        ensures
            final(memory).inv(),
            final(self).wf(),
            old(self).state == CPUState::FetchInstruction && !old(self).branch && !old(self).fix_pch
                && !old(self).nmi && !old(self).irq ==> {
                &&& final(self).state == CPUState::FetchOperand
                &&& final(self).registers.program_counter == old(self).registers.program_counter.wrapping_add(1)
            },
            old(self).state == CPUState::FetchInstruction && !old(self).branch && !old(self).fix_pch
                && old(self).nmi ==> {
                &&& final(self).state == CPUState::FetchOperand
                &&& final(self).registers.instruction.0 == 0
                &&& final(self).registers.program_counter == old(self).registers.program_counter
            },
            old(self).state == CPUState::FetchInstruction && old(self).branch ==> {
                &&& final(self).state == CPUState::FetchInstruction
                &&& !final(self).branch
                &&& final(self).fix_pch == branch_fix_needed((old(self).registers.program_counter % 256) as u8, old(self).low)
            },
            old(self).state == CPUState::FetchInstruction && !old(self).branch && old(self).fix_pch ==> {
                &&& final(self).state == CPUState::FetchInstruction
                &&& !final(self).fix_pch
                &&& !final(self).branch
            },
            old(self).state != CPUState::FetchInstruction && (old(self).state != CPUState::FetchOperand
                || old(self).registers.instruction.0 != 0) ==> final(self).state == successor(old(self).state,
                old(self).registers.instruction.0, old(self).fix_pch, BreakSignal::BRK),
            old(self).state != CPUState::FetchInstruction ==> final(self).registers.instruction == old(self).registers.instruction,
            final(self).registers.a == written_back(*old(self), TargetRegister::A, old(self).registers.a),
            final(self).registers.x == written_back(*old(self), TargetRegister::X, old(self).registers.x),
            final(self).registers.y == written_back(*old(self), TargetRegister::Y, old(self).registers.y),
            ({
                let b = old(memory).byte_at(read_address(*old(self)));
                let pc = old(self).registers.program_counter;
                let op = old(self).registers.instruction.0;
                &&& old(self).state == CPUState::FetchInstruction && !old(self).branch && !old(self).fix_pch && !old(self).nmi
                    && !old(self).irq && modelled(pc) ==> final(self).registers.instruction.0 == b
                &&& old(self).state == CPUState::JumpAbsolute && modelled(pc) ==> final(self).registers.program_counter == pc_of(old(self).low, b)
                &&& (old(self).state is JumpSubroutine && old(self).state->JumpSubroutine_0 == 3) && modelled(pc)
                    ==> final(self).registers.program_counter == pc_of(old(self).low, b)
                &&& (old(self).state is Break && old(self).state->Break_0 == 3) && modelled(address_of(old(self).low, old(self).high))
                    ==> final(self).registers.program_counter == pc_of(b, (pc / 256) as u8)
                &&& (old(self).state is Break && old(self).state->Break_0 >= 4) && modelled(address_of(old(self).low, old(self).high))
                    ==> final(self).registers.program_counter == pc_of((pc % 256) as u8, b)
                &&& (old(self).state is Break && old(self).state->Break_0 == 2) ==> final(self).low == vector_low(signal_of(old(self).state))
                    && final(self).high == 0xFF
                &&& (old(self).state is Break && old(self).state->Break_0 == 3) ==> final(self).low == old(self).low.wrapping_add(1)
                    && final(self).high == old(self).high
                &&& (old(self).state is ReturnSubroutine && old(self).state->ReturnSubroutine_0 == 1) ==> final(self).registers.program_counter == pc_of(b, (pc / 256) as u8)
                &&& (old(self).state is ReturnSubroutine && old(self).state->ReturnSubroutine_0 == 2) ==> final(self).registers.program_counter == pc_of((pc % 256) as u8, b)
                &&& (old(self).state is ReturnSubroutine && old(self).state->ReturnSubroutine_0 >= 3) ==> final(self).registers.program_counter == pc.wrapping_add(1)
                &&& (old(self).state is ReturnInterrupt && old(self).state->ReturnInterrupt_0 == 1) ==> final(self).registers.status.0 == crate::cpu::status::status_of(b)
                &&& (old(self).state is ReturnInterrupt && old(self).state->ReturnInterrupt_0 == 2) ==> final(self).registers.program_counter == pc_of(b, (pc / 256) as u8)
                &&& (old(self).state is ReturnInterrupt && old(self).state->ReturnInterrupt_0 >= 3) ==> final(self).registers.program_counter == pc_of((pc % 256) as u8, b)
                &&& mode_of(old(self).state) == CycleMode::Push && !(old(self).state is Break && old(self).state->Break_1 == BreakSignal::Reset)
                    ==> final(memory).byte_at(stack_address(final(self).registers.stack_pointer.wrapping_add(1))) == final(self).value
                &&& (old(self).state is Break && old(self).state->Break_0 == 0) ==> final(self).value == (pc / 256) as u8
                &&& (old(self).state is Break && old(self).state->Break_0 == 1) ==> final(self).value == (pc % 256) as u8
                &&& (old(self).state is JumpSubroutine && old(self).state->JumpSubroutine_0 == 1) ==> final(self).value == (pc / 256) as u8
                &&& (old(self).state is JumpSubroutine && old(self).state->JumpSubroutine_0 == 2) ==> final(self).value == (pc % 256) as u8
                &&& old(self).state == CPUState::PushRegister(TargetRegister::A) ==> final(self).value == final(self).registers.a
                &&& old(self).state == CPUState::Write && address_of(old(self).low, old(self).high) < 0x2000
                    ==> final(memory).byte_at(address_of(old(self).low, old(self).high)) == final(self).value
                &&& old(self).state == CPUState::Write && !is_read_op(op) && input_of(op) == TargetRegister::A ==> final(self).value == final(self).registers.a
                &&& old(self).state == CPUState::Write && !is_read_op(op) && input_of(op) == TargetRegister::X ==> final(self).value == final(self).registers.x
                &&& old(self).state == CPUState::Write && !is_read_op(op) && input_of(op) == TargetRegister::Y ==> final(self).value == final(self).registers.y
                &&& old(self).state == CPUState::FetchOperand && addressing_mode_of(op) == AddressingMode::Branch && modelled(pc) ==> {
                    &&& final(self).low == b
                    &&& final(self).branch == branch_taken(op, final(self).registers.status.0)
                    &&& final(self).registers.program_counter == pc.wrapping_add(1)
                }
                &&& old(self).state == CPUState::FetchOperandHigh(None) && modelled(pc) ==> final(self).high == b && final(self).low == old(self).low
                &&& old(self).state is FetchOperandHigh && old(self).state->FetchOperandHigh_0 is Some && modelled(pc) ==> {
                    let index = if old(self).state->FetchOperandHigh_0->Some_0 == IndexMode::X { final(self).registers.x } else { final(self).registers.y };
                    &&& final(self).high == b
                    &&& final(self).low == old(self).low.wrapping_add(index)
                    &&& final(self).fix_pch == (old(self).low as int + index as int >= 256)
                }
                &&& old(self).state is IndexedRead ==> final(self).high == old(self).high
                    && final(self).low == old(self).low.wrapping_add(if old(self).state->IndexedRead_0 == IndexMode::X { final(self).registers.x } else { final(self).registers.y })
                &&& (old(self).state == CPUState::DummyRead || old(self).state == CPUState::Read) && old(self).fix_pch
                    ==> final(self).high == old(self).high.wrapping_add(1) && final(self).low == old(self).low && !final(self).fix_pch
                &&& (old(self).state == CPUState::DummyRead || old(self).state == CPUState::Read) && !old(self).fix_pch
                    ==> final(self).high == old(self).high && final(self).low == old(self).low && !final(self).fix_pch
            }),
            old(self).state == CPUState::FetchOperand && addressing_mode_of(old(self).registers.instruction.0) == AddressingMode::Implied
                && old(self).registers.instruction.0 == 0x18 ==> final(self).registers.status.flag(0x01) == false,
            old(self).state == CPUState::FetchOperand && addressing_mode_of(old(self).registers.instruction.0) == AddressingMode::Implied
                && old(self).registers.instruction.0 == 0x38 ==> final(self).registers.status.flag(0x01) == true,
            old(self).state == CPUState::FetchOperand && addressing_mode_of(old(self).registers.instruction.0) == AddressingMode::Implied
                && old(self).registers.instruction.0 == 0x58 ==> final(self).registers.status.flag(0x04) == false,
            old(self).state == CPUState::FetchOperand && addressing_mode_of(old(self).registers.instruction.0) == AddressingMode::Implied
                && old(self).registers.instruction.0 == 0x78 ==> final(self).registers.status.flag(0x04) == true,
            old(self).state == CPUState::FetchOperand && addressing_mode_of(old(self).registers.instruction.0) == AddressingMode::Implied
                && old(self).registers.instruction.0 == 0xB8 ==> final(self).registers.status.flag(0x40) == false,
            old(self).state == CPUState::FetchOperand && addressing_mode_of(old(self).registers.instruction.0) == AddressingMode::Implied
                && old(self).registers.instruction.0 == 0xD8 ==> final(self).registers.status.flag(0x08) == false,
            old(self).state == CPUState::FetchOperand && addressing_mode_of(old(self).registers.instruction.0) == AddressingMode::Implied
                && old(self).registers.instruction.0 == 0xF8 ==> final(self).registers.status.flag(0x08) == true,
            mode_of(old(self).state) == CycleMode::Pop ==> final(self).registers.stack_pointer
                == written_back(*old(self), TargetRegister::SP, old(self).registers.stack_pointer.wrapping_add(1)),
            mode_of(old(self).state) == CycleMode::Push ==> final(self).registers.stack_pointer
                == written_back(*old(self), TargetRegister::SP, old(self).registers.stack_pointer).wrapping_sub(1),
            mode_of(old(self).state) != CycleMode::Pop && mode_of(old(self).state) != CycleMode::Push ==> final(self).registers.stack_pointer
                == written_back(*old(self), TargetRegister::SP, old(self).registers.stack_pointer),
            old(self).state != CPUState::FetchInstruction && !(old(self).state is FetchOperandHigh)
                && !(old(self).state is Indirect && old(self).state->Indirect_0 >= 2 && old(self).state->Indirect_1 == IndexMode::Y)
                ==> final(self).fix_pch == fix_after(old(self).state, old(self).fix_pch, false),
            old(self).state == CPUState::FetchOperandHigh(None) ==> final(self).fix_pch == old(self).fix_pch,
            ({
                let b = old(memory).byte_at(read_address(*old(self)));
                let op = old(self).registers.instruction.0;
                let input = input_of(op);
                (old(self).state == CPUState::Read && !old(self).fix_pch || (old(self).state == CPUState::FetchOperand
                    && addressing_mode_of(op) == AddressingMode::Immediate && is_read_op(op) && (op & 0x0F != 0x02 || op == 0xA2)))
                    && alu_table(alu_index(op)) is Some && modelled(read_address(*old(self)))
                    && (input == TargetRegister::A || input == TargetRegister::X || input == TargetRegister::Y) ==> {
                    &&& final(self).alu.b == b
                    &&& final(self).alu.operator == alu_table(alu_index(op))
                    &&& final(self).alu.a == final(self).get_register_spec(input)
                }
            }),
            !(old(self).state == CPUState::FetchOperand && addressing_mode_of(old(self).registers.instruction.0) == AddressingMode::Implied && (old(self).registers.instruction.0 == 0x18 || old(self).registers.instruction.0 == 0x38 || old(self).registers.instruction.0 == 0x58 || old(self).registers.instruction.0 == 0x78 || old(self).registers.instruction.0 == 0xB8 || old(self).registers.instruction.0 == 0xD8 || old(self).registers.instruction.0 == 0xF8))
                && !(old(self).state is Break) && !(old(self).state is ReturnInterrupt) && !(old(self).state is PullRegister)
                ==> final(self).registers.status.0 == status_after_write_back(*old(self)),
            old(self).state != CPUState::FetchOperand && old(self).state != CPUState::Read && !(old(self).state is PullRegister)
                ==> final(self).alu == alu_after_write_back(old(self).alu, old(self).registers.status.0),
            old(self).state != CPUState::FetchInstruction ==> final(self).state == successor(old(self).state, old(self).registers.instruction.0,
                old(self).fix_pch, break_signal(old(self).nmi, old(self).irq, status_after_write_back(*old(self)))),
            old(self).state == CPUState::FetchOperand && addressing_mode_of(old(self).registers.instruction.0) != AddressingMode::Implied
                ==> final(self).registers.program_counter == old(self).registers.program_counter.wrapping_add(1),
            old(self).state == CPUState::FetchOperand && addressing_mode_of(old(self).registers.instruction.0) == AddressingMode::Implied && old(self).registers.instruction.0 == 0x00
                && break_signal(old(self).nmi, old(self).irq, status_after_write_back(*old(self))) == BreakSignal::BRK ==> final(self).registers.program_counter == old(self).registers.program_counter.wrapping_add(1),
            old(self).state == CPUState::FetchOperand && addressing_mode_of(old(self).registers.instruction.0) == AddressingMode::Implied
                && !(old(self).registers.instruction.0 == 0x00 && break_signal(old(self).nmi, old(self).irq, status_after_write_back(*old(self))) == BreakSignal::BRK) ==> final(self).registers.program_counter == old(self).registers.program_counter,
            old(self).state == CPUState::FetchOperand && addressing_mode_of(old(self).registers.instruction.0) == AddressingMode::Implied && (old(self).registers.instruction.0 == 0x00 || old(self).registers.instruction.0 == 0x40 || old(self).registers.instruction.0 == 0x60 || old(self).registers.instruction.0 == 0x08 || old(self).registers.instruction.0 == 0x48 || old(self).registers.instruction.0 == 0x28 || old(self).registers.instruction.0 == 0x68 || old(self).registers.instruction.0 == 0xEA || old(self).registers.instruction.0 == 0x18 || old(self).registers.instruction.0 == 0x38 || old(self).registers.instruction.0 == 0x58 || old(self).registers.instruction.0 == 0x78 || old(self).registers.instruction.0 == 0xB8 || old(self).registers.instruction.0 == 0xD8 || old(self).registers.instruction.0 == 0xF8) ==> {
                &&& final(self).alu == alu_after_write_back(old(self).alu, old(self).registers.status.0)
                &&& final(self).output == if alu_ready(old(self).alu) is Some { None } else { old(self).output }
            },
            old(self).state is FetchOperandHigh ==> final(self).registers.program_counter == old(self).registers.program_counter.wrapping_add(1),
            (old(self).state is Indirect || old(self).state is IndexedRead || old(self).state == CPUState::DummyRead
                || old(self).state == CPUState::DummyWrite || old(self).state == CPUState::Write || old(self).state == CPUState::Read)
                ==> final(self).registers.program_counter == old(self).registers.program_counter,
            (old(self).state is Indirect && old(self).state->Indirect_0 == 0) ==> final(self).low == old(self).low.wrapping_add(final(self).registers.x)
                && final(self).high == old(self).high,
            (old(self).state is Indirect && old(self).state->Indirect_0 >= 2 && old(self).state->Indirect_1 == IndexMode::Y) ==> {
                &&& final(self).low == final(self).value.wrapping_add(final(self).registers.y)
                &&& final(self).fix_pch == (final(self).value as int + final(self).registers.y as int >= 256)
            },
            (old(self).state is Indirect && old(self).state->Indirect_0 >= 2 && old(self).state->Indirect_1 == IndexMode::X)
                ==> final(self).low == final(self).value,
            ({
                let b = old(memory).byte_at(read_address(*old(self)));
                &&& old(self).state == CPUState::FetchOperand && modelled(old(self).registers.program_counter)
                    && (addressing_mode_of(old(self).registers.instruction.0) is ZeroPage || addressing_mode_of(old(self).registers.instruction.0) is ZeroPageIndexed || addressing_mode_of(old(self).registers.instruction.0) is Absolute
                    || addressing_mode_of(old(self).registers.instruction.0) is AbsoluteIndexed || addressing_mode_of(old(self).registers.instruction.0) is Indirect)
                    ==> final(self).low == b && final(self).high == 0
                &&& old(self).state == CPUState::JumpIndirect(0) && modelled(old(self).registers.program_counter)
                    ==> final(self).high == b && final(self).low == old(self).low
                &&& old(self).state == CPUState::JumpIndirect(1) && modelled(address_of(old(self).low, old(self).high))
                    ==> final(self).value == b && final(self).low == old(self).low.wrapping_add(1) && final(self).high == old(self).high
                &&& (old(self).state is Indirect && old(self).state->Indirect_0 == 1) && modelled(address_of(old(self).low, old(self).high))
                    ==> final(self).value == b && final(self).low == old(self).low.wrapping_add(1) && final(self).high == old(self).high
                &&& (old(self).state is Indirect && old(self).state->Indirect_0 >= 2) && modelled(address_of(old(self).low, old(self).high))
                    ==> final(self).high == b
            }),
    {
        let ghost before = *self;
        proof {
            crate::cpu::status::lemma_flag_bits(self.registers.status.0);
        }
        let buffer = self.read(memory);
        let ghost after_read = *self;
        self.write_back();
        let ghost after_write_back = *self;
        let state = self.next(buffer);
        let ghost after_next = *self;
        self.write(memory);
        proof {
            crate::cpu::status::lemma_flag_bits(after_write_back.registers.status.0);
            assert(after_next.registers.stack_pointer.wrapping_sub(1).wrapping_add(1) == after_next.registers.stack_pointer);
            if reads(before.state) && modelled(read_address(before)) {
                assert(buffer == old(memory).byte_at(read_address(before)));
            }

        }
        self.state = state;
    }

    /// Takes the ALU's result, if one is ready, to its destination.
    fn write_back(&mut self)
        requires
            old(self).wf(),
        ensures
            final(self).wf(),
            final(self).state == old(self).state,
            final(self).branch == old(self).branch,
            final(self).fix_pch == old(self).fix_pch,
            final(self).value == old(self).value || old(self).output.is_none(),
            final(self).registers.program_counter == old(self).registers.program_counter,
            final(self).registers.instruction == old(self).registers.instruction,
            final(self).nmi == old(self).nmi && final(self).irq == old(self).irq,
            final(self).low == old(self).low && final(self).high == old(self).high,
            final(self).registers.a == written_back(*old(self), TargetRegister::A, old(self).registers.a),
            final(self).registers.x == written_back(*old(self), TargetRegister::X, old(self).registers.x),
            final(self).registers.y == written_back(*old(self), TargetRegister::Y, old(self).registers.y),
            final(self).registers.stack_pointer == written_back(*old(self), TargetRegister::SP, old(self).registers.stack_pointer),
            final(self).registers.status.0 == status_after_write_back(*old(self)),
            final(self).alu == alu_after_write_back(old(self).alu, old(self).registers.status.0),
            final(self).output == if alu_ready(old(self).alu) is Some { None } else { old(self).output },
    {
        let result = self.alu.get_output(&mut self.registers.status);
        match result {
            Some(value) => {
                let target = self.output;
                self.output = None;
                match target {
                    Some(TargetRegister::SR) => self.registers.status.set(value),
                    Some(TargetRegister::SP) => self.registers.stack_pointer = value,
                    Some(register) => {
                        self.registers.status.set_negative(value & 0x80 != 0);
                        self.registers.status.set_zero(value == 0);
                        self.set_register_value(register, value);
                    },
                    None => {
                        self.registers.status.set_negative(value & 0x80 != 0);
                        self.registers.status.set_zero(value == 0);
                        self.value = value;
                    },
                }
            },
            None => {},
        }
    }

    fn read<M: CPUMemory>(&mut self, memory: &mut M) -> (r: u8)
        requires
            old(memory).inv(),
        ensures
            final(memory).inv(),
            reads(old(self).state) && modelled(read_address(*old(self))) ==> r == old(memory).byte_at(read_address(*old(self))),
            forall|a: u16| modelled(a) ==> #[trigger] final(memory).byte_at(a) == old(memory).byte_at(a),
            final(self).registers.a == old(self).registers.a && final(self).registers.x == old(self).registers.x,
            final(self).registers.y == old(self).registers.y,
            final(self).state == old(self).state,
            final(self).registers.program_counter == old(self).registers.program_counter,
            final(self).registers.status == old(self).registers.status,
            final(self).registers.instruction == old(self).registers.instruction,
            final(self).alu == old(self).alu,
            final(self).output == old(self).output,
            final(self).value == old(self).value,
            final(self).branch == old(self).branch,
            final(self).fix_pch == old(self).fix_pch,
            final(self).nmi == old(self).nmi && final(self).irq == old(self).irq,
            final(self).low == old(self).low && final(self).high == old(self).high,
            mode_of(old(self).state) == CycleMode::Pop ==> final(self).registers.stack_pointer == old(self).registers.stack_pointer.wrapping_add(1),
            mode_of(old(self).state) != CycleMode::Pop ==> final(self).registers.stack_pointer == old(self).registers.stack_pointer,
    {
        match self.state.get_mode() {
            CycleMode::Fetch => memory.read(self.registers.program_counter),
            CycleMode::Read => memory.read(self.get_address()),
            CycleMode::Pop => self.pop_stack(memory),
            CycleMode::Peak => self.peak_stack(memory),
            _ => 0,
        }
    }

    fn write<M: CPUMemory>(&mut self, memory: &mut M)
        requires
            old(memory).inv(),
        ensures
            final(memory).inv(),
            mode_of(old(self).state) == CycleMode::Write && address_of(old(self).low, old(self).high) < 0x2000
                ==> final(memory).byte_at(address_of(old(self).low, old(self).high)) == old(self).value,
            mode_of(old(self).state) == CycleMode::Push && !(old(self).state matches CPUState::Break(_, BreakSignal::Reset))
                ==> final(memory).byte_at(stack_address(old(self).registers.stack_pointer)) == old(self).value,
            mode_of(old(self).state) == CycleMode::Push ==> final(self).registers.stack_pointer == old(self).registers.stack_pointer.wrapping_sub(1),
            mode_of(old(self).state) != CycleMode::Push ==> final(self).registers.stack_pointer == old(self).registers.stack_pointer,
            mode_of(old(self).state) != CycleMode::Write && mode_of(old(self).state) != CycleMode::Push ==> *final(memory) == *old(memory),
            mode_of(old(self).state) != CycleMode::Write ==> forall|a: u16| a >= 0x8000 ==> #[trigger] final(memory).byte_at(a) == old(memory).byte_at(a),
            final(self).low == old(self).low && final(self).high == old(self).high,
            final(self).registers.a == old(self).registers.a && final(self).registers.x == old(self).registers.x,
            final(self).registers.y == old(self).registers.y,
            final(self).state == old(self).state,
            final(self).registers.program_counter == old(self).registers.program_counter,
            final(self).registers.status == old(self).registers.status,
            final(self).registers.instruction == old(self).registers.instruction,
            final(self).branch == old(self).branch,
            final(self).fix_pch == old(self).fix_pch,
            final(self).value == old(self).value,
            final(self).alu == old(self).alu && final(self).output == old(self).output,
    {
        match self.state.get_mode() {
            CycleMode::Write => memory.write(self.get_address(), self.value),
            CycleMode::Push => {
                match self.state {
                    CPUState::Break(_, BreakSignal::Reset) => {
                        self.registers.stack_pointer = self.registers.stack_pointer.wrapping_sub(1);
                    },
                    _ => self.push_to_stack(memory, self.value),
                }
            },
            _ => {},
        }
    }

    /// Chooses the next micro-state from the current one and the byte read
    /// in this cycle, updating registers and latches.
    #[verifier::rlimit(100)]
    fn next(&mut self, buffer: u8) -> (r: CPUState)
        requires
            old(self).wf(),
        ensures
            final(self).wf(),
            old(self).state == CPUState::FetchInstruction && !old(self).branch && !old(self).fix_pch
                && !old(self).interrupt_pending() ==> {
                &&& r == CPUState::FetchOperand
                &&& final(self).registers.instruction.0 == buffer
                &&& final(self).registers.program_counter == old(self).registers.program_counter.wrapping_add(1)
            },
            old(self).state == CPUState::FetchInstruction && !old(self).branch && !old(self).fix_pch
                && old(self).interrupt_pending() ==> {
                &&& r == CPUState::FetchOperand
                &&& final(self).registers.instruction.0 == 0
                &&& final(self).registers.program_counter == old(self).registers.program_counter
            },
            old(self).state == CPUState::FetchInstruction && old(self).branch ==> {
                &&& r == CPUState::FetchInstruction
                &&& !final(self).branch
                &&& final(self).fix_pch == branch_fix_needed((old(self).registers.program_counter % 256) as u8, old(self).low)
                &&& final(self).registers.program_counter == pc_of(
                    old(self).registers.get_pcl_spec().wrapping_add(old(self).low),
                    (old(self).registers.program_counter / 256) as u8)
            },
            old(self).state == CPUState::FetchInstruction && !old(self).branch && old(self).fix_pch ==> {
                &&& r == CPUState::FetchInstruction
                &&& !final(self).fix_pch
                &&& !final(self).branch
            },
            old(self).state != CPUState::FetchInstruction ==> r == successor(old(self).state, old(self).registers.instruction.0,
                old(self).fix_pch, break_signal(old(self).nmi, old(self).irq, old(self).registers.status.0)),
            old(self).state != CPUState::FetchInstruction ==> final(self).fix_pch == fix_after(old(self).state, old(self).fix_pch,
                match old(self).state {
                    CPUState::FetchOperandHigh(Some(i)) => old(self).low as int + old(self).get_register_spec(
                        if i == IndexMode::X { TargetRegister::X } else { TargetRegister::Y }) as int >= 256,
                    _ => old(self).value as int + old(self).registers.y as int >= 256,
                }),
            old(self).state != CPUState::FetchInstruction && old(self).state != CPUState::FetchOperand ==> final(self).branch == old(self).branch,
            old(self).state != CPUState::FetchInstruction ==> final(self).registers.instruction == old(self).registers.instruction,
            old(self).state == CPUState::FetchOperand && addressing_mode_of(old(self).registers.instruction.0) == AddressingMode::Branch ==> {
                &&& r == CPUState::FetchInstruction
                &&& final(self).low == buffer
                &&& final(self).branch == branch_taken(old(self).registers.instruction.0, old(self).registers.status.0)
                &&& final(self).registers.status == old(self).registers.status
                &&& final(self).registers.program_counter == old(self).registers.program_counter.wrapping_add(1)
            },
            final(self).registers.a == old(self).registers.a && final(self).registers.x == old(self).registers.x,
            final(self).registers.y == old(self).registers.y,
            old(self).state matches CPUState::Break(c, _) && c == 0 ==> final(self).value == (old(self).registers.program_counter / 256) as u8,
            old(self).state matches CPUState::Break(c, _) && c == 1 ==> final(self).value == (old(self).registers.program_counter % 256) as u8,
            old(self).state matches CPUState::Break(c, _) && c == 2 ==> {
                &&& final(self).low == vector_low(signal_of(old(self).state)) && final(self).high == 0xFF
                &&& final(self).value == if signal_of(old(self).state) == BreakSignal::BRK { old(self).registers.status.0 } else { old(self).registers.status.0 & 0xEF }
            },
            old(self).state matches CPUState::Break(c, _) && c == 3 ==> {
                &&& final(self).registers.program_counter == pc_of(buffer, (old(self).registers.program_counter / 256) as u8)
                &&& final(self).low == old(self).low.wrapping_add(1) && final(self).high == old(self).high
            },
            old(self).state matches CPUState::Break(c, _) && c >= 4 ==> {
                &&& final(self).registers.program_counter == pc_of((old(self).registers.program_counter % 256) as u8, buffer)
                &&& final(self).registers.status.0 == crate::cpu::status::with_flag(old(self).registers.status.0, 0x04, true)
            },
            old(self).state matches CPUState::JumpSubroutine(c) && c == 1 ==> final(self).value == (old(self).registers.program_counter / 256) as u8,
            old(self).state matches CPUState::JumpSubroutine(c) && c == 2 ==> final(self).value == (old(self).registers.program_counter % 256) as u8,
            old(self).state matches CPUState::JumpSubroutine(c) && c >= 3 ==> final(self).registers.program_counter == pc_of(old(self).low, buffer),
            old(self).state matches CPUState::ReturnSubroutine(c) && c == 1 ==> final(self).registers.program_counter == pc_of(buffer, (old(self).registers.program_counter / 256) as u8),
            old(self).state matches CPUState::ReturnSubroutine(c) && c == 2 ==> final(self).registers.program_counter == pc_of((old(self).registers.program_counter % 256) as u8, buffer),
            old(self).state matches CPUState::ReturnSubroutine(c) && c >= 3 ==> final(self).registers.program_counter == old(self).registers.program_counter.wrapping_add(1),
            old(self).state matches CPUState::ReturnInterrupt(c) && c == 1 ==> final(self).registers.status.0 == crate::cpu::status::status_of(buffer),
            old(self).state matches CPUState::ReturnInterrupt(c) && c == 2 ==> final(self).registers.program_counter == pc_of(buffer, (old(self).registers.program_counter / 256) as u8),
            old(self).state matches CPUState::ReturnInterrupt(c) && c >= 3 ==> final(self).registers.program_counter == pc_of((old(self).registers.program_counter % 256) as u8, buffer),
            old(self).state matches CPUState::PushRegister(t) ==> final(self).value == old(self).get_register_spec(t),
            old(self).state == CPUState::JumpAbsolute ==> final(self).registers.program_counter == pc_of(old(self).low, buffer),
            old(self).state == CPUState::FetchOperandHigh(None) ==> final(self).high == buffer && final(self).low == old(self).low,
            old(self).state matches CPUState::FetchOperandHigh(Some(i)) ==> final(self).high == buffer
                && final(self).low == old(self).low.wrapping_add(if i == IndexMode::X { old(self).registers.x } else { old(self).registers.y }),
            old(self).state matches CPUState::IndexedRead(i) ==> final(self).high == old(self).high
                && final(self).low == old(self).low.wrapping_add(if i == IndexMode::X { old(self).registers.x } else { old(self).registers.y }),
            (old(self).state == CPUState::DummyRead || old(self).state == CPUState::Read) && old(self).fix_pch
                ==> final(self).high == old(self).high.wrapping_add(1) && final(self).low == old(self).low,
            (old(self).state == CPUState::DummyRead || old(self).state == CPUState::Read) && !old(self).fix_pch
                ==> final(self).high == old(self).high && final(self).low == old(self).low,
            old(self).state == CPUState::Write ==> final(self).low == old(self).low && final(self).high == old(self).high
                && final(self).value == if is_read_op(old(self).registers.instruction.0) {
                    old(self).value
                } else {
                    old(self).get_register_spec(input_of(old(self).registers.instruction.0))
                },
            final(self).state == old(self).state,
            old(self).state == CPUState::FetchOperand && addressing_mode_of(old(self).registers.instruction.0) == AddressingMode::Implied
                && old(self).registers.instruction.0 == 0x18 ==> final(self).registers.status.0 == crate::cpu::status::with_flag(old(self).registers.status.0, 0x01, false),
            old(self).state == CPUState::FetchOperand && addressing_mode_of(old(self).registers.instruction.0) == AddressingMode::Implied
                && old(self).registers.instruction.0 == 0x38 ==> final(self).registers.status.0 == crate::cpu::status::with_flag(old(self).registers.status.0, 0x01, true),
            old(self).state == CPUState::FetchOperand && addressing_mode_of(old(self).registers.instruction.0) == AddressingMode::Implied
                && old(self).registers.instruction.0 == 0x58 ==> final(self).registers.status.0 == crate::cpu::status::with_flag(old(self).registers.status.0, 0x04, false),
            old(self).state == CPUState::FetchOperand && addressing_mode_of(old(self).registers.instruction.0) == AddressingMode::Implied
                && old(self).registers.instruction.0 == 0x78 ==> final(self).registers.status.0 == crate::cpu::status::with_flag(old(self).registers.status.0, 0x04, true),
            old(self).state == CPUState::FetchOperand && addressing_mode_of(old(self).registers.instruction.0) == AddressingMode::Implied
                && old(self).registers.instruction.0 == 0xB8 ==> final(self).registers.status.0 == crate::cpu::status::with_flag(old(self).registers.status.0, 0x40, false),
            old(self).state == CPUState::FetchOperand && addressing_mode_of(old(self).registers.instruction.0) == AddressingMode::Implied
                && old(self).registers.instruction.0 == 0xD8 ==> final(self).registers.status.0 == crate::cpu::status::with_flag(old(self).registers.status.0, 0x08, false),
            old(self).state == CPUState::FetchOperand && addressing_mode_of(old(self).registers.instruction.0) == AddressingMode::Implied
                && old(self).registers.instruction.0 == 0xF8 ==> final(self).registers.status.0 == crate::cpu::status::with_flag(old(self).registers.status.0, 0x08, true),
            final(self).registers.stack_pointer == old(self).registers.stack_pointer,
            old(self).state == CPUState::FetchOperand && addressing_mode_of(old(self).registers.instruction.0) == AddressingMode::Immediate
                && is_read_op(old(self).registers.instruction.0)
                && (old(self).registers.instruction.0 & 0x0F != 0x02 || old(self).registers.instruction.0 == 0xA2)
                && alu_table(alu_index(old(self).registers.instruction.0)) is Some ==> {
                &&& final(self).alu.b == buffer
                &&& final(self).alu.operator == alu_table(alu_index(old(self).registers.instruction.0))
                &&& final(self).alu.a == old(self).get_register_spec(input_of(old(self).registers.instruction.0))
                &&& final(self).output == Some(output_of(old(self).registers.instruction.0))
            },
            old(self).state == CPUState::Read && !old(self).fix_pch && alu_table(alu_index(old(self).registers.instruction.0)) is Some ==> {
                &&& final(self).alu.b == buffer
                &&& final(self).alu.operator == alu_table(alu_index(old(self).registers.instruction.0))
                &&& final(self).alu.a == old(self).get_register_spec(input_of(old(self).registers.instruction.0))
                &&& final(self).output == if is_write_op(old(self).registers.instruction.0) { None } else { Some(output_of(old(self).registers.instruction.0)) }
            },
            !(old(self).state == CPUState::FetchOperand && addressing_mode_of(old(self).registers.instruction.0) == AddressingMode::Implied && (old(self).registers.instruction.0 == 0x18 || old(self).registers.instruction.0 == 0x38 || old(self).registers.instruction.0 == 0x58 || old(self).registers.instruction.0 == 0x78 || old(self).registers.instruction.0 == 0xB8 || old(self).registers.instruction.0 == 0xD8 || old(self).registers.instruction.0 == 0xF8))
                && !(old(self).state is Break) && !(old(self).state is ReturnInterrupt) && !(old(self).state is PullRegister)
                ==> final(self).registers.status == old(self).registers.status,
            old(self).state != CPUState::FetchOperand && old(self).state != CPUState::Read && !(old(self).state is PullRegister)
                ==> final(self).alu == old(self).alu && final(self).output == old(self).output,
            old(self).state == CPUState::FetchOperand && addressing_mode_of(old(self).registers.instruction.0) != AddressingMode::Implied ==> final(self).registers.program_counter == old(self).registers.program_counter.wrapping_add(1),
            old(self).state == CPUState::FetchOperand && addressing_mode_of(old(self).registers.instruction.0) == AddressingMode::Implied && old(self).registers.instruction.0 == 0x00
                && break_signal(old(self).nmi, old(self).irq, old(self).registers.status.0) == BreakSignal::BRK
                ==> final(self).registers.program_counter == old(self).registers.program_counter.wrapping_add(1),
            old(self).state == CPUState::FetchOperand && addressing_mode_of(old(self).registers.instruction.0) == AddressingMode::Implied && !(old(self).registers.instruction.0 == 0x00
                && break_signal(old(self).nmi, old(self).irq, old(self).registers.status.0) == BreakSignal::BRK)
                ==> final(self).registers.program_counter == old(self).registers.program_counter,
            old(self).state == CPUState::FetchOperand && addressing_mode_of(old(self).registers.instruction.0) == AddressingMode::Implied && (old(self).registers.instruction.0 == 0x00 || old(self).registers.instruction.0 == 0x40 || old(self).registers.instruction.0 == 0x60 || old(self).registers.instruction.0 == 0x08 || old(self).registers.instruction.0 == 0x48 || old(self).registers.instruction.0 == 0x28 || old(self).registers.instruction.0 == 0x68 || old(self).registers.instruction.0 == 0xEA || old(self).registers.instruction.0 == 0x18 || old(self).registers.instruction.0 == 0x38 || old(self).registers.instruction.0 == 0x58 || old(self).registers.instruction.0 == 0x78 || old(self).registers.instruction.0 == 0xB8 || old(self).registers.instruction.0 == 0xD8 || old(self).registers.instruction.0 == 0xF8) ==> final(self).alu == old(self).alu && final(self).output == old(self).output,
            old(self).state == CPUState::FetchOperand && (addressing_mode_of(old(self).registers.instruction.0) is ZeroPage || old(self).state == CPUState::FetchOperand && addressing_mode_of(old(self).registers.instruction.0) is ZeroPageIndexed || old(self).state == CPUState::FetchOperand && addressing_mode_of(old(self).registers.instruction.0) is Absolute
                || old(self).state == CPUState::FetchOperand && addressing_mode_of(old(self).registers.instruction.0) is AbsoluteIndexed || old(self).state == CPUState::FetchOperand && addressing_mode_of(old(self).registers.instruction.0) is Indirect)
                ==> final(self).low == buffer && final(self).high == 0,
            old(self).state == CPUState::FetchOperandHigh(None) ==> final(self).registers.program_counter == old(self).registers.program_counter.wrapping_add(1),
            old(self).state is FetchOperandHigh ==> final(self).registers.program_counter == old(self).registers.program_counter.wrapping_add(1),
            old(self).state == CPUState::JumpIndirect(0) ==> final(self).high == buffer && final(self).low == old(self).low,
            old(self).state == CPUState::JumpIndirect(1) ==> final(self).value == buffer && final(self).low == old(self).low.wrapping_add(1)
                && final(self).high == old(self).high,
            (old(self).state is JumpIndirect && old(self).state->JumpIndirect_0 >= 2)
                ==> final(self).registers.program_counter == pc_of(old(self).value, buffer),
            (old(self).state is Indirect && old(self).state->Indirect_0 == 0) ==> final(self).low == old(self).low.wrapping_add(old(self).registers.x)
                && final(self).high == old(self).high,
            (old(self).state is Indirect && old(self).state->Indirect_0 == 1) ==> final(self).value == buffer
                && final(self).low == old(self).low.wrapping_add(1) && final(self).high == old(self).high,
            (old(self).state is Indirect && old(self).state->Indirect_0 >= 2 && old(self).state->Indirect_1 == IndexMode::X)
                ==> final(self).high == buffer && final(self).low == old(self).value,
            (old(self).state is Indirect && old(self).state->Indirect_0 >= 2 && old(self).state->Indirect_1 == IndexMode::Y)
                ==> final(self).high == buffer && final(self).low == old(self).value.wrapping_add(old(self).registers.y),
            (old(self).state is Indirect || old(self).state is IndexedRead || old(self).state == CPUState::DummyRead
                || old(self).state == CPUState::DummyWrite || old(self).state == CPUState::Write || old(self).state == CPUState::Read)
                ==> final(self).registers.program_counter == old(self).registers.program_counter,
            (old(self).state is Indirect && old(self).state->Indirect_0 != 1) ==> final(self).value == old(self).value,
    {
        match self.state {
            CPUState::FetchInstruction => {
                if self.branch {
                    let pcl = self.registers.get_pcl();
                    let carry = self.increase_pcl_by(pcl, self.low);
                    self.fix_pch = carry != (self.low >= 0x80);
                    self.branch = false;
                    CPUState::FetchInstruction
                } else if self.fix_pch {
                    let pch = self.registers.get_pch();
                    if self.low < 0x80 {
                        self.registers.set_pch(pch.wrapping_add(1));
                    } else {
                        self.registers.set_pch(pch.wrapping_sub(1));
                    }
                    self.fix_pch = false;
                    CPUState::FetchInstruction
                } else if self.nmi || (self.irq && !self.registers.status.get_interrupt()) {
                    self.registers.instruction = Instruction::new(0);
                    CPUState::FetchOperand
                } else {
                    self.registers.increment_pc();
                    self.registers.instruction = Instruction::new(buffer);
                    CPUState::FetchOperand
                }
            },
            CPUState::FetchOperand => self.fetch_operand(buffer),
            CPUState::JumpAbsolute => {
                self.registers.set_pc(self.low, buffer);
                CPUState::FetchInstruction
            },
            CPUState::JumpIndirect(cycle) => {
                if cycle == 0 {
                    self.high = buffer;
                    CPUState::JumpIndirect(1)
                } else if cycle == 1 {
                    self.value = buffer;
                    self.increase_low(1);
                    CPUState::JumpIndirect(2)
                } else {
                    self.registers.set_pc(self.value, buffer);
                    CPUState::FetchInstruction
                }
            },
            CPUState::IndexedRead(index) => {
                let offset = self.get_index_value(index);
                self.increase_low(offset);
                self.read_or_write_state()
            },
            CPUState::FetchOperandHigh(index) => {
                self.registers.increment_pc();
                self.high = buffer;
                match index {
                    None => self.read_or_write_state(),
                    Some(index) => {
                        let offset = self.get_index_value(index);
                        self.fix_pch = self.increase_low(offset);
                        if self.registers.instruction.is_write() {
                            CPUState::DummyRead
                        } else {
                            CPUState::Read
                        }
                    },
                }
            },
            CPUState::Indirect(cycle, index) => {
                if cycle == 0 {
                    let x = self.registers.x;
                    self.increase_low(x);
                    CPUState::Indirect(1, index)
                } else if cycle == 1 {
                    self.value = buffer;
                    self.increase_low(1);
                    CPUState::Indirect(2, index)
                } else {
                    self.high = buffer;
                    self.low = self.value;
                    match index {
                        IndexMode::X => self.read_or_write_state(),
                        IndexMode::Y => {
                            let y = self.registers.y;
                            self.fix_pch = self.increase_low(y);
                            if self.registers.instruction.is_write() {
                                CPUState::DummyRead
                            } else {
                                CPUState::Read
                            }
                        },
                    }
                }
            },
            CPUState::DummyRead => {
                if self.fix_pch {
                    self.fix_pch = false;
                    self.high = self.high.wrapping_add(1);
                }
                self.read_or_write_state()
            },
            CPUState::Read => {
                if self.fix_pch {
                    self.fix_pch = false;
                    self.high = self.high.wrapping_add(1);
                    CPUState::Read
                } else {
                    let input = self.get_register_value(self.registers.instruction.get_input());
                    self.load_alu(input, buffer);
                    if self.registers.instruction.is_write() {
                        self.value = buffer;
                        self.output = None;
                        CPUState::DummyWrite
                    } else {
                        CPUState::FetchInstruction
                    }
                }
            },
            CPUState::DummyWrite => CPUState::Write,
            CPUState::Write => {
                if !self.registers.instruction.is_read() {
                    self.value = self.get_register_value(self.registers.instruction.get_input());
                }
                CPUState::FetchInstruction
            },
            _ => self.next_sequence(buffer),
        }
    }

    /// The operand-fetch cycle: decodes the addressing mode and picks the
    /// state that carries the instruction on.
    fn fetch_operand(&mut self, buffer: u8) -> (r: CPUState)
        requires
            old(self).wf(),
            old(self).state == CPUState::FetchOperand,
        ensures
            final(self).wf(),
            r == successor(CPUState::FetchOperand, old(self).registers.instruction.0, old(self).fix_pch,
                break_signal(old(self).nmi, old(self).irq, old(self).registers.status.0)),
            final(self).fix_pch == old(self).fix_pch,
            final(self).registers.instruction == old(self).registers.instruction,
            addressing_mode_of(old(self).registers.instruction.0) != AddressingMode::Branch ==> final(self).branch == old(self).branch,
            addressing_mode_of(old(self).registers.instruction.0) == AddressingMode::Branch ==> {
                &&& final(self).low == buffer
                &&& final(self).branch == branch_taken(old(self).registers.instruction.0, old(self).registers.status.0)
                &&& final(self).registers.status == old(self).registers.status
                &&& final(self).registers.program_counter == old(self).registers.program_counter.wrapping_add(1)
            },
            final(self).registers.a == old(self).registers.a && final(self).registers.x == old(self).registers.x,
            final(self).registers.y == old(self).registers.y,
            final(self).state == old(self).state,
            addressing_mode_of(old(self).registers.instruction.0) == AddressingMode::Implied && old(self).registers.instruction.0 == 0x18
                ==> final(self).registers.status.0 == crate::cpu::status::with_flag(old(self).registers.status.0, 0x01, false),
            addressing_mode_of(old(self).registers.instruction.0) == AddressingMode::Implied && old(self).registers.instruction.0 == 0x38
                ==> final(self).registers.status.0 == crate::cpu::status::with_flag(old(self).registers.status.0, 0x01, true),
            addressing_mode_of(old(self).registers.instruction.0) == AddressingMode::Implied && old(self).registers.instruction.0 == 0x58
                ==> final(self).registers.status.0 == crate::cpu::status::with_flag(old(self).registers.status.0, 0x04, false),
            addressing_mode_of(old(self).registers.instruction.0) == AddressingMode::Implied && old(self).registers.instruction.0 == 0x78
                ==> final(self).registers.status.0 == crate::cpu::status::with_flag(old(self).registers.status.0, 0x04, true),
            addressing_mode_of(old(self).registers.instruction.0) == AddressingMode::Implied && old(self).registers.instruction.0 == 0xB8
                ==> final(self).registers.status.0 == crate::cpu::status::with_flag(old(self).registers.status.0, 0x40, false),
            addressing_mode_of(old(self).registers.instruction.0) == AddressingMode::Implied && old(self).registers.instruction.0 == 0xD8
                ==> final(self).registers.status.0 == crate::cpu::status::with_flag(old(self).registers.status.0, 0x08, false),
            addressing_mode_of(old(self).registers.instruction.0) == AddressingMode::Implied && old(self).registers.instruction.0 == 0xF8
                ==> final(self).registers.status.0 == crate::cpu::status::with_flag(old(self).registers.status.0, 0x08, true),
            final(self).registers.stack_pointer == old(self).registers.stack_pointer,
            addressing_mode_of(old(self).registers.instruction.0) == AddressingMode::Immediate && is_read_op(old(self).registers.instruction.0)
                && (old(self).registers.instruction.0 & 0x0F != 0x02 || old(self).registers.instruction.0 == 0xA2)
                && alu_table(alu_index(old(self).registers.instruction.0)) is Some ==> {
                &&& final(self).alu.b == buffer
                &&& final(self).alu.operator == alu_table(alu_index(old(self).registers.instruction.0))
                &&& final(self).alu.a == old(self).get_register_spec(input_of(old(self).registers.instruction.0))
                &&& final(self).output == Some(output_of(old(self).registers.instruction.0))
            },
            !(addressing_mode_of(old(self).registers.instruction.0) == AddressingMode::Implied && (old(self).registers.instruction.0 == 0x18 || old(self).registers.instruction.0 == 0x38 || old(self).registers.instruction.0 == 0x58 || old(self).registers.instruction.0 == 0x78 || old(self).registers.instruction.0 == 0xB8 || old(self).registers.instruction.0 == 0xD8 || old(self).registers.instruction.0 == 0xF8)) ==> final(self).registers.status == old(self).registers.status,
            addressing_mode_of(old(self).registers.instruction.0) != AddressingMode::Implied ==> final(self).registers.program_counter == old(self).registers.program_counter.wrapping_add(1),
            addressing_mode_of(old(self).registers.instruction.0) == AddressingMode::Implied && old(self).registers.instruction.0 == 0x00
                && break_signal(old(self).nmi, old(self).irq, old(self).registers.status.0) == BreakSignal::BRK
                ==> final(self).registers.program_counter == old(self).registers.program_counter.wrapping_add(1),
            addressing_mode_of(old(self).registers.instruction.0) == AddressingMode::Implied && !(old(self).registers.instruction.0 == 0x00
                && break_signal(old(self).nmi, old(self).irq, old(self).registers.status.0) == BreakSignal::BRK)
                ==> final(self).registers.program_counter == old(self).registers.program_counter,
            addressing_mode_of(old(self).registers.instruction.0) == AddressingMode::Implied && (old(self).registers.instruction.0 == 0x00 || old(self).registers.instruction.0 == 0x40 || old(self).registers.instruction.0 == 0x60 || old(self).registers.instruction.0 == 0x08 || old(self).registers.instruction.0 == 0x48 || old(self).registers.instruction.0 == 0x28 || old(self).registers.instruction.0 == 0x68 || old(self).registers.instruction.0 == 0xEA || old(self).registers.instruction.0 == 0x18 || old(self).registers.instruction.0 == 0x38 || old(self).registers.instruction.0 == 0x58 || old(self).registers.instruction.0 == 0x78 || old(self).registers.instruction.0 == 0xB8 || old(self).registers.instruction.0 == 0xD8 || old(self).registers.instruction.0 == 0xF8) ==> final(self).alu == old(self).alu && final(self).output == old(self).output,
            (addressing_mode_of(old(self).registers.instruction.0) is ZeroPage || addressing_mode_of(old(self).registers.instruction.0) is ZeroPageIndexed || addressing_mode_of(old(self).registers.instruction.0) is Absolute
                || addressing_mode_of(old(self).registers.instruction.0) is AbsoluteIndexed || addressing_mode_of(old(self).registers.instruction.0) is Indirect)
                ==> final(self).low == buffer && final(self).high == 0,
    {
        let mode = self.registers.instruction.get_addressing_mode();
        if mode != AddressingMode::Implied {
            self.registers.increment_pc();
        }
        match mode {
            AddressingMode::Implied => self.implied_instructions(),
            AddressingMode::Immediate => {
                let op = self.registers.instruction.get_opcode();
                if self.registers.instruction.is_read() && (op & 0x0F != 0x02 || op == 0xA2) {
                    let input = self.get_register_value(self.registers.instruction.get_input());
                    self.load_alu(input, buffer)
                } else {
                    CPUState::FetchInstruction
                }
            },
            AddressingMode::Branch => {
                self.low = buffer;
                self.branch = self.registers.instruction.branch(&self.registers.status);
                CPUState::FetchInstruction
            },
            AddressingMode::ZeroPage => {
                self.low = buffer;
                self.high = 0;
                self.read_or_write_state()
            },
            AddressingMode::ZeroPageIndexed(index) => {
                self.low = buffer;
                self.high = 0;
                CPUState::IndexedRead(index)
            },
            AddressingMode::Absolute => {
                self.low = buffer;
                self.high = 0;
                let op = self.registers.instruction.get_opcode();
                if op == 0x4C {
                    CPUState::JumpAbsolute
                } else if op == 0x6C {
                    CPUState::JumpIndirect(0)
                } else if op == 0x20 {
                    CPUState::JumpSubroutine(0)
                } else {
                    CPUState::FetchOperandHigh(None)
                }
            },
            AddressingMode::AbsoluteIndexed(index) => {
                self.low = buffer;
                self.high = 0;
                CPUState::FetchOperandHigh(Some(index))
            },
            AddressingMode::Indirect(index) => {
                self.low = buffer;
                self.high = 0;
                match index {
                    IndexMode::X => CPUState::Indirect(0, IndexMode::X),
                    IndexMode::Y => CPUState::Indirect(1, IndexMode::Y),
                }
            },
        }
    }

    /// The cycles of break, subroutine, return and stack sequences.
    fn next_sequence(&mut self, buffer: u8) -> (r: CPUState)
        requires
            old(self).wf(),
            old(self).state matches CPUState::Break(_, _) || old(self).state matches CPUState::JumpSubroutine(_)
                || old(self).state matches CPUState::ReturnInterrupt(_) || old(self).state matches CPUState::ReturnSubroutine(_)
                || old(self).state matches CPUState::PushRegister(_) || old(self).state matches CPUState::PullRegister(_, _),
        ensures
            final(self).wf(),
            r == successor(old(self).state, old(self).registers.instruction.0, old(self).fix_pch,
                break_signal(old(self).nmi, old(self).irq, old(self).registers.status.0)),
            final(self).fix_pch == old(self).fix_pch,
            final(self).branch == old(self).branch,
            final(self).registers.instruction == old(self).registers.instruction,
            final(self).registers.a == old(self).registers.a && final(self).registers.x == old(self).registers.x,
            final(self).registers.y == old(self).registers.y,
            old(self).state matches CPUState::Break(c, _) && c == 0 ==> final(self).value == (old(self).registers.program_counter / 256) as u8,
            old(self).state matches CPUState::Break(c, _) && c == 1 ==> final(self).value == (old(self).registers.program_counter % 256) as u8,
            old(self).state matches CPUState::Break(c, _) && c == 2 ==> {
                &&& final(self).low == vector_low(signal_of(old(self).state)) && final(self).high == 0xFF
                &&& final(self).value == if signal_of(old(self).state) == BreakSignal::BRK { old(self).registers.status.0 } else { old(self).registers.status.0 & 0xEF }
            },
            old(self).state matches CPUState::Break(c, _) && c == 3 ==> {
                &&& final(self).registers.program_counter == pc_of(buffer, (old(self).registers.program_counter / 256) as u8)
                &&& final(self).low == old(self).low.wrapping_add(1) && final(self).high == old(self).high
            },
            old(self).state matches CPUState::Break(c, _) && c >= 4 ==> {
                &&& final(self).registers.program_counter == pc_of((old(self).registers.program_counter % 256) as u8, buffer)
                &&& final(self).registers.status.0 == crate::cpu::status::with_flag(old(self).registers.status.0, 0x04, true)
            },
            old(self).state matches CPUState::JumpSubroutine(c) && c == 1 ==> final(self).value == (old(self).registers.program_counter / 256) as u8,
            old(self).state matches CPUState::JumpSubroutine(c) && c == 2 ==> final(self).value == (old(self).registers.program_counter % 256) as u8,
            old(self).state matches CPUState::JumpSubroutine(c) && c >= 3 ==> final(self).registers.program_counter == pc_of(old(self).low, buffer),
            old(self).state matches CPUState::ReturnSubroutine(c) && c == 1 ==> final(self).registers.program_counter == pc_of(buffer, (old(self).registers.program_counter / 256) as u8),
            old(self).state matches CPUState::ReturnSubroutine(c) && c == 2 ==> final(self).registers.program_counter == pc_of((old(self).registers.program_counter % 256) as u8, buffer),
            old(self).state matches CPUState::ReturnSubroutine(c) && c >= 3 ==> final(self).registers.program_counter == old(self).registers.program_counter.wrapping_add(1),
            old(self).state matches CPUState::ReturnInterrupt(c) && c == 1 ==> final(self).registers.status.0 == crate::cpu::status::status_of(buffer),
            old(self).state matches CPUState::ReturnInterrupt(c) && c == 2 ==> final(self).registers.program_counter == pc_of(buffer, (old(self).registers.program_counter / 256) as u8),
            old(self).state matches CPUState::ReturnInterrupt(c) && c >= 3 ==> final(self).registers.program_counter == pc_of((old(self).registers.program_counter % 256) as u8, buffer),
            old(self).state matches CPUState::PushRegister(t) ==> final(self).value == old(self).get_register_spec(t),
            final(self).state == old(self).state,
            final(self).registers.stack_pointer == old(self).registers.stack_pointer,
            !(old(self).state is Break) && !(old(self).state is ReturnInterrupt) && !(old(self).state is PullRegister)
                ==> final(self).registers.status == old(self).registers.status,
            !(old(self).state is PullRegister) ==> final(self).alu == old(self).alu && final(self).output == old(self).output,
    {
        match self.state {
        CPUState::Break(cycle, signal) => {
            if cycle == 0 {
                self.value = self.registers.get_pch();
                CPUState::Break(1, signal)
            } else if cycle == 1 {
                self.value = self.registers.get_pcl();
                CPUState::Break(2, signal)
            } else if cycle == 2 {
                self.low = match signal {
                    BreakSignal::NMI => 0xFA,
                    BreakSignal::Reset => 0xFC,
                    _ => 0xFE,
                };
                self.high = 0xFF;
                self.value = match signal {
                    BreakSignal::BRK => self.registers.status.get(),
                    _ => self.registers.status.get_b_clear(),
                };
                CPUState::Break(3, signal)
            } else if cycle == 3 {
                self.increase_low(1);
                self.registers.set_pcl(buffer);
                CPUState::Break(4, signal)
            } else {
                self.registers.set_pch(buffer);
                self.registers.status.set_interrupt(true);
                if signal == BreakSignal::NMI {
                    self.nmi = false;
                }
                CPUState::FetchInstruction
            }
        },
        CPUState::JumpSubroutine(cycle) => {
            if cycle == 0 {
                CPUState::JumpSubroutine(1)
            } else if cycle == 1 {
                self.value = self.registers.get_pch();
                CPUState::JumpSubroutine(2)
            } else if cycle == 2 {
                self.value = self.registers.get_pcl();
                CPUState::JumpSubroutine(3)
            } else {
                self.registers.set_pc(self.low, buffer);
                CPUState::FetchInstruction
            }
        },
        CPUState::ReturnInterrupt(cycle) => {
            if cycle == 0 {
                CPUState::ReturnInterrupt(1)
            } else if cycle == 1 {
                self.registers.status.set(buffer);
                CPUState::ReturnInterrupt(2)
            } else if cycle == 2 {
                self.registers.set_pcl(buffer);
                CPUState::ReturnInterrupt(3)
            } else {
                self.registers.set_pch(buffer);
                CPUState::FetchInstruction
            }
        },
        CPUState::ReturnSubroutine(cycle) => {
            if cycle == 0 {
                CPUState::ReturnSubroutine(1)
            } else if cycle == 1 {
                self.registers.set_pcl(buffer);
                CPUState::ReturnSubroutine(2)
            } else if cycle == 2 {
                self.registers.set_pch(buffer);
                CPUState::ReturnSubroutine(3)
            } else {
                self.registers.increment_pc();
                CPUState::FetchInstruction
            }
        },
        CPUState::PushRegister(target) => {
            self.value = self.get_register_value(target);
            CPUState::FetchInstruction
        },
        CPUState::PullRegister(cycle, target) => {
            if cycle == 0 {
                CPUState::PullRegister(1, target)
            } else if target == TargetRegister::SR {
                self.registers.status.set(buffer);
                CPUState::FetchInstruction
            } else {
                self.load_alu_operation(0, buffer, ALUOperation::LOAD, target)
            }
        },            _ => CPUState::FetchInstruction,
        }
    }

    /// Adds `offset` to the low byte `pcl` of the program counter; true on carry.
    fn increase_pcl_by(&mut self, pcl: u8, offset: u8) -> (r: bool)
        requires
            pcl == old(self).registers.program_counter % 256,
            old(self).wf(),
        ensures
            final(self).wf(),
            r == (pcl as int + offset as int >= 256),
            final(self).registers.program_counter == pc_of(pcl.wrapping_add(offset), (old(self).registers.program_counter / 256) as u8),
            final(self).registers.instruction == old(self).registers.instruction,
            final(self).state == old(self).state,
            final(self).value == old(self).value,
            final(self).low == old(self).low && final(self).high == old(self).high,
            final(self).nmi == old(self).nmi && final(self).irq == old(self).irq,
            final(self).registers.a == old(self).registers.a && final(self).registers.x == old(self).registers.x,
            final(self).registers.y == old(self).registers.y,
            final(self).registers.stack_pointer == old(self).registers.stack_pointer,
            final(self).alu == old(self).alu && final(self).output == old(self).output,
            final(self).registers.status == old(self).registers.status,
    {
        let carry = pcl as u16 + offset as u16 >= 256;
        self.registers.set_pcl(pcl.wrapping_add(offset));
        carry
    }

    fn implied_instructions(&mut self) -> (r: CPUState)
        requires
            old(self).wf(),
        ensures
            final(self).wf(),
            final(self).registers.instruction == old(self).registers.instruction,
            r == implied_successor(old(self).registers.instruction.0, break_signal(old(self).nmi, old(self).irq, old(self).registers.status.0)),
            final(self).fix_pch == old(self).fix_pch,
            final(self).branch == old(self).branch,
            final(self).registers.a == old(self).registers.a && final(self).registers.x == old(self).registers.x,
            final(self).registers.y == old(self).registers.y,
            final(self).state == old(self).state,
            old(self).registers.instruction.0 == 0x18 ==> final(self).registers.status.0 == crate::cpu::status::with_flag(old(self).registers.status.0, 0x01, false),
            old(self).registers.instruction.0 == 0x38 ==> final(self).registers.status.0 == crate::cpu::status::with_flag(old(self).registers.status.0, 0x01, true),
            old(self).registers.instruction.0 == 0x58 ==> final(self).registers.status.0 == crate::cpu::status::with_flag(old(self).registers.status.0, 0x04, false),
            old(self).registers.instruction.0 == 0x78 ==> final(self).registers.status.0 == crate::cpu::status::with_flag(old(self).registers.status.0, 0x04, true),
            old(self).registers.instruction.0 == 0xB8 ==> final(self).registers.status.0 == crate::cpu::status::with_flag(old(self).registers.status.0, 0x40, false),
            old(self).registers.instruction.0 == 0xD8 ==> final(self).registers.status.0 == crate::cpu::status::with_flag(old(self).registers.status.0, 0x08, false),
            old(self).registers.instruction.0 == 0xF8 ==> final(self).registers.status.0 == crate::cpu::status::with_flag(old(self).registers.status.0, 0x08, true),
            final(self).registers.stack_pointer == old(self).registers.stack_pointer,
            !(old(self).registers.instruction.0 == 0x18 || old(self).registers.instruction.0 == 0x38 || old(self).registers.instruction.0 == 0x58 || old(self).registers.instruction.0 == 0x78 || old(self).registers.instruction.0 == 0xB8 || old(self).registers.instruction.0 == 0xD8 || old(self).registers.instruction.0 == 0xF8) ==> final(self).registers.status == old(self).registers.status,
            old(self).registers.instruction.0 == 0x00 && break_signal(old(self).nmi, old(self).irq, old(self).registers.status.0) == BreakSignal::BRK
                ==> final(self).registers.program_counter == old(self).registers.program_counter.wrapping_add(1),
            !(old(self).registers.instruction.0 == 0x00 && break_signal(old(self).nmi, old(self).irq, old(self).registers.status.0) == BreakSignal::BRK)
                ==> final(self).registers.program_counter == old(self).registers.program_counter,
            (old(self).registers.instruction.0 == 0x00 || old(self).registers.instruction.0 == 0x40 || old(self).registers.instruction.0 == 0x60 || old(self).registers.instruction.0 == 0x08 || old(self).registers.instruction.0 == 0x48 || old(self).registers.instruction.0 == 0x28 || old(self).registers.instruction.0 == 0x68 || old(self).registers.instruction.0 == 0xEA || old(self).registers.instruction.0 == 0x18 || old(self).registers.instruction.0 == 0x38 || old(self).registers.instruction.0 == 0x58 || old(self).registers.instruction.0 == 0x78 || old(self).registers.instruction.0 == 0xB8 || old(self).registers.instruction.0 == 0xD8 || old(self).registers.instruction.0 == 0xF8) ==> final(self).alu == old(self).alu && final(self).output == old(self).output,
            final(self).low == old(self).low && final(self).high == old(self).high && final(self).value == old(self).value,
    {
        let op = self.registers.instruction.get_opcode();
        if op == 0x00 {
            if self.nmi {
                CPUState::Break(0, BreakSignal::NMI)
            } else if self.irq && !self.registers.status.get_interrupt() {
                CPUState::Break(0, BreakSignal::IRQ)
            } else {
                self.registers.increment_pc();
                CPUState::Break(0, BreakSignal::BRK)
            }
        } else if op == 0x40 {
            CPUState::ReturnInterrupt(0)
        } else if op == 0x60 {
            CPUState::ReturnSubroutine(0)
        } else if op == 0x08 || op == 0x48 {
            CPUState::PushRegister(self.registers.instruction.get_input())
        } else if op == 0x28 || op == 0x68 {
            CPUState::PullRegister(0, self.registers.instruction.get_output())
        } else if op == 0x18 {
            self.registers.status.set_carry(false);
            CPUState::FetchInstruction
        } else if op == 0x38 {
            self.registers.status.set_carry(true);
            CPUState::FetchInstruction
        } else if op == 0x58 {
            self.registers.status.set_interrupt(false);
            CPUState::FetchInstruction
        } else if op == 0x78 {
            self.registers.status.set_interrupt(true);
            CPUState::FetchInstruction
        } else if op == 0xB8 {
            self.registers.status.set_overflow(false);
            CPUState::FetchInstruction
        } else if op == 0xD8 {
            self.registers.status.set_decimal(false);
            CPUState::FetchInstruction
        } else if op == 0xF8 {
            self.registers.status.set_decimal(true);
            CPUState::FetchInstruction
        } else if op == 0x88 {
            let y = self.registers.y;
            self.load_alu_operation(0, y, ALUOperation::DEC, TargetRegister::Y)
        } else if op == 0xC8 {
            let y = self.registers.y;
            self.load_alu_operation(0, y, ALUOperation::INC, TargetRegister::Y)
        } else if op == 0xE8 {
            let x = self.registers.x;
            self.load_alu_operation(0, x, ALUOperation::INC, TargetRegister::X)
        } else if op == 0x98 {
            self.setup_transfer(TargetRegister::Y, TargetRegister::A)
        } else if op == 0xA8 {
            self.setup_transfer(TargetRegister::A, TargetRegister::Y)
        } else if op == 0xEA || (op & 0x1F == 0x1A && op != 0x9A && op != 0xBA) {
            CPUState::FetchInstruction
        } else {
            let input = self.get_register_value(self.registers.instruction.get_input());
            self.load_alu(0, input)
        }
    }

    /// Hands operand `a` and the byte `buffer` to the ALU with the
    /// instruction's operator, if it has one.
    fn load_alu(&mut self, a: u8, buffer: u8) -> (r: CPUState)
        requires
            old(self).wf(),
        ensures
            final(self).wf(),
            r == CPUState::FetchInstruction,
            final(self).registers == old(self).registers,
            final(self).state == old(self).state,
            final(self).branch == old(self).branch && final(self).fix_pch == old(self).fix_pch,
            final(self).value == old(self).value,
            final(self).low == old(self).low && final(self).high == old(self).high,
            final(self).nmi == old(self).nmi && final(self).irq == old(self).irq,
            alu_table(alu_index(old(self).registers.instruction.0)) is Some ==> {
                &&& final(self).alu.a == a && final(self).alu.b == buffer
                &&& final(self).alu.operator == alu_table(alu_index(old(self).registers.instruction.0))
                &&& final(self).output == Some(output_of(old(self).registers.instruction.0))
            },
    {
        match self.registers.instruction.get_alu_operation() {
            Some(operation) => {
                let output = self.registers.instruction.get_output();
                self.load_alu_operation(a, buffer, operation, output)
            },
            None => CPUState::FetchInstruction,
        }
    }

    fn setup_transfer(&mut self, input: TargetRegister, output: TargetRegister) -> (r: CPUState)
        requires
            old(self).wf(),
        ensures
            final(self).wf(),
            r == CPUState::FetchInstruction,
            final(self).registers == old(self).registers,
            final(self).alu.b == old(self).get_register_spec(input),
            final(self).alu.operator == Some(ALUOperation::LOAD),
            final(self).output == Some(output),
            final(self).fix_pch == old(self).fix_pch,
            final(self).branch == old(self).branch,
            final(self).state == old(self).state,
            final(self).low == old(self).low && final(self).high == old(self).high && final(self).value == old(self).value,
    {
        let value = self.get_register_value(input);
        self.load_alu_operation(0, value, ALUOperation::LOAD, output)
    }

    fn load_alu_operation(&mut self, a: u8, buffer: u8, operation: ALUOperation, output: TargetRegister) -> (r: CPUState)
        requires
            old(self).wf(),
        ensures
            final(self).wf(),
            r == CPUState::FetchInstruction,
            final(self).registers == old(self).registers,
            final(self).state == old(self).state,
            final(self).alu.a == a && final(self).alu.b == buffer,
            final(self).alu.operator == Some(operation),
            final(self).output == Some(output),
            final(self).branch == old(self).branch && final(self).fix_pch == old(self).fix_pch,
            final(self).value == old(self).value,
            final(self).low == old(self).low && final(self).high == old(self).high,
            final(self).nmi == old(self).nmi && final(self).irq == old(self).irq,
    {
        self.alu.set(a, buffer, operation);
        self.output = Some(output);
        CPUState::FetchInstruction
    }

    /// The state that performs the operand access: a read for every
    /// instruction that reads, else a write.
    fn read_or_write_state(&self) -> (r: CPUState)
        ensures
            r == if self.registers.instruction.0 & 0xE0 != 0x80 { CPUState::Read } else { CPUState::Write },
    {
        if self.registers.instruction.is_read() {
            CPUState::Read
        } else {
            CPUState::Write
        }
    }

    pub open spec fn get_register_spec(&self, target: TargetRegister) -> u8 {
        match target {
            TargetRegister::A => self.registers.a,
            TargetRegister::X => self.registers.x,
            TargetRegister::Y => self.registers.y,
            TargetRegister::SP => self.registers.stack_pointer,
            TargetRegister::SR => self.registers.status.0,
        }
    }

    /// Reads the stack slot without moving the stack pointer.
    fn peak_stack<M: CPUMemory>(&self, memory: &mut M) -> (r: u8)
        requires
            old(memory).inv(),
        ensures
            final(memory).inv(),
            r == old(memory).byte_at(stack_address(self.registers.stack_pointer)),
            forall|a: u16| modelled(a) ==> #[trigger] final(memory).byte_at(a) == old(memory).byte_at(a),
    {
        memory.read(0x0100 + self.registers.stack_pointer as u16)
    }

    /// Reads the stack slot and moves the stack pointer up.
    fn pop_stack<M: CPUMemory>(&mut self, memory: &mut M) -> (r: u8)
        requires
            old(memory).inv(),
        ensures
            final(memory).inv(),
            r == old(memory).byte_at(stack_address(old(self).registers.stack_pointer)),
            forall|a: u16| modelled(a) ==> #[trigger] final(memory).byte_at(a) == old(memory).byte_at(a),
            final(self).registers.stack_pointer == old(self).registers.stack_pointer.wrapping_add(1),
            final(self).registers.program_counter == old(self).registers.program_counter,
            final(self).registers.status == old(self).registers.status,
            final(self).registers.instruction == old(self).registers.instruction,
            final(self).registers.a == old(self).registers.a,
            final(self).registers.x == old(self).registers.x,
            final(self).registers.y == old(self).registers.y,
            final(self).state == old(self).state,
            final(self).alu == old(self).alu && final(self).output == old(self).output,
            final(self).value == old(self).value,
            final(self).branch == old(self).branch && final(self).fix_pch == old(self).fix_pch,
            final(self).nmi == old(self).nmi && final(self).irq == old(self).irq,
            final(self).low == old(self).low && final(self).high == old(self).high,
    {
        let result = self.peak_stack(memory);
        self.registers.stack_pointer = self.registers.stack_pointer.wrapping_add(1);
        result
    }

    /// Writes `value` at the stack slot and moves the stack pointer down.
    fn push_to_stack<M: CPUMemory>(&mut self, memory: &mut M, value: u8)
        requires
            old(memory).inv(),
        ensures
            final(memory).inv(),
            final(memory).byte_at(stack_address(old(self).registers.stack_pointer)) == value,
            forall|a: u16| a >= 0x8000 ==> #[trigger] final(memory).byte_at(a) == old(memory).byte_at(a),
            final(self).low == old(self).low && final(self).high == old(self).high,
            final(self).registers.a == old(self).registers.a && final(self).registers.x == old(self).registers.x,
            final(self).registers.y == old(self).registers.y,
            final(self).registers.stack_pointer == old(self).registers.stack_pointer.wrapping_sub(1),
            final(self).registers.program_counter == old(self).registers.program_counter,
            final(self).registers.status == old(self).registers.status,
            final(self).registers.instruction == old(self).registers.instruction,
            final(self).state == old(self).state,
            final(self).value == old(self).value,
            final(self).branch == old(self).branch && final(self).fix_pch == old(self).fix_pch,
            final(self).alu == old(self).alu && final(self).output == old(self).output,
    {
        memory.write(0x0100 + self.registers.stack_pointer as u16, value);
        self.registers.stack_pointer = self.registers.stack_pointer.wrapping_sub(1);
    }

    fn get_address(&self) -> (r: u16)
        ensures
            r == address_of(self.low, self.high),
    {
        self.low as u16 + (self.high as u16) * 256
    }

    fn increase_low(&mut self, value: u8) -> (r: bool)
        ensures
            final(self).low == old(self).low.wrapping_add(value),
            r == (old(self).low as int + value as int >= 256),
            final(self).high == old(self).high,
            final(self).registers == old(self).registers,
            final(self).branch == old(self).branch,
            final(self).fix_pch == old(self).fix_pch,
            final(self).value == old(self).value,
            final(self).alu == old(self).alu,
            final(self).state == old(self).state,
            final(self).output == old(self).output,
    {
        let overflow = self.low as u16 + value as u16 >= 256;
        self.low = self.low.wrapping_add(value);
        overflow
    }

    fn get_index_value(&self, index: IndexMode) -> (r: u8)
        ensures
            r == (match index {
                IndexMode::X => self.registers.x,
                IndexMode::Y => self.registers.y,
            }),
    {
        match index {
            IndexMode::X => self.registers.x,
            IndexMode::Y => self.registers.y,
        }
    }

    fn get_register_value(&self, target: TargetRegister) -> (r: u8)
        ensures
            r == (match target {
                TargetRegister::A => self.registers.a,
                TargetRegister::X => self.registers.x,
                TargetRegister::Y => self.registers.y,
                TargetRegister::SP => self.registers.stack_pointer,
                TargetRegister::SR => self.registers.status.0,
            }),
    {
        match target {
            TargetRegister::A => self.registers.a,
            TargetRegister::X => self.registers.x,
            TargetRegister::Y => self.registers.y,
            TargetRegister::SP => self.registers.stack_pointer,
            TargetRegister::SR => self.registers.status.get(),
        }
    }

    fn set_register_value(&mut self, target: TargetRegister, value: u8)
        requires
            old(self).wf(),
        ensures
            final(self).wf(),
            final(self).state == old(self).state,
            final(self).branch == old(self).branch,
            final(self).fix_pch == old(self).fix_pch,
            final(self).value == old(self).value,
            final(self).registers.program_counter == old(self).registers.program_counter,
            final(self).registers.instruction == old(self).registers.instruction,
            final(self).nmi == old(self).nmi && final(self).irq == old(self).irq,
            final(self).low == old(self).low && final(self).high == old(self).high,
            target == TargetRegister::A ==> final(self).registers.a == value,
            target == TargetRegister::X ==> final(self).registers.x == value,
            target == TargetRegister::Y ==> final(self).registers.y == value,
            target == TargetRegister::SP ==> final(self).registers.stack_pointer == value,
            target != TargetRegister::A ==> final(self).registers.a == old(self).registers.a,
            target != TargetRegister::X ==> final(self).registers.x == old(self).registers.x,
            target != TargetRegister::Y ==> final(self).registers.y == old(self).registers.y,
            target != TargetRegister::SP ==> final(self).registers.stack_pointer == old(self).registers.stack_pointer,
            target != TargetRegister::SR ==> final(self).registers.status == old(self).registers.status,
            target == TargetRegister::SR ==> final(self).registers.status.0 == status_of(value),
            final(self).alu == old(self).alu && final(self).output == old(self).output,
    {
        match target {
            TargetRegister::A => self.registers.a = value,
            TargetRegister::X => self.registers.x = value,
            TargetRegister::Y => self.registers.y = value,
            TargetRegister::SP => self.registers.stack_pointer = value,
            TargetRegister::SR => self.registers.status.set(value),
        }
    }
}

} // verus!
