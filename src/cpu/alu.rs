use vstd::prelude::*;
use crate::cpu::status::{StatusRegister, with_flag, FLAG_C, FLAG_N, FLAG_V, FLAG_Z};

verus! {

#[derive(Clone, Copy, PartialEq, Eq, Structural, Debug)]
pub enum ALUOperation {
    LOAD,
    OR,
    AND,
    EOR,
    ADC,
    SBC,
    CMP,
    ASL,
    ROL,
    LSR,
    ROR,
    INC,
    DEC,
    BIT,
}

/// `a + b + carry`, truncated to a byte, and the carry out.
pub open spec fn add_with_carry(a: u8, b: u8, carry: bool) -> (u8, bool) {
    let sum = a as int + b as int + if carry { 1int } else { 0int };
    ((sum % 256) as u8, sum > 255)
}

/// The byte and carry an operator (other than LOAD and BIT) produces from
/// operands `a`, `b` and the carry flag `c`.
pub open spec fn alu_result(op: ALUOperation, a: u8, b: u8, c: bool) -> (u8, bool) {
    match op {
        ALUOperation::OR => (a | b, c),
        ALUOperation::AND => (a & b, c),
        ALUOperation::EOR => (a ^ b, c),
        ALUOperation::ADC => add_with_carry(a, b, c),
        ALUOperation::SBC => add_with_carry(a, !b, c),
        ALUOperation::CMP => (a.wrapping_sub(b), a >= b),
        ALUOperation::ASL => (b << 1u8, b & 0x80 != 0),
        ALUOperation::ROL => ((b << 1u8) | (if c { 1u8 } else { 0u8 }), b & 0x80 != 0),
        ALUOperation::LSR => (b >> 1u8, b & 1 != 0),
        ALUOperation::ROR => ((b >> 1u8) | (if c { 0x80u8 } else { 0u8 }), b & 1 != 0),
        ALUOperation::INC => (b.wrapping_add(1), c),
        ALUOperation::DEC => (b.wrapping_sub(1), c),
        _ => (b, c),
    }
}

/// The overflow rule: ADC overflows iff `(a ^ r) & (b ^ r) & 0x80 != 0`,
/// SBC iff `(a ^ r) & (!b ^ r) & 0x80 != 0`, for the sum `r`.
pub open spec fn overflow_of(op: ALUOperation, a: u8, b: u8, r: u8) -> bool {
    if op == ALUOperation::SBC {
        (a ^ r) & (!b ^ r) & 0x80 != 0
    } else {
        (a ^ r) & (b ^ r) & 0x80 != 0
    }
}

/// The status byte after committing result `v` with carry `carry` for operator `op`.
pub open spec fn commit_flags(p: u8, op: ALUOperation, a: u8, b: u8, v: u8, carry: bool) -> u8 {
    let flagged = if op == ALUOperation::ADC || op == ALUOperation::SBC {
        with_flag(p, FLAG_V, overflow_of(op, a, b, v))
    } else {
        p
    };
    with_flag(with_flag(with_flag(flagged, FLAG_N, v & 0x80 != 0), FLAG_Z, v == 0), FLAG_C, carry)
}

/// The status byte after BIT of `a` against `b`.
pub open spec fn bit_flags(p: u8, a: u8, b: u8) -> u8 {
    with_flag(with_flag(with_flag(p, FLAG_N, b & 0x80 != 0), FLAG_V, b & 0x40 != 0), FLAG_Z, a & b == 0)
}

/// The two-phase arithmetic unit: `set` loads operands and an operator; the
/// next `get_output` settles the result; the one after commits the flags and
/// hands the result over.
pub struct ALU {
    pub a: u8,
    pub b: u8,
    pub carry: bool,
    pub operator: Option<ALUOperation>,
    pub output: Option<u8>,
}

impl ALU {
    pub fn new() -> (r: Self)
        ensures
            r.operator.is_none(),
            r.output.is_none(),
    {
        ALU { a: 0, b: 0, carry: false, operator: None, output: None }
    }

    pub fn set(&mut self, a: u8, b: u8, operator: ALUOperation)
        ensures
            final(self).a == a,
            final(self).b == b,
            final(self).operator == Some(operator),
            final(self).output == old(self).output,
            final(self).carry == old(self).carry,
    {
        self.a = a;
        self.b = b;
        self.operator = Some(operator);
    }

    /// One step of the unit.
    pub fn get_output(&mut self, status: &mut StatusRegister) -> (r: Option<u8>)
        ensures
            old(status).wf() ==> final(status).wf(),
            old(self).output is Some || old(self).operator is None || old(self).operator == Some(ALUOperation::LOAD)
                || old(self).operator == Some(ALUOperation::BIT) ==> final(self).carry == old(self).carry,
            final(self).a == old(self).a,
            final(self).b == old(self).b,
            match old(self).output {
                Some(v) => {
                    let op = match old(self).operator {
                        Some(o) => o,
                        None => ALUOperation::LOAD,
                    };
                    &&& final(self).output.is_none()
                    &&& final(self).operator.is_none()
                    &&& final(status).0 == commit_flags(old(status).0, op, old(self).a, old(self).b, v, old(self).carry)
                    &&& r == if op == ALUOperation::CMP { None } else { Some(v) }
                },
                None => match old(self).operator {
                    None => r.is_none() && *final(self) == *old(self) && *final(status) == *old(status),
                    Some(ALUOperation::LOAD) => {
                        &&& r == Some(old(self).b)
                        &&& final(self).operator.is_none()
                        &&& final(self).output.is_none()
                        &&& *final(status) == *old(status)
                    },
                    Some(ALUOperation::BIT) => {
                        &&& r.is_none()
                        &&& final(self).operator.is_none()
                        &&& final(self).output.is_none()
                        &&& final(status).0 == bit_flags(old(status).0, old(self).a, old(self).b)
                    },
                    Some(op) => {
                        let res = alu_result(op, old(self).a, old(self).b, old(status).0 & FLAG_C != 0);
                        &&& r.is_none()
                        &&& final(self).operator == Some(op)
                        &&& final(self).output == Some(res.0)
                        &&& final(self).carry == res.1
                        &&& *final(status) == *old(status)
                    },
                },
            },
    {
        match self.output {
            Some(value) => {
                self.output = None;
                let op = match self.operator {
                    Some(o) => o,
                    None => ALUOperation::LOAD,
                };
                self.operator = None;
                if op == ALUOperation::ADC {
                    status.set_overflow((self.a ^ value) & (self.b ^ value) & 0x80 != 0);
                } else if op == ALUOperation::SBC {
                    status.set_overflow((self.a ^ value) & (!self.b ^ value) & 0x80 != 0);
                }
                status.set_negative(value & 0x80 != 0);
                status.set_zero(value == 0);
                status.set_carry(self.carry);
                if op == ALUOperation::CMP {
                    None
                } else {
                    Some(value)
                }
            },
            None => match self.operator {
                None => None,
                Some(op) => self.compute_operation(op, status),
            },
        }
    }

    fn compute_operation(&mut self, operation: ALUOperation, status: &mut StatusRegister) -> (r: Option<u8>)
        requires
            old(self).output.is_none(),
            old(self).operator == Some(operation),
        ensures
            operation == ALUOperation::LOAD || operation == ALUOperation::BIT ==> final(self).carry == old(self).carry,
            old(status).wf() ==> final(status).wf(),
            final(self).a == old(self).a,
            final(self).b == old(self).b,
            operation == ALUOperation::LOAD ==> {
                &&& r == Some(old(self).b)
                &&& final(self).operator.is_none()
                &&& final(self).output.is_none()
                &&& *final(status) == *old(status)
            },
            operation == ALUOperation::BIT ==> {
                &&& r.is_none()
                &&& final(self).operator.is_none()
                &&& final(self).output.is_none()
                &&& final(status).0 == bit_flags(old(status).0, old(self).a, old(self).b)
            },
            operation != ALUOperation::LOAD && operation != ALUOperation::BIT ==> {
                let res = alu_result(operation, old(self).a, old(self).b, old(status).0 & FLAG_C != 0);
                &&& r.is_none()
                &&& final(self).operator == Some(operation)
                &&& final(self).output == Some(res.0)
                &&& final(self).carry == res.1
                &&& *final(status) == *old(status)
            },
    {
        let a = self.a;
        let b = self.b;
        if operation == ALUOperation::LOAD {
            self.operator = None;
            return Some(b);
        }
        if operation == ALUOperation::BIT {
            status.set_negative(b & 0x80 != 0);
            status.set_overflow(b & 0x40 != 0);
            status.set_zero(a & b == 0);
            self.operator = None;
            return None;
        }
        let c = status.get_carry();
        let cin: u8 = if c { 1 } else { 0 };
        let (output, carry) = match operation {
            ALUOperation::OR => (a | b, c),
            ALUOperation::AND => (a & b, c),
            ALUOperation::EOR => (a ^ b, c),
            ALUOperation::ADC => Self::adc(a, b, c),
            ALUOperation::SBC => Self::adc(a, !b, c),
            ALUOperation::CMP => (a.wrapping_sub(b), a >= b),
            ALUOperation::ASL => (b << 1u8, b & 0x80 != 0),
            ALUOperation::ROL => ((b << 1u8) | cin, b & 0x80 != 0),
            ALUOperation::LSR => (b >> 1u8, b & 1 != 0),
            ALUOperation::ROR => ((b >> 1u8) | (if c { 0x80u8 } else { 0u8 }), b & 1 != 0),
            ALUOperation::INC => (b.wrapping_add(1), c),
            ALUOperation::DEC => (b.wrapping_sub(1), c),
            _ => (b, c),
        };
        self.output = Some(output);
        self.carry = carry;
        None
    }

    fn adc(a: u8, b: u8, carry: bool) -> (r: (u8, bool))
        ensures
            r == add_with_carry(a, b, carry),
    {
        let sum: u16 = a as u16 + b as u16 + if carry { 1u16 } else { 0u16 };
        ((sum % 256) as u8, sum > 255)
    }
}

} // verus!
