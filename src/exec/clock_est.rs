use vstd::prelude::*;

use crate::isa::{Add, EffectiveAddressCalc, Instruction, Mov, Opcode, Operand, Register};

verus! {

/// The clock cost of computing an effective address of shape `e`; `None`
/// for register pairs that no encoding produces.
pub open spec fn ea_cost(e: EffectiveAddressCalc) -> Option<usize> {
    match e {
        EffectiveAddressCalc::SingleReg(_) => Some(5),
        EffectiveAddressCalc::SingleRegPlus(_, d) => Some(
            if d == 0 {
                5
            } else {
                9
            },
        ),
        EffectiveAddressCalc::Plus(base, index) => match (base, index) {
            (Register::BP, Register::DI) | (Register::BX, Register::SI) => Some(7),
            (Register::BP, Register::SI) | (Register::BX, Register::DI) => Some(8),
            _ => None,
        },
        EffectiveAddressCalc::PlusConstant(base, index, _) => match (base, index) {
            (Register::BP, Register::DI) | (Register::BX, Register::SI) => Some(11),
            (Register::BP, Register::SI) | (Register::BX, Register::DI) => Some(12),
            _ => None,
        },
        EffectiveAddressCalc::DirectAddress(_) => Some(6),
    }
}

/// A base cost plus the cost of the effective address `e`.
pub open spec fn with_ea(base: usize, e: EffectiveAddressCalc) -> Option<(usize, Option<usize>)> {
    match ea_cost(e) {
        Some(c) => Some((base, Some(c))),
        None => None,
    }
}

/// The estimated clocks of `i` as a base and an effective-address cost;
/// `None` for the forms that the estimate does not cover.
pub open spec fn clock_of(i: Instruction) -> Option<(usize, Option<usize>)> {
    match (i.opcode, i.destination, i.source) {
        (Opcode::Mov(Mov::RM), Operand::Register(_), Some(Operand::Register(_))) => Some((2, None)),
        (Opcode::Mov(Mov::RM), Operand::Register(_), Some(Operand::MemoryAddress(e))) => with_ea(
            8,
            e,
        ),
        (Opcode::Mov(Mov::RM), Operand::MemoryAddress(e), Some(Operand::Register(_))) => with_ea(
            9,
            e,
        ),
        (Opcode::Mov(Mov::ImmToReg), _, _) => Some((4, None)),
        (Opcode::Mov(Mov::MemToAcc), _, _) => Some((10, None)),
        (Opcode::Mov(Mov::AccToMem), _, _) => Some((10, None)),
        (Opcode::Add(Add::RM), Operand::Register(_), Some(Operand::Register(_))) => Some((3, None)),
        (Opcode::Add(Add::RM), Operand::Register(_), Some(Operand::MemoryAddress(e))) => with_ea(
            9,
            e,
        ),
        (Opcode::Add(Add::RM), Operand::MemoryAddress(e), Some(Operand::Register(_))) => with_ea(
            16,
            e,
        ),
        (
            Opcode::Add(Add::ImmToRegOrMem),
            Operand::Register(_),
            Some(Operand::WordImmediate(_)),
        ) => Some((4, None)),
        _ => None,
    }
}

/// The clocks of the effective-address computation of `eac`.
pub fn ea_clock(eac: &EffectiveAddressCalc) -> (r: Option<usize>)
    ensures
        r == ea_cost(*eac),
{
    match eac {
        EffectiveAddressCalc::SingleReg(_) => Some(5),
        EffectiveAddressCalc::SingleRegPlus(_, d) => {
            if *d == 0 {
                Some(5)
            } else {
                Some(9)
            }
        },
        EffectiveAddressCalc::Plus(base, index) => match (base, index) {
            (Register::BP, Register::DI) | (Register::BX, Register::SI) => Some(7),
            (Register::BP, Register::SI) | (Register::BX, Register::DI) => Some(8),
            _ => None,
        },
        EffectiveAddressCalc::PlusConstant(base, index, _) => match (base, index) {
            (Register::BP, Register::DI) | (Register::BX, Register::SI) => Some(11),
            (Register::BP, Register::SI) | (Register::BX, Register::DI) => Some(12),
            _ => None,
        },
        EffectiveAddressCalc::DirectAddress(_) => Some(6),
    }
}

/// An estimate of the clocks an instruction takes: a base cost and, for a
/// memory operand, the cost of its effective address.
#[derive(Clone, Copy, Debug, PartialEq, Eq, Structural)]
pub struct ClockEstimate {
    pub base: usize,
    pub ea: Option<usize>,
}

impl ClockEstimate {
    /// The effective-address cost, zero when there is none.
    pub open spec fn ea_or_zero(self) -> int {
        match self.ea {
            Some(c) => c as int,
            None => 0,
        }
    }

    /// The total: base plus effective-address cost.
    pub fn value(&self) -> (v: usize)
        requires
            self.base + self.ea_or_zero() <= usize::MAX,
        ensures
            v == self.base + self.ea_or_zero(),
    {
        match self.ea {
            Some(c) => self.base + c,
            None => self.base,
        }
    }

    fn with_ea(base: usize, eac: &EffectiveAddressCalc) -> (r: Option<ClockEstimate>)
        ensures
            r == (match with_ea(base, *eac) {
                Some((b, e)) => Some(ClockEstimate { base: b, ea: e }),
                None => None,
            }),
    {
        match ea_clock(eac) {
            Some(c) => Some(ClockEstimate { base, ea: Some(c) }),
            None => None,
        }
    }

    /// The estimate for `i`, for the forms that the clock table covers.
    pub fn estimate(i: &Instruction) -> (r: Option<ClockEstimate>)
        ensures
            r == (match clock_of(*i) {
                Some((b, e)) => Some(ClockEstimate { base: b, ea: e }),
                None => None,
            }),
    {
        match (i.opcode, i.destination, i.source) {
            (Opcode::Mov(Mov::RM), Operand::Register(_), Some(Operand::Register(_))) => Some(ClockEstimate { base: 2, ea: None }),
            (Opcode::Mov(Mov::RM), Operand::Register(_), Some(Operand::MemoryAddress(e))) => {
                Self::with_ea(8, &e)
            },
            (Opcode::Mov(Mov::RM), Operand::MemoryAddress(e), Some(Operand::Register(_))) => {
                Self::with_ea(9, &e)
            },
            (Opcode::Mov(Mov::ImmToReg), _, _) => Some(ClockEstimate { base: 4, ea: None }),
            (Opcode::Mov(Mov::MemToAcc), _, _) => Some(ClockEstimate { base: 10, ea: None }),
            (Opcode::Mov(Mov::AccToMem), _, _) => Some(ClockEstimate { base: 10, ea: None }),
            (Opcode::Add(Add::RM), Operand::Register(_), Some(Operand::Register(_))) => Some(ClockEstimate { base: 3, ea: None }),
            (Opcode::Add(Add::RM), Operand::Register(_), Some(Operand::MemoryAddress(e))) => {
                Self::with_ea(9, &e)
            },
            (Opcode::Add(Add::RM), Operand::MemoryAddress(e), Some(Operand::Register(_))) => {
                Self::with_ea(16, &e)
            },
            (
                Opcode::Add(Add::ImmToRegOrMem),
                Operand::Register(_),
                Some(Operand::WordImmediate(_)),
            ) => Some(ClockEstimate { base: 4, ea: None }),
            _ => None,
        }
    }
}

} // verus!
