use vstd::prelude::*;

use crate::word::Word;

verus! {

/// The register names of the 8086: byte halves, wide registers, and the
/// pointer and index registers.
#[derive(Clone, Copy, Debug, PartialEq, Eq, Structural)]
pub enum Register {
    AL,
    BL,
    CL,
    DL,
    AH,
    BH,
    CH,
    DH,
    AX,
    BX,
    CX,
    DX,
    SI,
    DI,
    SP,
    BP,
}

/// The register that a 3-bit REG or R/M field names, at the given width.
pub open spec fn register_for(code: u8, wide: bool) -> Register {
    if wide {
        match code % 8 {
            0 => Register::AX,
            1 => Register::CX,
            2 => Register::DX,
            3 => Register::BX,
            4 => Register::SP,
            5 => Register::BP,
            6 => Register::SI,
            _ => Register::DI,
        }
    } else {
        match code % 8 {
            0 => Register::AL,
            1 => Register::CL,
            2 => Register::DL,
            3 => Register::BL,
            4 => Register::AH,
            5 => Register::CH,
            6 => Register::DH,
            _ => Register::BH,
        }
    }
}

impl Register {
    /// Whether this names one byte of a wide register.
    pub open spec fn is_byte(self) -> bool {
        match self {
            Register::AL | Register::BL | Register::CL | Register::DL | Register::AH
            | Register::BH | Register::CH | Register::DH => true,
            _ => false,
        }
    }

    /// Whether this names one byte of a wide register.
    pub fn byte_sized(&self) -> (b: bool)
        ensures
            b == self.is_byte(),
    {
        match self {
            Register::AL | Register::BL | Register::CL | Register::DL | Register::AH
            | Register::BH | Register::CH | Register::DH => true,
            _ => false,
        }
    }

    /// The register named by a 3-bit code and a width bit, if both are in range.
    pub fn try_from(code: &u8, wide: &u8) -> (r: Option<Register>)
        ensures
            r == (if *code < 8 && *wide < 2 {
                Some(register_for(*code, *wide == 1))
            } else {
                None
            }),
    {
        if *code >= 8 || *wide >= 2 {
            return None;
        }
        let r = if *wide == 1 {
            match *code {
                0 => Register::AX,
                1 => Register::CX,
                2 => Register::DX,
                3 => Register::BX,
                4 => Register::SP,
                5 => Register::BP,
                6 => Register::SI,
                _ => Register::DI,
            }
        } else {
            match *code {
                0 => Register::AL,
                1 => Register::CL,
                2 => Register::DL,
                3 => Register::BL,
                4 => Register::AH,
                5 => Register::CH,
                6 => Register::DH,
                _ => Register::BH,
            }
        };
        Some(r)
    }
}

/// Encodings of `mov`.
#[derive(Clone, Copy, Debug, PartialEq, Eq, Structural)]
pub enum Mov {
    RM,
    ImmToReg,
    ImmToRegOrMem,
    MemToAcc,
    AccToMem,
}

/// Encodings of `add`.
#[derive(Clone, Copy, Debug, PartialEq, Eq, Structural)]
pub enum Add {
    RM,
    ImmToRegOrMem,
    ImmToAcc,
}

/// Encodings of `sub`.
#[derive(Clone, Copy, Debug, PartialEq, Eq, Structural)]
pub enum Sub {
    RM,
    ImmToRegOrMem,
    ImmToAcc,
}

/// Encodings of `cmp`.
#[derive(Clone, Copy, Debug, PartialEq, Eq, Structural)]
pub enum Cmp {
    RM,
    ImmToRegOrMem,
    ImmToAcc,
}

/// The short conditional jumps and loops.
#[derive(Clone, Copy, Debug, PartialEq, Eq, Structural)]
pub enum J {
    Je,
    Jl,
    Jle,
    Jb,
    Jbe,
    Jp,
    Jo,
    Js,
    Jne,
    Jnl,
    Jg,
    Jnb,
    Ja,
    Jnp,
    Jno,
    Jns,
    Loop,
    Loopz,
    Loopnz,
    Jcxz,
}

/// An instruction family together with the encoding it was read from.
#[derive(Clone, Copy, Debug, PartialEq, Eq, Structural)]
pub enum Opcode {
    Mov(Mov),
    Add(Add),
    Sub(Sub),
    Cmp(Cmp),
    J(J),
}

/// The jump whose opcode is the whole byte `b`.
pub open spec fn jump_for(b: u8) -> Option<J> {
    match b {
        0x74 => Some(J::Je),
        0x7C => Some(J::Jl),
        0x7E => Some(J::Jle),
        0x72 => Some(J::Jb),
        0x76 => Some(J::Jbe),
        0x7A => Some(J::Jp),
        0x70 => Some(J::Jo),
        0x78 => Some(J::Js),
        0x75 => Some(J::Jne),
        0x7D => Some(J::Jnl),
        0x7F => Some(J::Jg),
        0x73 => Some(J::Jnb),
        0x77 => Some(J::Ja),
        0x7B => Some(J::Jnp),
        0x71 => Some(J::Jno),
        0x79 => Some(J::Jns),
        0xE2 => Some(J::Loop),
        0xE1 => Some(J::Loopz),
        0xE0 => Some(J::Loopnz),
        0xE3 => Some(J::Jcxz),
        _ => None,
    }
}

/// The classification of an instruction by its leading two bytes. The tests
/// are tried in order: the top six bits of `lo`, then its top four, then its
/// top seven, then the whole byte. For the immediate group `100000` the
/// family is chosen by bits 3 to 5 of `hi`.
pub open spec fn classify(lo: u8, hi: u8) -> Option<Opcode> {
    let six = lo / 4;
    let four = lo / 16;
    let seven = lo / 2;
    if six == 0x22 {
        Some(Opcode::Mov(Mov::RM))
    } else if six == 0x00 {
        Some(Opcode::Add(Add::RM))
    } else if six == 0x0A {
        Some(Opcode::Sub(Sub::RM))
    } else if six == 0x0E {
        Some(Opcode::Cmp(Cmp::RM))
    } else if six == 0x20 {
        let ext = (hi / 8) % 8;
        if ext == 0 {
            Some(Opcode::Add(Add::ImmToRegOrMem))
        } else if ext == 5 {
            Some(Opcode::Sub(Sub::ImmToRegOrMem))
        } else if ext == 7 {
            Some(Opcode::Cmp(Cmp::ImmToRegOrMem))
        } else {
            None
        }
    } else if four == 0x0B {
        Some(Opcode::Mov(Mov::ImmToReg))
    } else if seven == 0x63 {
        Some(Opcode::Mov(Mov::ImmToRegOrMem))
    } else if seven == 0x50 {
        Some(Opcode::Mov(Mov::MemToAcc))
    } else if seven == 0x51 {
        Some(Opcode::Mov(Mov::AccToMem))
    } else if seven == 0x02 {
        Some(Opcode::Add(Add::ImmToAcc))
    } else if seven == 0x16 {
        Some(Opcode::Sub(Sub::ImmToAcc))
    } else if seven == 0x1E {
        Some(Opcode::Cmp(Cmp::ImmToAcc))
    } else {
        match jump_for(lo) {
            Some(j) => Some(Opcode::J(j)),
            None => None,
        }
    }
}

fn jump_try_from(b: u8) -> (r: Option<J>)
    ensures
        r == jump_for(b),
{
    match b {
        0x74 => Some(J::Je),
        0x7C => Some(J::Jl),
        0x7E => Some(J::Jle),
        0x72 => Some(J::Jb),
        0x76 => Some(J::Jbe),
        0x7A => Some(J::Jp),
        0x70 => Some(J::Jo),
        0x78 => Some(J::Js),
        0x75 => Some(J::Jne),
        0x7D => Some(J::Jnl),
        0x7F => Some(J::Jg),
        0x73 => Some(J::Jnb),
        0x77 => Some(J::Ja),
        0x7B => Some(J::Jnp),
        0x71 => Some(J::Jno),
        0x79 => Some(J::Jns),
        0xE2 => Some(J::Loop),
        0xE1 => Some(J::Loopz),
        0xE0 => Some(J::Loopnz),
        0xE3 => Some(J::Jcxz),
        _ => None,
    }
}

impl Opcode {
    /// Classifies the instruction whose leading bytes are `word`.
    pub fn try_from(word: &Word) -> (r: Option<Opcode>)
        ensures
            r == classify(word.lo, word.hi),
    {
        let six = word.lo / 4;
        let four = word.lo / 16;
        let seven = word.lo / 2;
        if six == 0x22 {
            Some(Opcode::Mov(Mov::RM))
        } else if six == 0x00 {
            Some(Opcode::Add(Add::RM))
        } else if six == 0x0A {
            Some(Opcode::Sub(Sub::RM))
        } else if six == 0x0E {
            Some(Opcode::Cmp(Cmp::RM))
        } else if six == 0x20 {
            let ext = (word.hi / 8) % 8;
            if ext == 0 {
                Some(Opcode::Add(Add::ImmToRegOrMem))
            } else if ext == 5 {
                Some(Opcode::Sub(Sub::ImmToRegOrMem))
            } else if ext == 7 {
                Some(Opcode::Cmp(Cmp::ImmToRegOrMem))
            } else {
                None
            }
        } else if four == 0x0B {
            Some(Opcode::Mov(Mov::ImmToReg))
        } else if seven == 0x63 {
            Some(Opcode::Mov(Mov::ImmToRegOrMem))
        } else if seven == 0x50 {
            Some(Opcode::Mov(Mov::MemToAcc))
        } else if seven == 0x51 {
            Some(Opcode::Mov(Mov::AccToMem))
        } else if seven == 0x02 {
            Some(Opcode::Add(Add::ImmToAcc))
        } else if seven == 0x16 {
            Some(Opcode::Sub(Sub::ImmToAcc))
        } else if seven == 0x1E {
            Some(Opcode::Cmp(Cmp::ImmToAcc))
        } else {
            match jump_try_from(word.lo) {
                Some(j) => Some(Opcode::J(j)),
                None => None,
            }
        }
    }
}

/// The address expression of a memory operand.
#[derive(Clone, Copy, Debug, PartialEq, Eq, Structural)]
pub enum EffectiveAddressCalc {
    SingleReg(Register),
    SingleRegPlus(Register, i16),
    Plus(Register, Register),
    PlusConstant(Register, Register, i16),
    DirectAddress(u16),
}

/// The address expression for MOD `00`: the R/M code `6` stands for the
/// direct address `direct`.
pub open spec fn ea_no_disp(rm: u8, direct: u16) -> EffectiveAddressCalc {
    match rm {
        0 => EffectiveAddressCalc::Plus(Register::BX, Register::SI),
        1 => EffectiveAddressCalc::Plus(Register::BX, Register::DI),
        2 => EffectiveAddressCalc::Plus(Register::BP, Register::SI),
        3 => EffectiveAddressCalc::Plus(Register::BP, Register::DI),
        4 => EffectiveAddressCalc::SingleReg(Register::SI),
        5 => EffectiveAddressCalc::SingleReg(Register::DI),
        6 => EffectiveAddressCalc::DirectAddress(direct),
        _ => EffectiveAddressCalc::SingleReg(Register::BX),
    }
}

/// The address expression for MOD `01` and `10`, with displacement `disp`.
pub open spec fn ea_with_disp(rm: u8, disp: i16) -> EffectiveAddressCalc {
    match rm {
        0 => EffectiveAddressCalc::PlusConstant(Register::BX, Register::SI, disp),
        1 => EffectiveAddressCalc::PlusConstant(Register::BX, Register::DI, disp),
        2 => EffectiveAddressCalc::PlusConstant(Register::BP, Register::SI, disp),
        3 => EffectiveAddressCalc::PlusConstant(Register::BP, Register::DI, disp),
        4 => EffectiveAddressCalc::SingleRegPlus(Register::SI, disp),
        5 => EffectiveAddressCalc::SingleRegPlus(Register::DI, disp),
        6 => EffectiveAddressCalc::SingleRegPlus(Register::BP, disp),
        _ => EffectiveAddressCalc::SingleRegPlus(Register::BX, disp),
    }
}

impl EffectiveAddressCalc {
    /// See [`ea_no_disp`]; `direct` is read only for the R/M code `6`.
    pub(crate) fn with_no_disp(rm: u8, direct: u16) -> (r: Self)
        requires
            rm < 8,
        ensures
            r == ea_no_disp(rm, direct),
    {
        match rm {
            0 => Self::Plus(Register::BX, Register::SI),
            1 => Self::Plus(Register::BX, Register::DI),
            2 => Self::Plus(Register::BP, Register::SI),
            3 => Self::Plus(Register::BP, Register::DI),
            4 => Self::SingleReg(Register::SI),
            5 => Self::SingleReg(Register::DI),
            6 => Self::DirectAddress(direct),
            _ => Self::SingleReg(Register::BX),
        }
    }

    /// See [`ea_with_disp`].
    pub(crate) fn with_disp(rm: u8, disp: i16) -> (r: Self)
        requires
            rm < 8,
        ensures
            r == ea_with_disp(rm, disp),
    {
        match rm {
            0 => Self::PlusConstant(Register::BX, Register::SI, disp),
            1 => Self::PlusConstant(Register::BX, Register::DI, disp),
            2 => Self::PlusConstant(Register::BP, Register::SI, disp),
            3 => Self::PlusConstant(Register::BP, Register::DI, disp),
            4 => Self::SingleRegPlus(Register::SI, disp),
            5 => Self::SingleRegPlus(Register::DI, disp),
            6 => Self::SingleRegPlus(Register::BP, disp),
            _ => Self::SingleRegPlus(Register::BX, disp),
        }
    }
}

/// An operand of an instruction. The byte and word immediates keep the size
/// that the listing must spell out.
#[derive(Clone, Copy, Debug, PartialEq, Eq, Structural)]
pub enum Operand {
    Register(Register),
    MemoryAddress(EffectiveAddressCalc),
    Immediate(u16),
    ByteImmediate(u8),
    WordImmediate(u16),
    InstPtrIncrement(i8),
}

/// A decoded instruction. Jumps have no source; their destination is the
/// displacement from the next instruction.
#[derive(Clone, Copy, Debug, PartialEq, Eq, Structural)]
pub struct Instruction {
    pub opcode: Opcode,
    pub source: Option<Operand>,
    pub destination: Operand,
}

/// The leading bytes that the classifier recognizes: whole ranges of `lo`,
/// and for `0x80..=0x83` only the extensions `000`, `101` and `111` in `hi`.
pub open spec fn recognized_prefix(lo: u8, hi: u8) -> bool {
    ||| 0x00 <= lo <= 0x05
    ||| 0x28 <= lo <= 0x2D
    ||| 0x38 <= lo <= 0x3D
    ||| (0x80 <= lo <= 0x83 && ((hi / 8) % 8 == 0 || (hi / 8) % 8 == 5 || (hi / 8) % 8 == 7))
    ||| 0x88 <= lo <= 0x8B
    ||| 0xA0 <= lo <= 0xA3
    ||| 0xB0 <= lo <= 0xBF
    ||| 0xC6 <= lo <= 0xC7
    ||| 0x70 <= lo <= 0x7F
    ||| 0xE0 <= lo <= 0xE3
}

/// The classifier is total on the recognized prefixes and on nothing else:
/// it returns an opcode exactly for the leading bytes listed in the
/// classification table, and never for a leading `0xFF`, whatever follows.
pub proof fn lemma_classify_exactly_recognized(lo: u8, hi: u8)
    ensures
        classify(lo, hi) is Some <==> recognized_prefix(lo, hi),
        classify(0xFF, hi) is None,
{
}

} // verus!
