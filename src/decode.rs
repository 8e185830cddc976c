use vstd::prelude::*;

use crate::isa::{
    classify, ea_no_disp, ea_with_disp, register_for, Add, Cmp, EffectiveAddressCalc, Instruction,
    Mov, Opcode, Operand, Register, Sub,
};
use crate::word::{
    sign_extend, sign_extended, signed_byte, signed_word, to_signed_byte, word_value, Word,
};

verus! {

/// Why an instruction could not be decoded.
#[derive(Clone, Copy, Debug, PartialEq, Eq, Structural)]
pub enum DecodeError {
    /// No classification rule matches the leading byte.
    UnknownOpcode(u8),
    /// The instruction runs past the end of the buffer.
    Truncated,
}

/// The byte at `i`, if there is one.
pub open spec fn byte_at(b: Seq<u8>, i: int) -> Option<u8> {
    if 0 <= i < b.len() {
        Some(b[i])
    } else {
        None
    }
}

/// The little-endian word at `i`, if both of its bytes are there.
pub open spec fn word_at(b: Seq<u8>, i: int) -> Option<u16> {
    if 0 <= i && i + 1 < b.len() {
        Some(word_value(b[i], b[i + 1]))
    } else {
        None
    }
}

/// The operand that MOD and R/M select, read from position `q` on: the
/// operand and the position after its displacement.
pub open spec fn rm_operand(b: Seq<u8>, q: int, mode: u8, rm: u8, wide: bool) -> Option<
    (Operand, int),
> {
    if mode == 0 {
        if rm == 6 {
            match word_at(b, q) {
                Some(a) => Some(
                    (Operand::MemoryAddress(EffectiveAddressCalc::DirectAddress(a)), q + 2),
                ),
                None => None,
            }
        } else {
            Some((Operand::MemoryAddress(ea_no_disp(rm, 0)), q))
        }
    } else if mode == 1 {
        match byte_at(b, q) {
            Some(d) => Some(
                (Operand::MemoryAddress(ea_with_disp(rm, signed_byte(d) as i16)), q + 1),
            ),
            None => None,
        }
    } else if mode == 2 {
        match word_at(b, q) {
            Some(d) => Some((Operand::MemoryAddress(ea_with_disp(rm, signed_word(d))), q + 2)),
            None => None,
        }
    } else {
        Some((Operand::Register(register_for(rm, wide)), q))
    }
}

/// The register-memory form: D picks which side the REG field is on.
pub open spec fn rm_form(b: Seq<u8>, q: int, op: Opcode, lo: u8, hi: u8) -> Result<
    (Instruction, int),
    DecodeError,
> {
    let wide = lo % 2 == 1;
    let reg = Operand::Register(register_for((hi / 8) % 8, wide));
    match rm_operand(b, q, hi / 64, hi % 8, wide) {
        Some((other, end)) => if (lo / 2) % 2 == 1 {
            Ok((Instruction { opcode: op, source: Some(other), destination: reg }, end))
        } else {
            Ok((Instruction { opcode: op, source: Some(reg), destination: other }, end))
        },
        None => Err(DecodeError::Truncated),
    }
}

/// `mov` of an immediate to a register: the immediate starts in `hi`.
pub open spec fn imm_to_reg_form(b: Seq<u8>, q: int, op: Opcode, lo: u8, hi: u8) -> Result<
    (Instruction, int),
    DecodeError,
> {
    let wide = (lo / 8) % 2 == 1;
    let dst = Operand::Register(register_for(lo % 8, wide));
    if !wide {
        Ok(
            (
                Instruction {
                    opcode: op,
                    source: Some(Operand::Immediate(hi as u16)),
                    destination: dst,
                },
                q,
            ),
        )
    } else {
        match byte_at(b, q) {
            Some(h) => Ok(
                (
                    Instruction {
                        opcode: op,
                        source: Some(Operand::Immediate(word_value(hi, h))),
                        destination: dst,
                    },
                    q + 1,
                ),
            ),
            None => Err(DecodeError::Truncated),
        }
    }
}

/// An immediate to register or memory. With `extend`, S=1 and W=1 take one
/// byte, sign-extended; without it (the `mov` form) W alone decides.
pub open spec fn imm_to_rm_form(
    b: Seq<u8>,
    q: int,
    op: Opcode,
    lo: u8,
    hi: u8,
    extend: bool,
) -> Result<(Instruction, int), DecodeError> {
    let wide = lo % 2 == 1;
    let short = extend && (lo / 2) % 2 == 1;
    match rm_operand(b, q, hi / 64, hi % 8, wide) {
        Some((dst, p)) => if wide && !short {
            match word_at(b, p) {
                Some(v) => Ok(
                    (
                        Instruction {
                            opcode: op,
                            source: Some(Operand::WordImmediate(v)),
                            destination: dst,
                        },
                        p + 2,
                    ),
                ),
                None => Err(DecodeError::Truncated),
            }
        } else {
            match byte_at(b, p) {
                Some(v) => Ok(
                    (
                        Instruction {
                            opcode: op,
                            source: Some(
                                if wide {
                                    Operand::WordImmediate(sign_extended(v))
                                } else {
                                    Operand::ByteImmediate(v)
                                },
                            ),
                            destination: dst,
                        },
                        p + 1,
                    ),
                ),
                None => Err(DecodeError::Truncated),
            }
        },
        None => Err(DecodeError::Truncated),
    }
}

/// The value that starts in `hi` and, when `wide`, continues in the byte at
/// `q`: the value and the position after it.
pub open spec fn inline_value(b: Seq<u8>, q: int, hi: u8, wide: bool) -> Option<(u16, int)> {
    if wide {
        match byte_at(b, q) {
            Some(h) => Some((word_value(hi, h), q + 1)),
            None => None,
        }
    } else {
        Some((hi as u16, q))
    }
}

/// The accumulator forms: memory to `ax`, `ax` to memory, immediate to
/// `ax` or `al`.
pub open spec fn acc_form(b: Seq<u8>, q: int, op: Opcode, lo: u8, hi: u8) -> Result<
    (Instruction, int),
    DecodeError,
> {
    let wide = lo % 2 == 1;
    match inline_value(b, q, hi, wide) {
        Some((v, end)) => {
            let mem = Operand::MemoryAddress(EffectiveAddressCalc::DirectAddress(v));
            let ax = Operand::Register(Register::AX);
            let i = match op {
                Opcode::Mov(Mov::MemToAcc) => Instruction {
                    opcode: op,
                    source: Some(mem),
                    destination: ax,
                },
                Opcode::Mov(_) => Instruction { opcode: op, source: Some(ax), destination: mem },
                _ => Instruction {
                    opcode: op,
                    source: Some(Operand::Immediate(v)),
                    destination: Operand::Register(
                        if wide {
                            Register::AX
                        } else {
                            Register::AL
                        },
                    ),
                },
            };
            Ok((i, end))
        },
        None => Err(DecodeError::Truncated),
    }
}

/// The rest of an instruction of class `op` whose leading bytes are `lo`
/// and `hi`, read from position `q` on: the instruction and the position
/// after it.
pub open spec fn decode_body(b: Seq<u8>, q: int, op: Opcode, lo: u8, hi: u8) -> Result<
    (Instruction, int),
    DecodeError,
> {
    match op {
        Opcode::Mov(Mov::RM) | Opcode::Add(Add::RM) | Opcode::Sub(Sub::RM) | Opcode::Cmp(
            Cmp::RM,
        ) => rm_form(b, q, op, lo, hi),
        Opcode::Mov(Mov::ImmToReg) => imm_to_reg_form(b, q, op, lo, hi),
        Opcode::Mov(Mov::ImmToRegOrMem) => imm_to_rm_form(b, q, op, lo, hi, false),
        Opcode::Add(Add::ImmToRegOrMem) | Opcode::Sub(Sub::ImmToRegOrMem) | Opcode::Cmp(
            Cmp::ImmToRegOrMem,
        ) => imm_to_rm_form(b, q, op, lo, hi, true),
        Opcode::J(_) => Ok(
            (
                Instruction {
                    opcode: op,
                    source: None,
                    destination: Operand::InstPtrIncrement(signed_byte(hi)),
                },
                q,
            ),
        ),
        _ => acc_form(b, q, op, lo, hi),
    }
}

/// The instruction at position `p` of `b` and the position after it; `None`
/// when fewer than two bytes are left.
pub open spec fn decode_at(b: Seq<u8>, p: int) -> Option<Result<(Instruction, int), DecodeError>> {
    match word_at(b, p) {
        None => None,
        Some(_) => match classify(b[p], b[p + 1]) {
            None => Some(Err(DecodeError::UnknownOpcode(b[p]))),
            Some(op) => Some(decode_body(b, p + 2, op, b[p], b[p + 1])),
        },
    }
}

/// A decoded instruction is at least two bytes long and lies within the
/// buffer.
pub proof fn lemma_decode_advances(b: Seq<u8>, p: int)
    requires
        decode_at(b, p) matches Some(Ok(_)),
    ensures
        decode_at(b, p) matches Some(Ok((_, end))) && p + 2 <= end <= b.len(),
{
}

/// A forward reader over a machine-code buffer.
pub struct Decoder<'source> {
    input: &'source [u8],
    offset: usize,
    read_offset: usize,
}

impl<'source> Decoder<'source> {
    /// The buffer being decoded.
    pub closed spec fn bytes(&self) -> Seq<u8> {
        self.input@
    }

    /// The position of the next byte to read.
    pub closed spec fn position(&self) -> int {
        self.read_offset as int
    }

    /// A decoder at the start of `input`.
    pub fn new(input: &'source [u8]) -> (d: Self)
        ensures
            d.bytes() == input@,
            d.position() == 0,
    {
        Self { input, offset: 0, read_offset: 0 }
    }

    /// The position of the next byte to read.
    pub fn read_position(&self) -> (r: usize)
        ensures
            r as int == self.position(),
    {
        self.read_offset
    }

    /// Moves the read position to `pos`.
    pub fn seek(&mut self, pos: usize)
        ensures
            final(self).bytes() == old(self).bytes(),
            final(self).position() == pos,
    {
        self.read_offset = pos;
    }

    /// The word at the start of the most recent read.
    fn curr_word(&self) -> (r: Option<Word>)
        ensures
            r matches Some(w) ==> word_at(self.input@, self.offset as int) == Some(w.value()),
            r matches Some(w) ==> w.lo == self.input@[self.offset as int] && w.hi == self.input@[self.offset + 1],
            r is None <==> word_at(self.input@, self.offset as int) is None,
    {
        if self.offset < self.input.len() && self.input.len() - self.offset >= 2 {
            Some(Word { lo: self.input[self.offset], hi: self.input[self.offset + 1] })
        } else {
            None
        }
    }

    /// Reads one byte.
    fn next_byte(&mut self) -> (r: Option<u8>)
        ensures
            final(self).input == old(self).input,
            r == byte_at(old(self).input@, old(self).read_offset as int),
            final(self).read_offset == if r is Some {
                old(self).read_offset + 1
            } else {
                old(self).read_offset as int
            },
    {
        if self.read_offset < self.input.len() {
            let a = self.input[self.read_offset];
            self.offset = self.read_offset;
            self.read_offset = self.read_offset + 1;
            Some(a)
        } else {
            None
        }
    }

    /// Reads two bytes as a little-endian word.
    fn next_word(&mut self) -> (r: Option<Word>)
        ensures
            final(self).input == old(self).input,
            r matches Some(w) ==> word_at(old(self).input@, old(self).read_offset as int) == Some(
                w.value(),
            ),
            r matches Some(w) ==> w.lo == old(self).input@[old(self).read_offset as int] && w.hi
                == old(self).input@[old(self).read_offset + 1],
            r is None <==> word_at(old(self).input@, old(self).read_offset as int) is None,
            final(self).read_offset == if r is Some {
                old(self).read_offset + 2
            } else {
                old(self).read_offset as int
            },
    {
        if self.read_offset < self.input.len() && self.input.len() - self.read_offset >= 2 {
            self.offset = self.read_offset;
            self.read_offset = self.read_offset + 2;
            self.curr_word()
        } else {
            None
        }
    }
}

/// Whether an exec outcome and the cursor position after it agree with the
/// specified outcome `spec`.
pub open spec fn outcome_agrees(
    r: Result<Instruction, DecodeError>,
    pos: int,
    spec: Result<(Instruction, int), DecodeError>,
) -> bool {
    match spec {
        Ok((i, end)) => r == Ok::<Instruction, DecodeError>(i) && pos == end,
        Err(e) => r == Err::<Instruction, DecodeError>(e),
    }
}

impl<'source> Decoder<'source> {
    /// Reads the operand that MOD and R/M select, with its displacement.
    fn decode_rm(&mut self, mode: u8, rm: u8, wide: u8) -> (r: Result<Operand, DecodeError>)
        requires
            mode < 4,
            rm < 8,
            wide < 2,
        ensures
            final(self).input == old(self).input,
            match rm_operand(old(self).input@, old(self).read_offset as int, mode, rm, wide == 1) {
                Some((o, end)) => r == Ok::<Operand, DecodeError>(o) && final(self).read_offset
                    == end,
                None => r == Err::<Operand, DecodeError>(DecodeError::Truncated),
            },
    {
        if mode == 0 {
            if rm == 6 {
                match self.next_word() {
                    Some(w) => Ok(
                        Operand::MemoryAddress(EffectiveAddressCalc::with_no_disp(rm, w.to_u16())),
                    ),
                    None => Err(DecodeError::Truncated),
                }
            } else {
                Ok(Operand::MemoryAddress(EffectiveAddressCalc::with_no_disp(rm, 0)))
            }
        } else if mode == 1 {
            match self.next_byte() {
                Some(d) => Ok(
                    Operand::MemoryAddress(
                        EffectiveAddressCalc::with_disp(rm, to_signed_byte(d) as i16),
                    ),
                ),
                None => Err(DecodeError::Truncated),
            }
        } else if mode == 2 {
            match self.next_word() {
                Some(w) => Ok(
                    Operand::MemoryAddress(EffectiveAddressCalc::with_disp(rm, w.to_i16())),
                ),
                None => Err(DecodeError::Truncated),
            }
        } else {
            match Register::try_from(&rm, &wide) {
                Some(reg) => Ok(Operand::Register(reg)),
                None => Err(DecodeError::Truncated),
            }
        }
    }

    fn decode_register_memory_to_from_either(&mut self, opcode: Opcode, word: Word) -> (r: Result<
        Instruction,
        DecodeError,
    >)
        ensures
            final(self).input == old(self).input,
            outcome_agrees(
                r,
                final(self).read_offset as int,
                rm_form(old(self).input@, old(self).read_offset as int, opcode, word.lo, word.hi),
            ),
    {
        let reg_is_destination = (word.lo / 2) % 2 == 1;
        let wide = word.lo % 2;
        let mode = word.hi / 64;
        let reg_code = (word.hi / 8) % 8;
        let rm = word.hi % 8;
        let reg = match Register::try_from(&reg_code, &wide) {
            Some(reg) => Operand::Register(reg),
            None => return Err(DecodeError::Truncated),
        };
        let other = self.decode_rm(mode, rm, wide)?;
        if reg_is_destination {
            Ok(Instruction { opcode, source: Some(other), destination: reg })
        } else {
            Ok(Instruction { opcode, source: Some(reg), destination: other })
        }
    }

    fn decode_mov_immediate_to_register(&mut self, opcode: Opcode, word: Word) -> (r: Result<
        Instruction,
        DecodeError,
    >)
        ensures
            final(self).input == old(self).input,
            outcome_agrees(
                r,
                final(self).read_offset as int,
                imm_to_reg_form(
                    old(self).input@,
                    old(self).read_offset as int,
                    opcode,
                    word.lo,
                    word.hi,
                ),
            ),
    {
        let wide = (word.lo / 8) % 2;
        let reg_code = word.lo % 8;
        let source = if wide == 0 {
            Operand::Immediate(word.hi as u16)
        } else {
            match self.next_byte() {
                Some(h) => Operand::Immediate(Word::new(word.hi, h).to_u16()),
                None => return Err(DecodeError::Truncated),
            }
        };
        match Register::try_from(&reg_code, &wide) {
            Some(reg) => Ok(
                Instruction { opcode, source: Some(source), destination: Operand::Register(reg) },
            ),
            None => Err(DecodeError::Truncated),
        }
    }

    /// The immediate of the immediate-to-register-or-memory forms, read
    /// after the destination.
    fn decode_immediate(&mut self, wide: bool, short: bool) -> (r: Result<Operand, DecodeError>)
        ensures
            final(self).input == old(self).input,
            ({
                let b = old(self).input@;
                let p = old(self).read_offset as int;
                if wide && !short {
                    match word_at(b, p) {
                        Some(v) => r == Ok::<Operand, DecodeError>(Operand::WordImmediate(v))
                            && final(self).read_offset == p + 2,
                        None => r == Err::<Operand, DecodeError>(DecodeError::Truncated),
                    }
                } else {
                    match byte_at(b, p) {
                        Some(v) => r == Ok::<Operand, DecodeError>(
                            if wide {
                                Operand::WordImmediate(sign_extended(v))
                            } else {
                                Operand::ByteImmediate(v)
                            },
                        ) && final(self).read_offset == p + 1,
                        None => r == Err::<Operand, DecodeError>(DecodeError::Truncated),
                    }
                }
            }),
    {
        if wide && !short {
            match self.next_word() {
                Some(data) => Ok(Operand::WordImmediate(data.to_u16())),
                None => Err(DecodeError::Truncated),
            }
        } else {
            match self.next_byte() {
                Some(data) => if wide {
                    Ok(Operand::WordImmediate(sign_extend(data)))
                } else {
                    Ok(Operand::ByteImmediate(data))
                },
                None => Err(DecodeError::Truncated),
            }
        }
    }

    fn decode_mov_immediate_to_reg_or_memory(&mut self, opcode: Opcode, word: Word) -> (r: Result<
        Instruction,
        DecodeError,
    >)
        ensures
            final(self).input == old(self).input,
            outcome_agrees(
                r,
                final(self).read_offset as int,
                imm_to_rm_form(
                    old(self).input@,
                    old(self).read_offset as int,
                    opcode,
                    word.lo,
                    word.hi,
                    false,
                ),
            ),
    {
        let wide = word.lo % 2;
        let destination = self.decode_rm(word.hi / 64, word.hi % 8, wide)?;
        let source = self.decode_immediate(wide == 1, false)?;
        Ok(Instruction { opcode, source: Some(source), destination })
    }

    fn decode_immediate_to_reg_or_memory_with_sign_extension(
        &mut self,
        opcode: Opcode,
        word: Word,
    ) -> (r: Result<Instruction, DecodeError>)
        ensures
            final(self).input == old(self).input,
            outcome_agrees(
                r,
                final(self).read_offset as int,
                imm_to_rm_form(
                    old(self).input@,
                    old(self).read_offset as int,
                    opcode,
                    word.lo,
                    word.hi,
                    true,
                ),
            ),
    {
        let sign_extend = (word.lo / 2) % 2 == 1;
        let wide = word.lo % 2;
        let destination = self.decode_rm(word.hi / 64, word.hi % 8, wide)?;
        let source = self.decode_immediate(wide == 1, sign_extend)?;
        Ok(Instruction { opcode, source: Some(source), destination })
    }

    /// The address or immediate that starts in `hi` and, when `wide`,
    /// continues in the next byte.
    fn decode_inline_value(&mut self, hi: u8, wide: bool) -> (r: Option<u16>)
        ensures
            final(self).input == old(self).input,
            match inline_value(old(self).input@, old(self).read_offset as int, hi, wide) {
                Some((v, end)) => r == Some(v) && final(self).read_offset == end,
                None => r is None,
            },
    {
        if wide {
            match self.next_byte() {
                Some(h) => Some(Word::new(hi, h).to_u16()),
                None => None,
            }
        } else {
            Some(hi as u16)
        }
    }

    fn decode_mov_mem_to_acc(&mut self, opcode: Opcode, word: Word) -> (r: Result<
        Instruction,
        DecodeError,
    >)
        requires
            opcode == Opcode::Mov(Mov::MemToAcc),
        ensures
            final(self).input == old(self).input,
            outcome_agrees(
                r,
                final(self).read_offset as int,
                acc_form(old(self).input@, old(self).read_offset as int, opcode, word.lo, word.hi),
            ),
    {
        match self.decode_inline_value(word.hi, word.lo % 2 == 1) {
            Some(addr) => Ok(
                Instruction {
                    opcode,
                    source: Some(
                        Operand::MemoryAddress(EffectiveAddressCalc::DirectAddress(addr)),
                    ),
                    destination: Operand::Register(Register::AX),
                },
            ),
            None => Err(DecodeError::Truncated),
        }
    }

    fn decode_mov_acc_to_mem(&mut self, opcode: Opcode, word: Word) -> (r: Result<
        Instruction,
        DecodeError,
    >)
        requires
            opcode == Opcode::Mov(Mov::AccToMem),
        ensures
            final(self).input == old(self).input,
            outcome_agrees(
                r,
                final(self).read_offset as int,
                acc_form(old(self).input@, old(self).read_offset as int, opcode, word.lo, word.hi),
            ),
    {
        match self.decode_inline_value(word.hi, word.lo % 2 == 1) {
            Some(addr) => Ok(
                Instruction {
                    opcode,
                    source: Some(Operand::Register(Register::AX)),
                    destination: Operand::MemoryAddress(EffectiveAddressCalc::DirectAddress(addr)),
                },
            ),
            None => Err(DecodeError::Truncated),
        }
    }

    fn decode_immediate_to_acc(&mut self, opcode: Opcode, word: Word) -> (r: Result<
        Instruction,
        DecodeError,
    >)
        requires
            !(opcode is Mov),
        ensures
            final(self).input == old(self).input,
            outcome_agrees(
                r,
                final(self).read_offset as int,
                acc_form(old(self).input@, old(self).read_offset as int, opcode, word.lo, word.hi),
            ),
    {
        let wide = word.lo % 2 == 1;
        match self.decode_inline_value(word.hi, wide) {
            Some(imm) => Ok(
                Instruction {
                    opcode,
                    source: Some(Operand::Immediate(imm)),
                    destination: Operand::Register(
                        if wide {
                            Register::AX
                        } else {
                            Register::AL
                        },
                    ),
                },
            ),
            None => Err(DecodeError::Truncated),
        }
    }

    fn decode_jump(&self, opcode: Opcode, word: Word) -> (r: Instruction)
        ensures
            r == (Instruction {
                opcode,
                source: None,
                destination: Operand::InstPtrIncrement(signed_byte(word.hi)),
            }),
    {
        Instruction {
            opcode,
            source: None,
            destination: Operand::InstPtrIncrement(to_signed_byte(word.hi)),
        }
    }

    /// Decodes the instruction at the read position and moves past it. At
    /// the end of the buffer (fewer than two bytes left) it returns
    /// `Ok(None)`; on an error the position is left where it was.
    pub fn decode_next(&mut self) -> (r: Result<Option<Instruction>, DecodeError>)
        ensures
            final(self).bytes() == old(self).bytes(),
            match decode_at(old(self).bytes(), old(self).position()) {
                None => r == Ok::<Option<Instruction>, DecodeError>(None)
                    && final(self).position() == old(self).position(),
                Some(Err(e)) => r == Err::<Option<Instruction>, DecodeError>(e)
                    && final(self).position() == old(self).position(),
                Some(Ok((i, end))) => r == Ok::<Option<Instruction>, DecodeError>(Some(i))
                    && final(self).position() == end,
            },
    {
        let start = self.read_offset;
        let word = match self.next_word() {
            Some(w) => w,
            None => return Ok(None),
        };
        let opcode = match Opcode::try_from(&word) {
            Some(op) => op,
            None => {
                self.read_offset = start;
                return Err(DecodeError::UnknownOpcode(word.lo));
            },
        };
        let decoded = match opcode {
            Opcode::Mov(m) => match m {
                Mov::ImmToReg => self.decode_mov_immediate_to_register(opcode, word),
                Mov::RM => self.decode_register_memory_to_from_either(opcode, word),
                Mov::ImmToRegOrMem => self.decode_mov_immediate_to_reg_or_memory(opcode, word),
                Mov::MemToAcc => self.decode_mov_mem_to_acc(opcode, word),
                Mov::AccToMem => self.decode_mov_acc_to_mem(opcode, word),
            },
            Opcode::Add(a) => match a {
                Add::RM => self.decode_register_memory_to_from_either(opcode, word),
                Add::ImmToRegOrMem => self.decode_immediate_to_reg_or_memory_with_sign_extension(
                    opcode,
                    word,
                ),
                Add::ImmToAcc => self.decode_immediate_to_acc(opcode, word),
            },
            Opcode::Sub(s) => match s {
                Sub::RM => self.decode_register_memory_to_from_either(opcode, word),
                Sub::ImmToRegOrMem => self.decode_immediate_to_reg_or_memory_with_sign_extension(
                    opcode,
                    word,
                ),
                Sub::ImmToAcc => self.decode_immediate_to_acc(opcode, word),
            },
            Opcode::Cmp(c) => match c {
                Cmp::RM => self.decode_register_memory_to_from_either(opcode, word),
                Cmp::ImmToRegOrMem => self.decode_immediate_to_reg_or_memory_with_sign_extension(
                    opcode,
                    word,
                ),
                Cmp::ImmToAcc => self.decode_immediate_to_acc(opcode, word),
            },
            Opcode::J(_) => Ok(self.decode_jump(opcode, word)),
        };
        match decoded {
            Ok(i) => Ok(Some(i)),
            Err(e) => {
                self.read_offset = start;
                Err(e)
            },
        }
    }
}

} // verus!
