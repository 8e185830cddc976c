use vstd::arithmetic::div_mod::lemma_mod_multiples_vanish;
use vstd::prelude::*;

use crate::decode::{decode_at, Decoder, DecodeError};
use crate::isa::{EffectiveAddressCalc, Instruction, Opcode, Operand, Register, J};
use crate::word::Word;

pub mod clock_est;

verus! {

/// The size of the simulated memory, in bytes.
pub const MEMORY_SIZE: usize = 65536;

/// The condition flags that the simulator models.
#[derive(Clone, Copy, Debug, PartialEq, Eq, Structural)]
pub struct Flags {
    pub sign: bool,
    pub zero: bool,
}

/// The register file: eight wide registers, the flags and the instruction
/// pointer.
#[derive(Clone, Copy, Debug, PartialEq, Eq, Structural)]
pub struct Registers {
    pub ax: Word,
    pub bx: Word,
    pub cx: Word,
    pub dx: Word,
    pub sp: Word,
    pub bp: Word,
    pub si: Word,
    pub di: Word,
    pub flags: Flags,
    pub ip: Word,
}

/// The word whose value is `v`.
pub open spec fn word_of(v: u16) -> Word {
    Word { lo: (v % 256) as u8, hi: (v / 256) as u8 }
}

/// `w` with its low byte replaced by the low byte of `v`.
pub open spec fn with_lo(w: Word, v: u16) -> Word {
    Word { lo: (v % 256) as u8, hi: w.hi }
}

/// `w` with its high byte replaced by the low byte of `v`.
pub open spec fn with_hi(w: Word, v: u16) -> Word {
    Word { lo: w.lo, hi: (v % 256) as u8 }
}

impl Registers {
    /// The value of `r`: a byte register reads as its byte alone.
    pub open spec fn read(self, r: Register) -> u16 {
        match r {
            Register::AL => self.ax.lo as u16,
            Register::BL => self.bx.lo as u16,
            Register::CL => self.cx.lo as u16,
            Register::DL => self.dx.lo as u16,
            Register::AH => self.ax.hi as u16,
            Register::BH => self.bx.hi as u16,
            Register::CH => self.cx.hi as u16,
            Register::DH => self.dx.hi as u16,
            Register::AX => self.ax.value(),
            Register::BX => self.bx.value(),
            Register::CX => self.cx.value(),
            Register::DX => self.dx.value(),
            Register::SI => self.si.value(),
            Register::DI => self.di.value(),
            Register::SP => self.sp.value(),
            Register::BP => self.bp.value(),
        }
    }

    /// The register file after `r` is set to `v`: a byte register takes the
    /// low byte of `v` and keeps the other half of its wide register.
    pub open spec fn write(self, r: Register, v: u16) -> Registers {
        match r {
            Register::AL => Registers { ax: with_lo(self.ax, v), ..self },
            Register::BL => Registers { bx: with_lo(self.bx, v), ..self },
            Register::CL => Registers { cx: with_lo(self.cx, v), ..self },
            Register::DL => Registers { dx: with_lo(self.dx, v), ..self },
            Register::AH => Registers { ax: with_hi(self.ax, v), ..self },
            Register::BH => Registers { bx: with_hi(self.bx, v), ..self },
            Register::CH => Registers { cx: with_hi(self.cx, v), ..self },
            Register::DH => Registers { dx: with_hi(self.dx, v), ..self },
            Register::AX => Registers { ax: word_of(v), ..self },
            Register::BX => Registers { bx: word_of(v), ..self },
            Register::CX => Registers { cx: word_of(v), ..self },
            Register::DX => Registers { dx: word_of(v), ..self },
            Register::SI => Registers { si: word_of(v), ..self },
            Register::DI => Registers { di: word_of(v), ..self },
            Register::SP => Registers { sp: word_of(v), ..self },
            Register::BP => Registers { bp: word_of(v), ..self },
        }
    }

    /// All registers zero, both flags clear.
    pub open spec fn zeroed() -> Registers {
        let z = Word { lo: 0, hi: 0 };
        Registers {
            ax: z,
            bx: z,
            cx: z,
            dx: z,
            sp: z,
            bp: z,
            si: z,
            di: z,
            flags: Flags { sign: false, zero: false },
            ip: z,
        }
    }

    /// A register file with every register zero and both flags clear.
    pub fn new() -> (r: Registers)
        ensures
            r == Registers::zeroed(),
    {
        let z = Word { lo: 0, hi: 0 };
        Registers {
            ax: z,
            bx: z,
            cx: z,
            dx: z,
            sp: z,
            bp: z,
            si: z,
            di: z,
            flags: Flags { sign: false, zero: false },
            ip: z,
        }
    }

    /// Reads `reg`; a byte register yields its byte alone.
    pub fn get_reg(&self, reg: &Register) -> (v: u16)
        ensures
            v == self.read(*reg),
    {
        match reg {
            Register::AL => self.ax.lo as u16,
            Register::BL => self.bx.lo as u16,
            Register::CL => self.cx.lo as u16,
            Register::DL => self.dx.lo as u16,
            Register::AH => self.ax.hi as u16,
            Register::BH => self.bx.hi as u16,
            Register::CH => self.cx.hi as u16,
            Register::DH => self.dx.hi as u16,
            Register::AX => self.ax.to_u16(),
            Register::BX => self.bx.to_u16(),
            Register::CX => self.cx.to_u16(),
            Register::DX => self.dx.to_u16(),
            Register::SI => self.si.to_u16(),
            Register::DI => self.di.to_u16(),
            Register::SP => self.sp.to_u16(),
            Register::BP => self.bp.to_u16(),
        }
    }

    /// Writes `value` to `reg`; a byte register takes its low byte.
    pub fn set(&mut self, reg: &Register, value: u16)
        ensures
            *final(self) == old(self).write(*reg, value),
    {
        let b = (value % 256) as u8;
        match reg {
            Register::AL => self.ax.lo = b,
            Register::BL => self.bx.lo = b,
            Register::CL => self.cx.lo = b,
            Register::DL => self.dx.lo = b,
            Register::AH => self.ax.hi = b,
            Register::BH => self.bx.hi = b,
            Register::CH => self.cx.hi = b,
            Register::DH => self.dx.hi = b,
            Register::AX => self.ax = Word::from_u16(value),
            Register::BX => self.bx = Word::from_u16(value),
            Register::CX => self.cx = Word::from_u16(value),
            Register::DX => self.dx = Word::from_u16(value),
            Register::SI => self.si = Word::from_u16(value),
            Register::DI => self.di = Word::from_u16(value),
            Register::SP => self.sp = Word::from_u16(value),
            Register::BP => self.bp = Word::from_u16(value),
        }
    }

    /// The instruction pointer.
    pub fn ip(&self) -> (v: u16)
        ensures
            v == self.ip.value(),
    {
        self.ip.to_u16()
    }

    /// The condition flags.
    pub fn flags(&self) -> (f: Flags)
        ensures
            f == self.flags,
    {
        self.flags
    }
}

/// Writing `ax` and then `al` leaves the high byte of the first value under
/// the new low byte; writing `ah` keeps the low byte instead.
pub proof fn lemma_byte_aliased_writes(r: Registers, v: u16, b: u16)
    ensures
        r.write(Register::AX, v).write(Register::AL, b).read(Register::AX) == (v / 256) * 256 + b
            % 256,
        r.write(Register::AX, v).write(Register::AH, b).read(Register::AX) == (b % 256) * 256 + v
            % 256,
{
}

/// The address after `a`, wrapping at the top of memory.
pub open spec fn next_addr(a: u16) -> int {
    (a + 1) % 0x10000
}

/// The little-endian word at `a`.
pub open spec fn load_word(m: Seq<u8>, a: u16) -> Word {
    Word { lo: m[a as int], hi: m[next_addr(a)] }
}

/// `m` with the word `w` stored at `a`: `lo` at `a`, `hi` after it.
pub open spec fn store_word(m: Seq<u8>, a: u16, w: Word) -> Seq<u8> {
    m.update(a as int, w.lo).update(next_addr(a), w.hi)
}

/// A flat, zero-initialized memory of 65,536 bytes.
pub struct Memory {
    buffer: Vec<u8>,
}

impl View for Memory {
    type V = Seq<u8>;

    closed spec fn view(&self) -> Seq<u8> {
        self.buffer@
    }
}

impl Memory {
    #[verifier::type_invariant]
    spec fn inv(self) -> bool {
        self.buffer.len() == MEMORY_SIZE
    }

    /// A memory with every byte zero.
    pub fn new() -> (m: Self)
        ensures
            m@.len() == MEMORY_SIZE,
            forall|i: int| 0 <= i < MEMORY_SIZE ==> m@[i] == 0,
    {
        let mut buffer: Vec<u8> = Vec::new();
        let mut i: usize = 0;
        while i < MEMORY_SIZE
            invariant
                buffer.len() == i,
                i <= MEMORY_SIZE,
                forall|k: int| 0 <= k < i ==> buffer@[k] == 0,
            decreases MEMORY_SIZE - i,
        {
            buffer.push(0);
            i = i + 1;
        }
        Memory { buffer }
    }

    /// Stores `word` at `addr`, low byte first.
    pub fn store(&mut self, addr: u16, word: Word)
        ensures
            final(self)@ == store_word(old(self)@, addr, word),
        no_unwind
    {
        proof {
            use_type_invariant(&*self);
        }
        let next = if addr == 0xFFFF {
            0
        } else {
            addr as usize + 1
        };
        self.buffer[addr as usize] = word.lo;
        self.buffer[next] = word.hi;
    }

    /// Stores the byte `b` at `addr`.
    pub fn store_byte(&mut self, addr: u16, b: u8)
        ensures
            final(self)@ == old(self)@.update(addr as int, b),
        no_unwind
    {
        proof {
            use_type_invariant(&*self);
        }
        self.buffer[addr as usize] = b;
    }

    /// Loads the word at `addr`, low byte first.
    pub fn load(&self, addr: u16) -> (w: Word)
        ensures
            w == load_word(self@, addr),
    {
        proof {
            use_type_invariant(self);
        }
        let next = if addr == 0xFFFF {
            0
        } else {
            addr as usize + 1
        };
        Word { lo: self.buffer[addr as usize], hi: self.buffer[next] }
    }

    /// Loads the byte at `addr`.
    pub fn load_byte(&self, addr: u16) -> (b: u8)
        ensures
            b == self@[addr as int],
    {
        proof {
            use_type_invariant(self);
        }
        self.buffer[addr as usize]
    }

    /// A copy of the whole memory image.
    pub fn dump(&self) -> (r: Vec<u8>)
        ensures
            r@ == self@,
    {
        proof {
            use_type_invariant(self);
        }
        let mut r: Vec<u8> = Vec::new();
        let mut i: usize = 0;
        while i < self.buffer.len()
            invariant
                i <= self.buffer.len(),
                r@ == self.buffer@.subrange(0, i as int),
            decreases self.buffer.len() - i,
        {
            r.push(self.buffer[i]);
            i = i + 1;
            assert(r@ =~= self.buffer@.subrange(0, i as int));
        }
        assert(r@ =~= self.buffer@);
        r
    }
}

/// Storing a word and loading it back from the same address gives the word.
pub proof fn lemma_load_after_store(m: Seq<u8>, a: u16, w: Word)
    requires
        m.len() == MEMORY_SIZE,
    ensures
        load_word(store_word(m, a, w), a) == w,
{
}

/// Why an instruction could not be carried out.
#[derive(Clone, Copy, Debug, PartialEq, Eq, Structural)]
pub enum ExecError {
    /// The instruction stream could not be decoded.
    Decode(DecodeError),
    /// The instruction decodes, but its semantics are not modeled.
    Unsupported(Opcode),
}

/// Whether an instruction works on bytes: a byte register on either side,
/// or a byte immediate.
pub open spec fn is_byte_op(i: Instruction) -> bool {
    match i.destination {
        Operand::Register(r) => r.is_byte(),
        _ => match i.source {
            Some(Operand::Register(r)) => r.is_byte(),
            Some(Operand::ByteImmediate(_)) => true,
            _ => false,
        },
    }
}

/// The address that `e` denotes, modulo 2^16.
pub open spec fn ea_address(regs: Registers, e: EffectiveAddressCalc) -> u16 {
    match e {
        EffectiveAddressCalc::SingleReg(r) => regs.read(r),
        EffectiveAddressCalc::SingleRegPlus(r, d) => ((regs.read(r) + d) % 0x10000) as u16,
        EffectiveAddressCalc::Plus(a, b) => ((regs.read(a) + regs.read(b)) % 0x10000) as u16,
        EffectiveAddressCalc::PlusConstant(a, b, d) => ((regs.read(a) + regs.read(b) + d)
            % 0x10000) as u16,
        EffectiveAddressCalc::DirectAddress(a) => a,
    }
}

/// The value of an operand; a jump displacement has none.
pub open spec fn operand_value(regs: Registers, m: Seq<u8>, o: Operand, byte: bool) -> Option<
    u16,
> {
    match o {
        Operand::Register(r) => Some(regs.read(r)),
        Operand::MemoryAddress(e) => Some(
            if byte {
                m[ea_address(regs, e) as int] as u16
            } else {
                load_word(m, ea_address(regs, e)).value()
            },
        ),
        Operand::Immediate(v) => Some(v),
        Operand::WordImmediate(v) => Some(v),
        Operand::ByteImmediate(b) => Some(b as u16),
        Operand::InstPtrIncrement(_) => None,
    }
}

/// The state after `v` is written to operand `o`; only registers and
/// memory can be written.
pub open spec fn write_operand(regs: Registers, m: Seq<u8>, o: Operand, v: u16, byte: bool) -> Option<
    (Registers, Seq<u8>),
> {
    match o {
        Operand::Register(r) => Some((regs.write(r, v), m)),
        Operand::MemoryAddress(e) => Some(
            (
                regs,
                if byte {
                    m.update(ea_address(regs, e) as int, (v % 256) as u8)
                } else {
                    store_word(m, ea_address(regs, e), word_of(v))
                },
            ),
        ),
        _ => None,
    }
}

/// The wrapping sum (for `add`) or difference (for `sub` and `cmp`) of `d`
/// and `s`, modulo 2^8 or 2^16.
pub open spec fn arith_result(op: Opcode, d: u16, s: u16, byte: bool) -> u16 {
    let m: int = if byte {
        0x100
    } else {
        0x10000
    };
    (if op is Add {
        (d + s) % m
    } else {
        (d - s) % m
    }) as u16
}

/// The flags that a result sets: zero when it is zero, sign from its top bit.
pub open spec fn flags_for(v: u16, byte: bool) -> Flags {
    Flags {
        zero: v == 0,
        sign: if byte {
            v >= 0x80
        } else {
            v >= 0x8000
        },
    }
}

/// Whether `j` counts `cx` down before it tests.
pub open spec fn is_loop(j: J) -> bool {
    j is Loop || j is Loopz || j is Loopnz
}

/// Whether jump `j` is taken, given the flags and `cx` (after a loop's
/// decrement); `None` for the jumps whose flags are not modeled.
pub open spec fn jump_taken(j: J, f: Flags, cx: u16) -> Option<bool> {
    match j {
        J::Je => Some(f.zero),
        J::Jne => Some(!f.zero),
        J::Js => Some(f.sign),
        J::Jns => Some(!f.sign),
        J::Loop => Some(cx != 0),
        J::Loopz => Some(cx != 0 && f.zero),
        J::Loopnz => Some(cx != 0 && !f.zero),
        J::Jcxz => Some(cx == 0),
        _ => None,
    }
}

/// A jump by `disp` from `ip`: the registers after it and whether it was taken.
pub open spec fn jump_step(regs: Registers, j: J, disp: i8) -> Option<(Registers, bool)> {
    let counted = if is_loop(j) {
        regs.write(Register::CX, ((regs.cx.value() - 1) % 0x10000) as u16)
    } else {
        regs
    };
    match jump_taken(j, regs.flags, counted.cx.value()) {
        None => None,
        Some(false) => Some((counted, false)),
        Some(true) => Some(
            (
                Registers { ip: word_of(((regs.ip.value() + disp) % 0x10000) as u16), ..counted },
                true,
            ),
        ),
    }
}

/// One instruction carried out on registers `regs` (whose `ip` already
/// points past it) and memory `m`: the registers and memory after it, and
/// whether a jump was taken.
pub open spec fn step(regs: Registers, m: Seq<u8>, i: Instruction) -> Result<
    (Registers, Seq<u8>, bool),
    ExecError,
> {
    let byte = is_byte_op(i);
    let unsupported = Err(ExecError::Unsupported(i.opcode));
    match i.opcode {
        Opcode::J(j) => match i.destination {
            Operand::InstPtrIncrement(d) => match jump_step(regs, j, d) {
                Some((r, taken)) => Ok((r, m, taken)),
                None => unsupported,
            },
            _ => unsupported,
        },
        _ => match i.source {
            None => unsupported,
            Some(src) => match operand_value(regs, m, src, byte) {
                None => unsupported,
                Some(s) => if i.opcode is Mov {
                    match write_operand(regs, m, i.destination, s, byte) {
                        Some((r, m2)) => Ok((r, m2, false)),
                        None => unsupported,
                    }
                } else {
                    match operand_value(regs, m, i.destination, byte) {
                        None => unsupported,
                        Some(d) => {
                            let v = arith_result(i.opcode, d, s, byte);
                            let flagged = Registers { flags: flags_for(v, byte), ..regs };
                            if i.opcode is Cmp {
                                Ok((flagged, m, false))
                            } else {
                                match write_operand(flagged, m, i.destination, v, byte) {
                                    Some((r, m2)) => Ok((r, m2, false)),
                                    None => unsupported,
                                }
                            }
                        },
                    }
                },
            },
        },
    }
}

/// The register state before and after one instruction.
#[derive(Clone, Copy, Debug, PartialEq, Eq, Structural)]
pub struct RegistersDiff(pub Registers, pub Registers);

/// The simulator: registers, memory, and the decoder that feeds it.
pub struct Executor<'source> {
    pub memory: Memory,
    pub decoder: Decoder<'source>,
    pub registers: Registers,
}

impl<'source> Executor<'source> {
    /// The machine code being run.
    pub open spec fn program(&self) -> Seq<u8> {
        self.decoder.bytes()
    }

    /// The position in the machine code of the next instruction.
    pub open spec fn position(&self) -> int {
        self.decoder.position()
    }

    /// A simulator on zeroed registers and memory that runs what `decoder`
    /// reads.
    pub fn new(decoder: Decoder<'source>) -> (e: Self)
        ensures
            e.program() == decoder.bytes(),
            e.position() == decoder.position(),
            e.registers == Registers::zeroed(),
            e.memory@.len() == MEMORY_SIZE,
            forall|i: int| 0 <= i < MEMORY_SIZE ==> e.memory@[i] == 0,
    {
        Self { memory: Memory::new(), registers: Registers::new(), decoder }
    }

    fn resolve_eac(&self, eac: &EffectiveAddressCalc) -> (a: u16)
        ensures
            a == ea_address(self.registers, *eac),
    {
        match eac {
            EffectiveAddressCalc::SingleReg(reg) => self.registers.get_reg(reg),
            EffectiveAddressCalc::SingleRegPlus(reg, disp) => {
                let base = self.registers.get_reg(reg) as i32;
                let sum = base + *disp as i32 + 0x10000;
                proof {
                    lemma_mod_multiples_vanish(1, base + *disp as int, 0x10000);
                }
                (sum % 0x10000) as u16
            },
            EffectiveAddressCalc::Plus(reg, reg1) => {
                let x = self.registers.get_reg(reg) as u32;
                let y = self.registers.get_reg(reg1) as u32;
                ((x + y) % 0x10000) as u16
            },
            EffectiveAddressCalc::PlusConstant(reg, reg1, disp) => {
                let x = self.registers.get_reg(reg) as i32;
                let y = self.registers.get_reg(reg1) as i32;
                let sum = x + y + *disp as i32 + 0x10000;
                proof {
                    lemma_mod_multiples_vanish(1, x + y + *disp as int, 0x10000);
                }
                (sum % 0x10000) as u16
            },
            EffectiveAddressCalc::DirectAddress(addr) => *addr,
        }
    }

    fn eval_operand(&self, operand: &Operand, byte: bool) -> (v: Option<u16>)
        ensures
            v == operand_value(self.registers, self.memory@, *operand, byte),
    {
        match operand {
            Operand::Immediate(imm) => Some(*imm),
            Operand::Register(reg) => Some(self.registers.get_reg(reg)),
            Operand::MemoryAddress(eac) => {
                let addr = self.resolve_eac(eac);
                if byte {
                    Some(self.memory.load_byte(addr) as u16)
                } else {
                    Some(self.memory.load(addr).to_u16())
                }
            },
            Operand::ByteImmediate(imm) => Some(*imm as u16),
            Operand::WordImmediate(imm) => Some(*imm),
            Operand::InstPtrIncrement(_) => None,
        }
    }
}

/// Whether `post` holds the same registers, memory and position as `pre`.
pub open spec fn same_state(pre: Executor, post: Executor) -> bool {
    &&& post.registers == pre.registers
    &&& post.memory@ == pre.memory@
    &&& post.position() == pre.position()
}

/// Whether `post` and `r` are what carrying out `i` on `pre` gives: the step
/// of the semantics, with the decoder moved to a taken jump's target; on an
/// error nothing changes.
pub open spec fn carried_out(pre: Executor, post: Executor, i: Instruction, r: Result<
    (),
    ExecError,
>) -> bool {
    &&& post.program() == pre.program()
    &&& match step(pre.registers, pre.memory@, i) {
        Ok((regs, m, taken)) => {
            &&& r is Ok
            &&& post.registers == regs
            &&& post.memory@ == m
            &&& post.position() == if taken {
                regs.ip.value() as int
            } else {
                pre.position()
            }
        },
        Err(e) => r == Err::<(), ExecError>(e) && same_state(pre, post),
    }
}

fn is_byte_instruction(i: &Instruction) -> (b: bool)
    ensures
        b == is_byte_op(*i),
{
    match &i.destination {
        Operand::Register(r) => r.byte_sized(),
        _ => match &i.source {
            Some(Operand::Register(r)) => r.byte_sized(),
            Some(Operand::ByteImmediate(_)) => true,
            _ => false,
        },
    }
}

/// The result of `add`, `sub` or `cmp` on `d` and `s`.
fn arith_value(op: Opcode, d: u16, s: u16, byte: bool) -> (v: u16)
    ensures
        v == arith_result(op, d, s, byte),
{
    let m: u32 = if byte {
        0x100
    } else {
        0x10000
    };
    let r = match op {
        Opcode::Add(_) => (d as u32 + s as u32) % m,
        _ => {
            proof {
                lemma_mod_multiples_vanish(1, d - s, 0x10000);
                lemma_mod_multiples_vanish(0x100, d - s, 0x100);
            }
            (d as u32 + 0x10000 - s as u32) % m
        },
    };
    r as u16
}

impl<'source> Executor<'source> {
    /// Writes `v` to operand `o`; returns whether `o` can be written.
    fn write_operand(&mut self, o: &Operand, v: u16, byte: bool) -> (ok: bool)
        ensures
            final(self).decoder == old(self).decoder,
            match write_operand(old(self).registers, old(self).memory@, *o, v, byte) {
                Some((regs, m)) => ok && final(self).registers == regs && final(self).memory@ == m,
                None => !ok && final(self).registers == old(self).registers && final(self).memory@
                    == old(self).memory@,
            },
    {
        match o {
            Operand::Register(reg) => {
                self.registers.set(reg, v);
                true
            },
            Operand::MemoryAddress(eac) => {
                let addr = self.resolve_eac(eac);
                if byte {
                    self.memory.store_byte(addr, (v % 256) as u8);
                } else {
                    self.memory.store(addr, Word::from_u16(v));
                }
                true
            },
            _ => false,
        }
    }

    fn execute_mov(&mut self, i: &Instruction) -> (r: Result<(), ExecError>)
        requires
            i.opcode is Mov,
        ensures
            carried_out(*old(self), *final(self), *i, r),
    {
        let byte = is_byte_instruction(i);
        let value = match &i.source {
            Some(source) => match self.eval_operand(source, byte) {
                Some(v) => v,
                None => return Err(ExecError::Unsupported(i.opcode)),
            },
            None => return Err(ExecError::Unsupported(i.opcode)),
        };
        if self.write_operand(&i.destination, value, byte) {
            Ok(())
        } else {
            Err(ExecError::Unsupported(i.opcode))
        }
    }

    /// `add`, `sub` and `cmp`: the flags follow the result, and all but
    /// `cmp` write it back.
    fn execute_arith(&mut self, i: &Instruction) -> (r: Result<(), ExecError>)
        requires
            i.opcode is Add || i.opcode is Sub || i.opcode is Cmp,
        ensures
            carried_out(*old(self), *final(self), *i, r),
    {
        let byte = is_byte_instruction(i);
        let source_value = match &i.source {
            Some(source) => match self.eval_operand(source, byte) {
                Some(v) => v,
                None => return Err(ExecError::Unsupported(i.opcode)),
            },
            None => return Err(ExecError::Unsupported(i.opcode)),
        };
        let dest_value = match self.eval_operand(&i.destination, byte) {
            Some(v) => v,
            None => return Err(ExecError::Unsupported(i.opcode)),
        };
        let result = arith_value(i.opcode, dest_value, source_value, byte);
        let flags = Flags {
            zero: result == 0,
            sign: if byte {
                result >= 0x80
            } else {
                result >= 0x8000
            },
        };
        let saved = self.registers;
        self.registers.flags = flags;
        if let Opcode::Cmp(_) = i.opcode {
            return Ok(());
        }
        if self.write_operand(&i.destination, result, byte) {
            Ok(())
        } else {
            self.registers = saved;
            Err(ExecError::Unsupported(i.opcode))
        }
    }

    /// The conditional jumps and loops: a taken jump moves both `ip` and the
    /// decoder to `ip + disp`.
    fn execute_jump(&mut self, i: &Instruction) -> (r: Result<(), ExecError>)
        requires
            i.opcode is J,
        ensures
            carried_out(*old(self), *final(self), *i, r),
    {
        let disp = match i.destination {
            Operand::InstPtrIncrement(d) => d,
            _ => return Err(ExecError::Unsupported(i.opcode)),
        };
        let j = match i.opcode {
            Opcode::J(j) => j,
            _ => return Err(ExecError::Unsupported(i.opcode)),
        };
        let counts = match j {
            J::Loop | J::Loopz | J::Loopnz => true,
            _ => false,
        };
        let cx = self.registers.cx.to_u16();
        let count = if !counts {
            cx
        } else if cx == 0 {
            0xFFFF
        } else {
            cx - 1
        };
        let flags = self.registers.flags;
        let taken = match j {
            J::Je => flags.zero,
            J::Jne => !flags.zero,
            J::Js => flags.sign,
            J::Jns => !flags.sign,
            J::Loop => count != 0,
            J::Loopz => count != 0 && flags.zero,
            J::Loopnz => count != 0 && !flags.zero,
            J::Jcxz => count == 0,
            _ => return Err(ExecError::Unsupported(i.opcode)),
        };
        if counts {
            self.registers.cx = Word::from_u16(count);
        }
        if taken {
            let ip = self.registers.ip.to_u16() as i32;
            proof {
                lemma_mod_multiples_vanish(1, ip + disp as int, 0x10000);
            }
            let target = ((ip + disp as i32 + 0x10000) % 0x10000) as u16;
            self.decoder.seek(target as usize);
            self.registers.ip = Word::from_u16(target);
        }
        Ok(())
    }

    /// Decodes the next instruction and carries it out. `ip` is set past the
    /// instruction before it runs, so a taken jump lands at `ip + disp`.
    /// At the end of the machine code it returns `Ok(None)`; on an error the
    /// state is left as it was.
    pub fn execute_next(&mut self) -> (r: Result<Option<(Instruction, RegistersDiff)>, ExecError>)
        ensures
            final(self).program() == old(self).program(),
            match decode_at(old(self).program(), old(self).position()) {
                Some(Ok((i, end))) => r is Ok && !(i.opcode is J) 
                    ==> final(self).registers.ip.value() == end % 0x10000,
                _ => true,
            },
            match decode_at(old(self).program(), old(self).position()) {
                None => r == Ok::<Option<(Instruction, RegistersDiff)>, ExecError>(None)
                    && same_state(*old(self), *final(self)),
                Some(Err(e)) => r == Err::<Option<(Instruction, RegistersDiff)>, ExecError>(
                    ExecError::Decode(e),
                ) && same_state(*old(self), *final(self)),
                Some(Ok((i, end))) => {
                    let fetched = Registers {
                        ip: word_of((end % 0x10000) as u16),
                        ..old(self).registers
                    };
                    match step(fetched, old(self).memory@, i) {
                        Err(e) => r == Err::<Option<(Instruction, RegistersDiff)>, ExecError>(e)
                            && same_state(*old(self), *final(self)),
                        Ok((regs, m, taken)) => {
                            &&& r == Ok::<Option<(Instruction, RegistersDiff)>, ExecError>(
                                Some((i, RegistersDiff(old(self).registers, regs))),
                            )
                            &&& final(self).registers == regs
                            &&& final(self).memory@ == m
                            &&& final(self).position() == if taken {
                                regs.ip.value() as int
                            } else {
                                end
                            }
                        },
                    }
                },
            },
    {
        let before = self.registers;
        let start = self.decoder.read_position();
        let i = match self.decoder.decode_next() {
            Ok(Some(i)) => i,
            Ok(None) => return Ok(None),
            Err(e) => return Err(ExecError::Decode(e)),
        };
        let end = self.decoder.read_position();
        self.registers.ip = Word::from_u16((end % 0x10000) as u16);
        let result = match i.opcode {
            Opcode::Mov(_) => self.execute_mov(&i),
            Opcode::J(_) => self.execute_jump(&i),
            _ => self.execute_arith(&i),
        };
        match result {
            Ok(()) => Ok(Some((i, RegistersDiff(before, self.registers)))),
            Err(e) => {
                self.registers = before;
                self.decoder.seek(start);
                Err(e)
            },
        }
    }
}

/// Apart from a taken jump, carrying out an instruction leaves `ip` where
/// the fetch put it: just past the instruction.
pub proof fn lemma_ip_after_fetch(regs: Registers, m: Seq<u8>, i: Instruction)
    requires
        step(regs, m, i) is Ok,
    ensures
        !step(regs, m, i)->Ok_0.2 ==> step(regs, m, i)->Ok_0.0.ip == regs.ip,
        !(i.opcode is J) ==> !step(regs, m, i)->Ok_0.2,
{
}

/// `mov [a], ax` followed by `mov bx, [a]` leaves `bx` equal to the `ax`
/// that was stored, whatever `ax` and memory held.
pub proof fn lemma_memory_round_trip(regs: Registers, m: Seq<u8>, a: u16)
    requires
        m.len() == MEMORY_SIZE,
    ensures
        ({
            let store = Instruction {
                opcode: Opcode::Mov(crate::isa::Mov::RM),
                source: Some(Operand::Register(Register::AX)),
                destination: Operand::MemoryAddress(EffectiveAddressCalc::DirectAddress(a)),
            };
            let load = Instruction {
                opcode: Opcode::Mov(crate::isa::Mov::RM),
                source: Some(Operand::MemoryAddress(EffectiveAddressCalc::DirectAddress(a))),
                destination: Operand::Register(Register::BX),
            };
            &&& step(regs, m, store) is Ok
            &&& step(step(regs, m, store)->Ok_0.0, step(regs, m, store)->Ok_0.1, load) is Ok
            &&& step(
                step(regs, m, store)->Ok_0.0,
                step(regs, m, store)->Ok_0.1,
                load,
            )->Ok_0.0.read(Register::BX) == regs.read(Register::AX)
        }),
{
    let w = word_of(regs.ax.value());
    lemma_load_after_store(m, a, w);
}

} // verus!
