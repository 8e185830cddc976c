use vstd::arithmetic::div_mod::{lemma_div_decreases, lemma_small_mod};
use vstd::prelude::*;

use crate::decode::{decode_at, lemma_decode_advances, DecodeError, Decoder};
use crate::exec::{Flags, Registers, RegistersDiff};
use crate::isa::{EffectiveAddressCalc, Instruction, Opcode, Operand, Register, J};

verus! {

/// The text of one decimal or hexadecimal digit.
pub open spec fn digit_text(d: nat) -> Seq<char> {
    if d == 0 {
        "0"@
    } else if d == 1 {
        "1"@
    } else if d == 2 {
        "2"@
    } else if d == 3 {
        "3"@
    } else if d == 4 {
        "4"@
    } else if d == 5 {
        "5"@
    } else if d == 6 {
        "6"@
    } else if d == 7 {
        "7"@
    } else if d == 8 {
        "8"@
    } else if d == 9 {
        "9"@
    } else if d == 10 {
        "a"@
    } else if d == 11 {
        "b"@
    } else if d == 12 {
        "c"@
    } else if d == 13 {
        "d"@
    } else if d == 14 {
        "e"@
    } else {
        "f"@
    }
}

/// `n` written in base `radix`, most significant digit first, with no
/// leading zeros.
pub open spec fn digits(n: nat, radix: nat) -> Seq<char>
    decreases n,
    via digits_decreases
{
    if n < radix || radix < 2 {
        digit_text(n)
    } else {
        digits(n / radix, radix) + digit_text(n % radix)
    }
}

#[via_fn]
proof fn digits_decreases(n: nat, radix: nat) {
    if !(n < radix || radix < 2) {
        lemma_div_decreases(n as int, radix as int);
    }
}

/// `n` in decimal.
pub open spec fn decimal(n: int) -> Seq<char> {
    digits(n as nat, 10)
}

/// `n` in decimal, with a leading `-` when negative.
pub open spec fn signed_decimal(n: int) -> Seq<char> {
    if n < 0 {
        "-"@ + decimal(-n)
    } else {
        decimal(n)
    }
}

fn digit_str(d: u32) -> (s: &'static str)
    requires
        d < 16,
    ensures
        s@ == digit_text(d as nat),
{
    match d {
        0 => "0",
        1 => "1",
        2 => "2",
        3 => "3",
        4 => "4",
        5 => "5",
        6 => "6",
        7 => "7",
        8 => "8",
        9 => "9",
        10 => "a",
        11 => "b",
        12 => "c",
        13 => "d",
        14 => "e",
        _ => "f",
    }
}

/// Appends `n` in base `radix`.
pub fn push_digits(out: &mut String, n: u32, radix: u32)
    requires
        2 <= radix <= 16,
    ensures
        final(out)@ == old(out)@ + digits(n as nat, radix as nat),
    decreases n,
{
    let ghost before = out@;
    if n >= radix {
        proof {
            lemma_div_decreases(n as int, radix as int);
        }
        push_digits(out, n / radix, radix);
    } else {
        proof {
            lemma_small_mod(n as nat, radix as nat);
        }
    }
    out.append(digit_str(n % radix));
    assert(out@ =~= before + digits(n as nat, radix as nat));
}

/// The assembler name of a register.
pub open spec fn register_name(r: Register) -> Seq<char> {
    match r {
        Register::AL => "al"@,
        Register::BL => "bl"@,
        Register::CL => "cl"@,
        Register::DL => "dl"@,
        Register::AH => "ah"@,
        Register::BH => "bh"@,
        Register::CH => "ch"@,
        Register::DH => "dh"@,
        Register::AX => "ax"@,
        Register::BX => "bx"@,
        Register::CX => "cx"@,
        Register::DX => "dx"@,
        Register::SI => "si"@,
        Register::DI => "di"@,
        Register::SP => "sp"@,
        Register::BP => "bp"@,
    }
}

/// The assembler mnemonic of a jump: its name in lower case.
pub open spec fn jump_name(j: J) -> Seq<char> {
    match j {
        J::Je => "je"@,
        J::Jl => "jl"@,
        J::Jle => "jle"@,
        J::Jb => "jb"@,
        J::Jbe => "jbe"@,
        J::Jp => "jp"@,
        J::Jo => "jo"@,
        J::Js => "js"@,
        J::Jne => "jne"@,
        J::Jnl => "jnl"@,
        J::Jg => "jg"@,
        J::Jnb => "jnb"@,
        J::Ja => "ja"@,
        J::Jnp => "jnp"@,
        J::Jno => "jno"@,
        J::Jns => "jns"@,
        J::Loop => "loop"@,
        J::Loopz => "loopz"@,
        J::Loopnz => "loopnz"@,
        J::Jcxz => "jcxz"@,
    }
}

/// The assembler mnemonic of an opcode.
pub open spec fn mnemonic(op: Opcode) -> Seq<char> {
    match op {
        Opcode::Mov(_) => "mov"@,
        Opcode::Add(_) => "add"@,
        Opcode::Sub(_) => "sub"@,
        Opcode::Cmp(_) => "cmp"@,
        Opcode::J(j) => jump_name(j),
    }
}

/// A displacement inside brackets: ` + k`, or ` - k` when negative.
pub open spec fn displacement_text(c: i16) -> Seq<char> {
    if c < 0 {
        " - "@ + decimal(-c)
    } else {
        " + "@ + decimal(c as int)
    }
}

/// An address expression in brackets, such as `[bp + si - 4]`.
pub open spec fn ea_text(e: EffectiveAddressCalc) -> Seq<char> {
    "["@ + match e {
        EffectiveAddressCalc::SingleReg(r) => register_name(r),
        EffectiveAddressCalc::SingleRegPlus(r, c) => register_name(r) + displacement_text(c),
        EffectiveAddressCalc::Plus(a, b) => register_name(a) + " + "@ + register_name(b),
        EffectiveAddressCalc::PlusConstant(a, b, c) => register_name(a) + " + "@ + register_name(b)
            + displacement_text(c),
        EffectiveAddressCalc::DirectAddress(v) => decimal(v as int),
    } + "]"@
}

/// A jump target relative to the start of the jump itself (`$`), which is
/// two bytes before the point the displacement counts from.
pub open spec fn jump_target_text(disp: i8) -> Seq<char> {
    let v = disp + 2;
    "$"@ + if v < 0 {
        "-"@ + decimal(-v)
    } else {
        "+"@ + decimal(v)
    }
}

/// An operand as the assembler writes it.
pub open spec fn operand_text(o: Operand) -> Seq<char> {
    match o {
        Operand::Register(r) => register_name(r),
        Operand::MemoryAddress(e) => ea_text(e),
        Operand::Immediate(v) => decimal(v as int),
        Operand::ByteImmediate(b) => "byte "@ + decimal(b as int),
        Operand::WordImmediate(w) => "word "@ + decimal(w as int),
        Operand::InstPtrIncrement(d) => jump_target_text(d),
    }
}

/// An instruction as one line of assembler: `mnem dst, src`, or `mnem dst`
/// when there is no source.
pub open spec fn instruction_text(i: Instruction) -> Seq<char> {
    match i.source {
        Some(src) => mnemonic(i.opcode) + " "@ + operand_text(i.destination) + ", "@
            + operand_text(src),
        None => mnemonic(i.opcode) + " "@ + operand_text(i.destination),
    }
}

impl Register {
    /// The assembler name of the register.
    pub fn name(&self) -> (s: &'static str)
        ensures
            s@ == register_name(*self),
    {
        match self {
            Register::AL => "al",
            Register::BL => "bl",
            Register::CL => "cl",
            Register::DL => "dl",
            Register::AH => "ah",
            Register::BH => "bh",
            Register::CH => "ch",
            Register::DH => "dh",
            Register::AX => "ax",
            Register::BX => "bx",
            Register::CX => "cx",
            Register::DX => "dx",
            Register::SI => "si",
            Register::DI => "di",
            Register::SP => "sp",
            Register::BP => "bp",
        }
    }
}

impl Opcode {
    /// The assembler mnemonic of the opcode.
    pub fn mnemonic(&self) -> (s: &'static str)
        ensures
            s@ == mnemonic(*self),
    {
        match self {
            Opcode::Mov(_) => "mov",
            Opcode::Add(_) => "add",
            Opcode::Sub(_) => "sub",
            Opcode::Cmp(_) => "cmp",
            Opcode::J(j) => match j {
                J::Je => "je",
                J::Jl => "jl",
                J::Jle => "jle",
                J::Jb => "jb",
                J::Jbe => "jbe",
                J::Jp => "jp",
                J::Jo => "jo",
                J::Js => "js",
                J::Jne => "jne",
                J::Jnl => "jnl",
                J::Jg => "jg",
                J::Jnb => "jnb",
                J::Ja => "ja",
                J::Jnp => "jnp",
                J::Jno => "jno",
                J::Jns => "jns",
                J::Loop => "loop",
                J::Loopz => "loopz",
                J::Loopnz => "loopnz",
                J::Jcxz => "jcxz",
            },
        }
    }
}

/// Appends `n` in decimal.
fn push_decimal(out: &mut String, n: u32)
    ensures
        final(out)@ == old(out)@ + decimal(n as int),
{
    push_digits(out, n, 10);
}

fn push_displacement(out: &mut String, c: i16)
    ensures
        final(out)@ == old(out)@ + displacement_text(c),
{
    let ghost before = out@;
    if c < 0 {
        out.append(" - ");
        push_decimal(out, (-(c as i32)) as u32);
    } else {
        out.append(" + ");
        push_decimal(out, c as u32);
    }
    assert(out@ =~= before + displacement_text(c));
}

fn push_ea(out: &mut String, e: &EffectiveAddressCalc)
    ensures
        final(out)@ == old(out)@ + ea_text(*e),
{
    let ghost before = out@;
    out.append("[");
    match e {
        EffectiveAddressCalc::SingleReg(r) => out.append(r.name()),
        EffectiveAddressCalc::SingleRegPlus(r, c) => {
            out.append(r.name());
            push_displacement(out, *c);
        },
        EffectiveAddressCalc::Plus(a, b) => {
            out.append(a.name());
            out.append(" + ");
            out.append(b.name());
        },
        EffectiveAddressCalc::PlusConstant(a, b, c) => {
            out.append(a.name());
            out.append(" + ");
            out.append(b.name());
            push_displacement(out, *c);
        },
        EffectiveAddressCalc::DirectAddress(v) => push_decimal(out, *v as u32),
    }
    out.append("]");
    assert(out@ =~= before + ea_text(*e));
}

fn push_operand(out: &mut String, o: &Operand)
    ensures
        final(out)@ == old(out)@ + operand_text(*o),
{
    let ghost before = out@;
    match o {
        Operand::Register(r) => out.append(r.name()),
        Operand::MemoryAddress(e) => push_ea(out, e),
        Operand::Immediate(v) => push_decimal(out, *v as u32),
        Operand::ByteImmediate(b) => {
            out.append("byte ");
            push_decimal(out, *b as u32);
        },
        Operand::WordImmediate(w) => {
            out.append("word ");
            push_decimal(out, *w as u32);
        },
        Operand::InstPtrIncrement(d) => {
            let v = *d as i32 + 2;
            out.append("$");
            if v < 0 {
                out.append("-");
                push_decimal(out, (-v) as u32);
            } else {
                out.append("+");
                push_decimal(out, v as u32);
            }
        },
    }
    assert(out@ =~= before + operand_text(*o));
}

impl Instruction {
    /// The instruction as one line of assembler, without the line break.
    pub fn text(&self) -> (s: String)
        ensures
            s@ == instruction_text(*self),
    {
        let mut out = String::new();
        out.append(self.opcode.mnemonic());
        out.append(" ");
        push_operand(&mut out, &self.destination);
        match &self.source {
            Some(src) => {
                out.append(", ");
                push_operand(&mut out, src);
            },
            None => {},
        }
        proof {
            assert(out@ =~= instruction_text(*self));
        }
        out
    }
}

/// `s` put in front of the text in `r`; an error stays as it is.
pub open spec fn prepend(s: Seq<char>, r: Result<Seq<char>, DecodeError>) -> Result<
    Seq<char>,
    DecodeError,
> {
    match r {
        Ok(t) => Ok(s + t),
        Err(e) => Err(e),
    }
}

/// The listing of the instructions from position `p` on, one per line; the
/// first decoding error, if any.
pub open spec fn listing_from(b: Seq<u8>, p: int) -> Result<Seq<char>, DecodeError>
    decreases b.len() - p,
    via listing_from_decreases
{
    match decode_at(b, p) {
        None => Ok(Seq::empty()),
        Some(Err(e)) => Err(e),
        Some(Ok((i, end))) => prepend(instruction_text(i) + "\n"@, listing_from(b, end)),
    }
}

#[via_fn]
proof fn listing_from_decreases(b: Seq<u8>, p: int) {
    if decode_at(b, p) matches Some(Ok(_)) {
        lemma_decode_advances(b, p);
    }
}

/// The listing of a whole buffer: the line `bits 16`, a blank line, then one
/// line per instruction.
pub open spec fn listing(b: Seq<u8>) -> Result<Seq<char>, DecodeError> {
    prepend("bits 16\n\n"@, listing_from(b, 0))
}

proof fn lemma_prepend_twice(s: Seq<char>, t: Seq<char>, r: Result<Seq<char>, DecodeError>)
    ensures
        prepend(s, prepend(t, r)) == prepend(s + t, r),
{
    if let Ok(u) = r {
        assert(s + (t + u) =~= (s + t) + u);
    }
}

/// Disassembles a whole buffer into a listing that an 8086 assembler takes
/// back; fails with the first decoding error.
pub fn disassemble(input: &[u8]) -> (r: Result<String, DecodeError>)
    ensures
        match r {
            Ok(s) => listing(input@) == Ok::<Seq<char>, DecodeError>(s@),
            Err(e) => listing(input@) == Err::<Seq<char>, DecodeError>(e),
        },
{
    let mut decoder = Decoder::new(input);
    let mut out = String::new();
    out.append("bits 16\n\n");
    loop
        invariant
            decoder.bytes() == input@,
            0 <= decoder.position() <= input@.len(),
            listing(input@) == prepend(out@, listing_from(input@, decoder.position())),
        decreases input@.len() - decoder.position(),
    {
        let ghost pos = decoder.position();
        match decoder.decode_next() {
            Ok(Some(i)) => {
                proof {
                    lemma_decode_advances(input@, pos);
                    lemma_prepend_twice(
                        out@,
                        instruction_text(i) + "\n"@,
                        listing_from(input@, decoder.position()),
                    );
                }
                let ghost before = out@;
                out.append(&i.text());
                out.append("\n");
                assert(out@ =~= before + (instruction_text(i) + "\n"@));
            },
            Ok(None) => {
                assert(out@ + Seq::<char>::empty() =~= out@);
                return Ok(out);
            },
            Err(e) => return Err(e),
        }
    }
}

/// A value as `{:#x}` writes it: `0x` and lower-case hex digits.
pub open spec fn hex_text(v: u16) -> Seq<char> {
    "0x"@ + digits(v as nat, 16)
}

/// A value as four hex digits after `0x`, zero-padded.
pub open spec fn hex4_text(v: u16) -> Seq<char> {
    "0x"@ + digit_text((v / 0x1000) as nat) + digit_text(((v / 0x100) % 16) as nat) + digit_text(
        ((v / 0x10) % 16) as nat,
    ) + digit_text((v % 16) as nat)
}

/// The flags that are set: `S` for sign, then `Z` for zero.
pub open spec fn flags_text(f: Flags) -> Seq<char> {
    (if f.sign {
        "S"@
    } else {
        Seq::empty()
    }) + if f.zero {
        "Z"@
    } else {
        Seq::empty()
    }
}

/// `acc` with `entry` added, after a `, ` unless `acc` is empty.
pub open spec fn add_entry(acc: Seq<char>, entry: Seq<char>) -> Seq<char> {
    if acc.len() == 0 {
        entry
    } else {
        acc + ", "@ + entry
    }
}

/// `acc` with `name:x->y` added when the register changed from `x` to `y`.
#[verifier::opaque]
pub open spec fn with_change(acc: Seq<char>, name: Seq<char>, x: u16, y: u16) -> Seq<char> {
    if x == y {
        acc
    } else {
        add_entry(acc, name + ":"@ + hex_text(x) + "->"@ + hex_text(y))
    }
}

/// The registers that differ between `a` and `b`, in the order `ax`, `bx`,
/// `cx`, `dx`, `sp`, `bp`, `si`, `di`, `ip`, `flags`, each as
/// `name:before->after`, separated by `, `.
pub open spec fn diff_text(a: Registers, b: Registers) -> Seq<char> {
    let empty = Seq::<char>::empty();
    let words = with_change(with_change(with_change(with_change(with_change(with_change(with_change(with_change(with_change(empty, "ax"@, a.ax.value(), b.ax.value()), "bx"@, a.bx.value(), b.bx.value()), "cx"@, a.cx.value(), b.cx.value()), "dx"@, a.dx.value(), b.dx.value()), "sp"@, a.sp.value(), b.sp.value()), "bp"@, a.bp.value(), b.bp.value()), "si"@, a.si.value(), b.si.value()), "di"@, a.di.value(), b.di.value()), "ip"@, a.ip.value(), b.ip.value());
    with_flags_change(words, a.flags, b.flags)
}

/// `acc` with `flags:x->y` added when the flags changed from `x` to `y`.
#[verifier::opaque]
pub open spec fn with_flags_change(acc: Seq<char>, x: Flags, y: Flags) -> Seq<char> {
    if x == y {
        acc
    } else {
        add_entry(acc, "flags:"@ + flags_text(x) + "->"@ + flags_text(y))
    }
}

/// One line of the register dump: the name right-aligned in five columns,
/// the value in padded hex and in decimal.
pub open spec fn dump_line(name: Seq<char>, v: u16) -> Seq<char> {
    "   "@ + name + ": "@ + hex4_text(v) + " ("@ + decimal(v as int) + ")\n"@
}

/// The register dump: one line per register and `ip`, then the flags.
pub open spec fn registers_text(r: Registers) -> Seq<char> {
    dump_line("ax"@, r.ax.value()) + dump_line("bx"@, r.bx.value()) + dump_line("cx"@, r.cx.value()) + dump_line("dx"@, r.dx.value()) + dump_line("sp"@, r.sp.value()) + dump_line("bp"@, r.bp.value()) + dump_line("si"@, r.si.value()) + dump_line("di"@, r.di.value()) + dump_line("ip"@, r.ip.value()) + "flags: "@
        + flags_text(r.flags)
}

fn push_hex(out: &mut String, v: u16)
    ensures
        final(out)@ == old(out)@ + hex_text(v),
{
    let ghost before = out@;
    out.append("0x");
    push_digits(out, v as u32, 16);
    assert(out@ =~= before + hex_text(v));
}

fn push_hex4(out: &mut String, v: u16)
    ensures
        final(out)@ == old(out)@ + hex4_text(v),
{
    let ghost before = out@;
    out.append("0x");
    out.append(digit_str((v / 0x1000) as u32));
    out.append(digit_str(((v / 0x100) % 16) as u32));
    out.append(digit_str(((v / 0x10) % 16) as u32));
    out.append(digit_str((v % 16) as u32));
    assert(out@ =~= before + hex4_text(v));
}

fn push_flags(out: &mut String, f: Flags)
    ensures
        final(out)@ == old(out)@ + flags_text(f),
{
    let ghost before = out@;
    if f.sign {
        out.append("S");
    }
    if f.zero {
        out.append("Z");
    }
    assert(out@ =~= before + flags_text(f));
}

fn push_separator(out: &mut String, empty: &mut bool)
    requires
        *old(empty) == (old(out)@.len() == 0),
    ensures
        !*final(empty),
        *old(empty) ==> final(out)@ == old(out)@,
        !*old(empty) ==> final(out)@ == old(out)@ + ", "@,
{
    if !*empty {
        out.append(", ");
    }
    *empty = false;
}

fn push_change(out: &mut String, empty: &mut bool, name: &str, x: u16, y: u16)
    requires
        *old(empty) == (old(out)@.len() == 0),
    ensures
        *final(empty) == (final(out)@.len() == 0),
        final(out)@ == with_change(old(out)@, name@, x, y),
{
    reveal(with_change);
    if x != y {
        let ghost before = out@;
        push_separator(out, empty);
        out.append(name);
        out.append(":");
        push_hex(out, x);
        out.append("->");
        push_hex(out, y);
        proof {
            reveal_strlit(":");
        }
        assert(out@ =~= add_entry(before, name@ + ":"@ + hex_text(x) + "->"@ + hex_text(y)));
    }
}

fn push_flags_change(out: &mut String, empty: &mut bool, x: Flags, y: Flags)
    requires
        *old(empty) == (old(out)@.len() == 0),
    ensures
        final(out)@ == with_flags_change(old(out)@, x, y),
{
    reveal(with_flags_change);
    if x != y {
        let ghost before = out@;
        push_separator(out, empty);
        out.append("flags:");
        push_flags(out, x);
        out.append("->");
        push_flags(out, y);
        assert(out@ =~= add_entry(before, "flags:"@ + flags_text(x) + "->"@ + flags_text(y)));
    }
}

impl RegistersDiff {
    /// The registers that changed, as `name:before->after` separated by `, `.
    pub fn text(&self) -> (s: String)
        ensures
            s@ == diff_text(self.0, self.1),
    {
        let a = &self.0;
        let b = &self.1;
        let mut out = String::new();
        let mut empty = true;
        push_change(&mut out, &mut empty, "ax", a.ax.to_u16(), b.ax.to_u16());
        push_change(&mut out, &mut empty, "bx", a.bx.to_u16(), b.bx.to_u16());
        push_change(&mut out, &mut empty, "cx", a.cx.to_u16(), b.cx.to_u16());
        push_change(&mut out, &mut empty, "dx", a.dx.to_u16(), b.dx.to_u16());
        push_change(&mut out, &mut empty, "sp", a.sp.to_u16(), b.sp.to_u16());
        push_change(&mut out, &mut empty, "bp", a.bp.to_u16(), b.bp.to_u16());
        push_change(&mut out, &mut empty, "si", a.si.to_u16(), b.si.to_u16());
        push_change(&mut out, &mut empty, "di", a.di.to_u16(), b.di.to_u16());
        push_change(&mut out, &mut empty, "ip", a.ip.to_u16(), b.ip.to_u16());
        push_flags_change(&mut out, &mut empty, a.flags, b.flags);
        out
    }
}

fn push_dump_line(out: &mut String, name: &str, v: u16)
    ensures
        final(out)@ == old(out)@ + dump_line(name@, v),
{
    let ghost before = out@;
    out.append("   ");
    out.append(name);
    out.append(": ");
    push_hex4(out, v);
    out.append(" (");
    push_decimal(out, v as u32);
    out.append(")\n");
    assert(out@ =~= before + dump_line(name@, v));
}

impl Registers {
    /// The register dump: one line per register, then the flags.
    pub fn text(&self) -> (s: String)
        ensures
            s@ == registers_text(*self),
    {
        let mut out = String::new();
        push_dump_line(&mut out, "ax", self.ax.to_u16());
        push_dump_line(&mut out, "bx", self.bx.to_u16());
        push_dump_line(&mut out, "cx", self.cx.to_u16());
        push_dump_line(&mut out, "dx", self.dx.to_u16());
        push_dump_line(&mut out, "sp", self.sp.to_u16());
        push_dump_line(&mut out, "bp", self.bp.to_u16());
        push_dump_line(&mut out, "si", self.si.to_u16());
        push_dump_line(&mut out, "di", self.di.to_u16());
        push_dump_line(&mut out, "ip", self.ip.to_u16());
        out.append("flags: ");
        push_flags(&mut out, self.flags);
        proof {
            assert(out@ =~= registers_text(*self));
        }
        out
    }
}

} // verus!
