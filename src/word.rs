use vstd::prelude::*;

verus! {

/// A 16-bit little-endian value held as its two bytes.
#[derive(Clone, Copy, Debug, PartialEq, Eq, Structural, Default)]
pub struct Word {
    pub lo: u8,
    pub hi: u8,
}

/// The unsigned value of a word: `hi * 256 + lo`.
pub open spec fn word_value(lo: u8, hi: u8) -> u16 {
    (hi * 256 + lo) as u16
}

/// A byte read as a two's-complement signed value.
pub open spec fn signed_byte(b: u8) -> i8 {
    if b < 128 {
        b as i8
    } else {
        (b - 256) as i8
    }
}

/// A word read as a two's-complement signed value.
pub open spec fn signed_word(v: u16) -> i16 {
    if v < 0x8000 {
        v as i16
    } else {
        (v - 0x10000) as i16
    }
}

/// A byte sign-extended to sixteen bits.
pub open spec fn sign_extended(b: u8) -> u16 {
    if b < 128 {
        b as u16
    } else {
        (b + 0xFF00) as u16
    }
}

impl Word {
    /// The unsigned value of the word.
    pub open spec fn value(self) -> u16 {
        word_value(self.lo, self.hi)
    }

    /// Builds a word from its low and high bytes.
    pub fn new(lo: u8, hi: u8) -> (w: Word)
        ensures
            w.lo == lo,
            w.hi == hi,
    {
        Word { lo, hi }
    }

    /// The unsigned reading of the word.
    pub fn to_u16(self) -> (v: u16)
        ensures
            v == self.value(),
            v as int == self.hi * 256 + self.lo,
    {
        self.hi as u16 * 256 + self.lo as u16
    }

    /// Splits a 16-bit value into its low and high bytes.
    pub fn from_u16(v: u16) -> (w: Word)
        ensures
            w.lo == v % 256,
            w.hi == v / 256,
            w.value() == v,
    {
        Word { lo: (v % 256) as u8, hi: (v / 256) as u8 }
    }

    /// The two's-complement signed reading of the word.
    pub fn to_i16(self) -> (v: i16)
        ensures
            v == signed_word(self.value()),
    {
        let u = self.to_u16();
        if u < 0x8000 {
            u as i16
        } else {
            (u as i32 - 0x10000) as i16
        }
    }
}

/// `b` read as a two's-complement signed byte.
pub fn to_signed_byte(b: u8) -> (v: i8)
    ensures
        v == signed_byte(b),
{
    if b < 128 {
        b as i8
    } else {
        (b as i16 - 256) as i8
    }
}

/// `b` sign-extended to sixteen bits.
pub fn sign_extend(b: u8) -> (v: u16)
    ensures
        v == sign_extended(b),
{
    if b < 128 {
        b as u16
    } else {
        b as u16 + 0xFF00
    }
}

/// Splitting a value into bytes and joining them back is exact, both ways.
pub proof fn lemma_word_round_trip(w: Word, v: u16)
    ensures
        word_value((v % 256) as u8, (v / 256) as u8) == v,
        (w.value() % 256) as u8 == w.lo,
        (w.value() / 256) as u8 == w.hi,
{
}

} // verus!
