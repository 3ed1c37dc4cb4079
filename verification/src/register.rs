//! The register file: eight 8-bit cells, the flag byte, and the two 16-bit
//! cells for the program counter and the stack pointer.

use vstd::prelude::*;
use crate::helper::{combine_u8_to_u16, high_byte, low_byte, split_u16, word_of};
use crate::memory::MEM_SIZE;

verus! {

/// The four condition flags, held in the top nibble of the flag byte.
#[derive(Clone, Copy, Debug, PartialEq, Eq, Structural)]
pub enum Flags {
    /// Zero.
    Z,
    /// Subtract (negate).
    N,
    /// Half-carry.
    H,
    /// Carry.
    C,
}

impl Flags {
    /// The bit of the flag byte that holds this flag.
    pub open spec fn mask_spec(self) -> u8 {
        match self {
            Flags::Z => 0x80,
            Flags::N => 0x40,
            Flags::H => 0x20,
            Flags::C => 0x10,
        }
    }

    /// The bit of the flag byte that holds this flag.
    #[verifier::when_used_as_spec(mask_spec)]
    pub fn mask(self) -> (m: u8)
        ensures
            m == self.mask_spec(),
    {
        match self {
            Flags::Z => 0x80,
            Flags::N => 0x40,
            Flags::H => 0x20,
            Flags::C => 0x10,
        }
    }
}

/// The flag byte in which exactly the given flags are set; its low nibble
/// is zero.
pub open spec fn flag_byte(z: bool, n: bool, h: bool, c: bool) -> u8 {
    ((if z { 0x80int } else { 0 }) + (if n { 0x40int } else { 0 }) + (if h { 0x20int } else { 0 })
        + (if c { 0x10int } else { 0 })) as u8
}

/// Whether `flag` is set in the flag byte `f`.
pub open spec fn flag_in(f: u8, flag: Flags) -> bool {
    f & flag.mask_spec() != 0
}

/// The flag byte `f` after `flag` was written: the flag's bit holds `set`,
/// the other three flags are kept, and the low nibble is zero whatever `f`
/// held there.
pub open spec fn flag_written(f: u8, flag: Flags, set: bool) -> u8 {
    flag_byte(
        if flag == Flags::Z { set } else { flag_in(f, Flags::Z) },
        if flag == Flags::N { set } else { flag_in(f, Flags::N) },
        if flag == Flags::H { set } else { flag_in(f, Flags::H) },
        if flag == Flags::C { set } else { flag_in(f, Flags::C) },
    )
}

/// A flag byte built by `flag_byte` holds exactly the flags it was built
/// from, and nothing in its low nibble.
pub proof fn lemma_flag_byte(z: bool, n: bool, h: bool, c: bool)
    ensures
        flag_in(flag_byte(z, n, h, c), Flags::Z) == z,
        flag_in(flag_byte(z, n, h, c), Flags::N) == n,
        flag_in(flag_byte(z, n, h, c), Flags::H) == h,
        flag_in(flag_byte(z, n, h, c), Flags::C) == c,
        flag_byte(z, n, h, c) & 0x0F == 0,
{
    let f = flag_byte(z, n, h, c);
    assert(f & 0x80 != 0 <==> f >= 0x80) by (bit_vector);
    assert(f & 0x0F == 0 && (f & 0x40 != 0 <==> f % 0x80 >= 0x40) && (f & 0x20 != 0 <==> f % 0x40
        >= 0x20) && (f & 0x10 != 0 <==> f % 0x20 >= 0x10)) by (bit_vector)
        requires
            f % 0x10 == 0,
    ;
}

/// The register file. The pairs BC, DE, HL and AF are views of two 8-bit
/// cells each, high byte first, and are not stored apart from them.
pub struct Registers {
    pub a: u8,
    pub b: u8,
    pub c: u8,
    pub d: u8,
    pub e: u8,
    pub f: u8,
    pub h: u8,
    pub l: u8,
    pub pc: u16,
    pub sp: u16,
}

impl Default for Registers {
    /// All cells zero, but for the stack pointer, which starts near the top
    /// of the first memory bank.
    fn default() -> (r: Self)
        ensures
            r == Registers::default_spec(),
    {
        Self { a: 0, b: 0, c: 0, d: 0, e: 0, h: 0, l: 0, pc: 0, f: 0, sp: (MEM_SIZE - 0xE) as u16 }
    }
}

impl Registers {
    /// The register file after construction: every cell zero, but for the
    /// stack pointer, which starts fourteen bytes under the end of the first
    /// memory bank.
    pub open spec fn default_spec() -> Registers {
        Registers { a: 0, b: 0, c: 0, d: 0, e: 0, f: 0, h: 0, l: 0, pc: 0, sp: 0x3FF2 }
    }

    /// The pair BC as a word, B being the high byte.
    pub open spec fn bc(&self) -> u16 {
        word_of(self.b, self.c)
    }

    /// The pair DE as a word, D being the high byte.
    pub open spec fn de(&self) -> u16 {
        word_of(self.d, self.e)
    }

    /// The pair HL as a word, H being the high byte.
    pub open spec fn hl(&self) -> u16 {
        word_of(self.h, self.l)
    }

    /// The pair AF as a word, A being the high byte.
    pub open spec fn af(&self) -> u16 {
        word_of(self.a, self.f)
    }

    /// Whether `flag` is set.
    pub open spec fn flag_set(&self, flag: Flags) -> bool {
        flag_in(self.f, flag)
    }

    #[inline]
    fn write_u16_into_two_u8(v: u16, f: &mut u8, s: &mut u8)
        ensures
            *final(f) == high_byte(v),
            *final(s) == low_byte(v),
    {
        let (first, second) = split_u16(v);
        *f = first;
        *s = second;
    }

    /// The pair BC.
    pub fn get_bc(&self) -> (w: u16)
        ensures
            w == self.bc(),
    {
        combine_u8_to_u16(self.b, self.c)
    }

    /// The pair DE.
    pub fn get_de(&self) -> (w: u16)
        ensures
            w == self.de(),
    {
        combine_u8_to_u16(self.d, self.e)
    }

    /// The pair HL.
    pub fn get_hl(&self) -> (w: u16)
        ensures
            w == self.hl(),
    {
        combine_u8_to_u16(self.h, self.l)
    }

    /// The pair AF.
    pub fn get_af(&self) -> (w: u16)
        ensures
            w == self.af(),
    {
        combine_u8_to_u16(self.a, self.f)
    }

    /// Stores `value` in BC and hands it back.
    pub fn write_bc(&mut self, value: u16) -> (w: u16)
        ensures
            w == value,
            *final(self) == (Registers { b: high_byte(value), c: low_byte(value), ..*old(self) }),
            final(self).bc() == value,
    {
        Self::write_u16_into_two_u8(value, &mut self.b, &mut self.c);
        value
    }

    /// Stores `value` in DE and hands it back.
    pub fn write_de(&mut self, value: u16) -> (w: u16)
        ensures
            w == value,
            *final(self) == (Registers { d: high_byte(value), e: low_byte(value), ..*old(self) }),
            final(self).de() == value,
    {
        Self::write_u16_into_two_u8(value, &mut self.d, &mut self.e);
        value
    }

    /// Stores `value` in AF and hands it back. The flag byte takes the low
    /// byte as it is, low nibble included.
    pub fn write_af(&mut self, value: u16) -> (w: u16)
        ensures
            w == value,
            *final(self) == (Registers { a: high_byte(value), f: low_byte(value), ..*old(self) }),
            final(self).af() == value,
    {
        Self::write_u16_into_two_u8(value, &mut self.a, &mut self.f);
        value
    }

    /// Stores `value` in HL and hands it back.
    pub fn write_hl(&mut self, value: u16) -> (w: u16)
        ensures
            w == value,
            *final(self) == (Registers { h: high_byte(value), l: low_byte(value), ..*old(self) }),
            final(self).hl() == value,
    {
        Self::write_u16_into_two_u8(value, &mut self.h, &mut self.l);
        value
    }

    /// Sets or clears one flag and clears the low nibble of the flag byte,
    /// whatever it held. Hands the register file back for the next write.
    pub fn flag(&mut self, flag: Flags, set: bool) -> (r: &mut Self)
        ensures
            *r == (Registers { f: flag_written(old(self).f, flag, set), ..*old(self) }),
            *final(self) == *final(r),
            r.f & 0x0F == 0,
            r.flag_set(flag) == set,
            forall|other: Flags| other != flag ==> r.flag_set(other) == old(self).flag_set(other),
    {
        let mask = flag.mask();
        let f = self.f;
        proof {
            lemma_flag_written(f, flag, set);
        }
        if set {
            self.f |= mask;
        } else {
            self.f &= !mask;
        }
        self.f &= 0xF0;
        self
    }

    /// Whether a flag is set.
    pub fn get_flag(&self, flags: Flags) -> (set: bool)
        ensures
            set == self.flag_set(flags),
    {
        self.f & flags.mask() > 0
    }
}

/// Writing a flag bit by bit, and then masking the low nibble, gives the flag
/// byte that `flag_written` names; that byte holds the written flag, keeps the
/// three others and has nothing in its low nibble.
pub proof fn lemma_flag_written(f: u8, flag: Flags, set: bool)
    ensures
        set ==> (f | flag.mask_spec()) & 0xF0 == flag_written(f, flag, set),
        !set ==> (f & !flag.mask_spec()) & 0xF0 == flag_written(f, flag, set),
        flag_written(f, flag, set) & 0x0F == 0,
        flag_in(flag_written(f, flag, set), flag) == set,
        forall|other: Flags|
            other != flag ==> flag_in(flag_written(f, flag, set), other) == flag_in(f, other),
{
    let z = if flag == Flags::Z { set } else { flag_in(f, Flags::Z) };
    let n = if flag == Flags::N { set } else { flag_in(f, Flags::N) };
    let h = if flag == Flags::H { set } else { flag_in(f, Flags::H) };
    let c = if flag == Flags::C { set } else { flag_in(f, Flags::C) };
    lemma_flag_byte(z, n, h, c);
    let m = flag.mask_spec();
    let g = if set { (f | m) & 0xF0 } else { (f & !m) & 0xF0 };
    assert(m == 0x80 || m == 0x40 || m == 0x20 || m == 0x10);
    assert(g & 0x0F == 0 && ((g & m != 0) == set)
        && (m != 0x80 ==> (g & 0x80 != 0) == (f & 0x80 != 0))
        && (m != 0x40 ==> (g & 0x40 != 0) == (f & 0x40 != 0))
        && (m != 0x20 ==> (g & 0x20 != 0) == (f & 0x20 != 0))
        && (m != 0x10 ==> (g & 0x10 != 0) == (f & 0x10 != 0))) by (bit_vector)
        requires
            m == 0x80 || m == 0x40 || m == 0x20 || m == 0x10,
            g == if set { (f | m) & 0xF0 } else { (f & !m) & 0xF0 },
    ;
    lemma_nibble_byte(g);
}

/// A byte with nothing in its low nibble is the flag byte of its four top
/// bits.
pub proof fn lemma_nibble_byte(g: u8)
    requires
        g & 0x0F == 0,
    ensures
        g == flag_byte(g & 0x80 != 0, g & 0x40 != 0, g & 0x20 != 0, g & 0x10 != 0),
{
    assert(g == (if g & 0x80 != 0 { 0x80u8 } else { 0 }) + (if g & 0x40 != 0 { 0x40u8 } else { 0 })
        + (if g & 0x20 != 0 { 0x20u8 } else { 0 }) + (if g & 0x10 != 0 { 0x10u8 } else { 0 }))
        by (bit_vector)
        requires
            g & 0x0F == 0,
    ;
}

/// A word written to one of the pairs BC, DE, HL and AF is read back from it
/// as it was written, the low nibble of the flag byte included.
pub proof fn lemma_pair_round_trip(r: Registers, v: u16)
    ensures
        (Registers { b: high_byte(v), c: low_byte(v), ..r }).bc() == v,
        (Registers { d: high_byte(v), e: low_byte(v), ..r }).de() == v,
        (Registers { h: high_byte(v), l: low_byte(v), ..r }).hl() == v,
        (Registers { a: high_byte(v), f: low_byte(v), ..r }).af() == v,
{
}

} // verus!
