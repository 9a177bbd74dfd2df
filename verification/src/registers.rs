//! The processor's register file and its flag register.

use vstd::prelude::*;
use crate::util::{combine, split, word_of};

verus! {

/// The byte whose bits 7..4 are the four flags and whose low nibble is zero.
pub open spec fn flag_byte(z: bool, n: bool, h: bool, c: bool) -> u8 {
    (if z { 0x80u8 } else { 0u8 }) | (if n { 0x40u8 } else { 0u8 }) | (if h { 0x20u8 } else { 0u8 }) | (if c { 0x10u8 } else { 0u8 })
}

/// Facts about `flag_byte` and about the four flag bits of a byte.
pub proof fn lemma_flag_byte(z: bool, n: bool, h: bool, c: bool)
    by (bit_vector)
    ensures
        flag_byte(z, n, h, c) & 0x0F == 0,
        flag_byte(z, n, h, c) % 16 == 0,
        (flag_byte(z, n, h, c) & 0x80 != 0) == z,
        (flag_byte(z, n, h, c) & 0x40 != 0) == n,
        (flag_byte(z, n, h, c) & 0x20 != 0) == h,
        (flag_byte(z, n, h, c) & 0x10 != 0) == c,
{
}

/// Reading the four flag bits of a byte and packing them again keeps the
/// high nibble and clears the low one.
pub proof fn lemma_flag_bits_of_byte(v: u8)
    by (bit_vector)
    ensures
        flag_byte(v & 0x80 != 0, v & 0x40 != 0, v & 0x20 != 0, v & 0x10 != 0) == v & 0xF0,
{
}

/// The flag register: zero, subtract, half-carry and carry.
#[derive(Debug, Clone, Copy, PartialEq, Eq, Structural)]
pub struct Flag {
    pub zero_flag: bool,
    pub sub_flag: bool,
    pub half_carry_flag: bool,
    pub carry_flag: bool,
}

impl Default for Flag {
    fn default() -> (f: Self)
        ensures
            f == (Flag { zero_flag: false, sub_flag: false, half_carry_flag: false, carry_flag: false }),
    {
        Flag { zero_flag: false, sub_flag: false, half_carry_flag: false, carry_flag: false }
    }
}

impl Flag {
    /// The register as the byte that the processor reads.
    pub open spec fn bits(self) -> u8 {
        flag_byte(self.zero_flag, self.sub_flag, self.half_carry_flag, self.carry_flag)
    }

    /// The flags held in bits 7..4 of `value`.
    pub open spec fn of_bits(value: u8) -> Flag {
        Flag {
            zero_flag: value & 0x80 != 0,
            sub_flag: value & 0x40 != 0,
            half_carry_flag: value & 0x20 != 0,
            carry_flag: value & 0x10 != 0,
        }
    }

    pub fn z(&self) -> (b: bool)
        ensures
            b == self.zero_flag,
    {
        self.zero_flag
    }

    pub fn set_z(&mut self, z: bool)
        ensures
            *final(self) == (Flag { zero_flag: z, ..*old(self) }),
    {
        self.zero_flag = z
    }

    pub fn n(&self) -> (b: bool)
        ensures
            b == self.sub_flag,
    {
        self.sub_flag
    }

    pub fn set_n(&mut self, n: bool)
        ensures
            *final(self) == (Flag { sub_flag: n, ..*old(self) }),
    {
        self.sub_flag = n
    }

    pub fn h(&self) -> (b: bool)
        ensures
            b == self.half_carry_flag,
    {
        self.half_carry_flag
    }

    pub fn set_h(&mut self, h: bool)
        ensures
            *final(self) == (Flag { half_carry_flag: h, ..*old(self) }),
    {
        self.half_carry_flag = h
    }

    pub fn c(&self) -> (b: bool)
        ensures
            b == self.carry_flag,
    {
        self.carry_flag
    }

    pub fn set_c(&mut self, c: bool)
        ensures
            *final(self) == (Flag { carry_flag: c, ..*old(self) }),
    {
        self.carry_flag = c
    }

    /// Takes the flags from bits 7..4 of `value`; the low nibble is dropped.
    pub fn from_u8(value: u8) -> (f: Self)
        ensures
            f == Flag::of_bits(value),
            f.bits() == value & 0xF0,
    {
        proof {
            lemma_flag_bits_of_byte(value);
        }
        Flag {
            zero_flag: (value & 0x80) != 0,
            sub_flag: (value & 0x40) != 0,
            half_carry_flag: (value & 0x20) != 0,
            carry_flag: (value & 0x10) != 0,
        }
    }

    /// The register as a byte; its low nibble always reads as zero.
    pub fn into_u8(&self) -> (v: u8)
        ensures
            v == self.bits(),
            v & 0x0F == 0,
            v % 16 == 0,
            Flag::of_bits(v) == *self,
    {
        proof {
            lemma_flag_byte(self.zero_flag, self.sub_flag, self.half_carry_flag, self.carry_flag);
        }
        let z: u8 = if self.zero_flag { 0x80 } else { 0 };
        let n: u8 = if self.sub_flag { 0x40 } else { 0 };
        let h: u8 = if self.half_carry_flag { 0x20 } else { 0 };
        let c: u8 = if self.carry_flag { 0x10 } else { 0 };
        z | n | h | c
    }
}

/// Packing a flag register into a byte and unpacking it gives the register back.
pub proof fn lemma_flag_round_trip(f: Flag)
    ensures
        Flag::of_bits(f.bits()) == f,
        f.bits() & 0x0F == 0,
{
    lemma_flag_byte(f.zero_flag, f.sub_flag, f.half_carry_flag, f.carry_flag);
}

/// The eight byte registers, the stack pointer and the program counter.
#[derive(Debug, Clone, Copy, PartialEq, Eq, Structural)]
pub struct Registers {
    pub a: u8,
    pub f: Flag,
    pub b: u8,
    pub c: u8,
    pub d: u8,
    pub e: u8,
    pub h: u8,
    pub l: u8,
    pub pc: u16,
    pub sp: u16,
}

impl Default for Registers {
    /// The register values that the boot program leaves behind.
    fn default() -> (r: Self)
        ensures
            r == Registers::booted(),
    {
        Registers {
            a: 0x01,
            b: 0x00,
            c: 0x13,
            d: 0x00,
            e: 0xD8,
            f: Flag::from_u8(0xB0),
            h: 0x01,
            l: 0x4D,
            pc: 0x0100,
            sp: 0xFFFE,
        }
    }
}

impl Registers {
    /// The register file after the boot program has run.
    pub open spec fn booted() -> Registers {
        Registers {
            a: 0x01,
            f: Flag::of_bits(0xB0),
            b: 0x00,
            c: 0x13,
            d: 0x00,
            e: 0xD8,
            h: 0x01,
            l: 0x4D,
            pc: 0x0100,
            sp: 0xFFFE,
        }
    }

    pub open spec fn bc(self) -> u16 {
        word_of(self.b, self.c)
    }

    pub open spec fn de(self) -> u16 {
        word_of(self.d, self.e)
    }

    pub open spec fn hl(self) -> u16 {
        word_of(self.h, self.l)
    }

    pub open spec fn af(self) -> u16 {
        word_of(self.a, self.f.bits())
    }

    pub open spec fn with_bc(self, v: u16) -> Registers {
        Registers { b: (v / 256) as u8, c: (v % 256) as u8, ..self }
    }

    pub open spec fn with_de(self, v: u16) -> Registers {
        Registers { d: (v / 256) as u8, e: (v % 256) as u8, ..self }
    }

    pub open spec fn with_hl(self, v: u16) -> Registers {
        Registers { h: (v / 256) as u8, l: (v % 256) as u8, ..self }
    }

    pub open spec fn with_af(self, v: u16) -> Registers {
        Registers { a: (v / 256) as u8, f: Flag::of_bits((v % 256) as u8), ..self }
    }

    pub fn set_bc(&mut self, bc: u16)
        ensures
            *final(self) == old(self).with_bc(bc),
            final(self).bc() == bc,
    {
        let (hi, lo) = split(bc);
        self.b = hi;
        self.c = lo;
    }

    pub fn get_bc(&self) -> (v: u16)
        ensures
            v == self.bc(),
    {
        combine(self.b, self.c)
    }

    pub fn set_de(&mut self, de: u16)
        ensures
            *final(self) == old(self).with_de(de),
            final(self).de() == de,
    {
        let (hi, lo) = split(de);
        self.d = hi;
        self.e = lo;
    }

    pub fn get_de(&self) -> (v: u16)
        ensures
            v == self.de(),
    {
        combine(self.d, self.e)
    }

    pub fn set_hl(&mut self, hl: u16)
        ensures
            *final(self) == old(self).with_hl(hl),
            final(self).hl() == hl,
    {
        let (hi, lo) = split(hl);
        self.h = hi;
        self.l = lo;
    }

    pub fn get_hl(&self) -> (v: u16)
        ensures
            v == self.hl(),
    {
        combine(self.h, self.l)
    }

    /// Returns HL and then increments it, wrapping.
    pub fn get_hli(&mut self) -> (v: u16)
        ensures
            v == old(self).hl(),
            *final(self) == old(self).with_hl(v.wrapping_add(1)),
    {
        let hl = self.get_hl();
        self.set_hl(hl.wrapping_add(1));
        hl
    }

    /// Returns HL and then decrements it, wrapping.
    pub fn get_hld(&mut self) -> (v: u16)
        ensures
            v == old(self).hl(),
            *final(self) == old(self).with_hl(v.wrapping_sub(1)),
    {
        let hl = self.get_hl();
        self.set_hl(hl.wrapping_sub(1));
        hl
    }

    /// Sets A and F from a word; the low nibble of F stays zero.
    pub fn set_af(&mut self, af: u16)
        ensures
            *final(self) == old(self).with_af(af),
            final(self).af() == af - af % 16,
    {
        let (a, f) = split(af);
        self.a = a;
        self.f = Flag::from_u8(f);
        proof {
            lemma_low_nibble(f);
        }
    }

    pub fn get_af(&self) -> (v: u16)
        ensures
            v == self.af(),
            v % 16 == 0,
    {
        combine(self.a, self.f.into_u8())
    }

    /// Returns the program counter and advances it by one, wrapping.
    pub fn pc(&mut self) -> (v: u16)
        ensures
            v == old(self).pc,
            *final(self) == (Registers { pc: v.wrapping_add(1), ..*old(self) }),
    {
        let v = self.pc;
        self.pc = v.wrapping_add(1);
        v
    }

    pub fn set_pc(&mut self, address: u16)
        ensures
            *final(self) == (Registers { pc: address, ..*old(self) }),
    {
        self.pc = address;
    }

    /// Moves the program counter by a signed offset, wrapping.
    pub fn relative_pc(&mut self, address: i8)
        ensures
            *final(self) == (Registers { pc: old(self).pc.wrapping_add_signed(address as i16), ..*old(self) }),
    {
        self.pc = self.pc.wrapping_add_signed(address as i16);
    }

    /// Returns the program counter and advances it by two, wrapping.
    pub fn pc_word(&mut self) -> (v: u16)
        ensures
            v == old(self).pc,
            *final(self) == (Registers { pc: v.wrapping_add(2), ..*old(self) }),
    {
        let v = self.pc;
        self.pc = v.wrapping_add(2);
        v
    }
}

/// Masking a byte with `0xF0` clears its low nibble and nothing else.
pub proof fn lemma_low_nibble(v: u8)
    by (bit_vector)
    ensures
        v & 0xF0 == v - v % 16,
        (v & 0xF0) % 16 == 0,
{
}

} // verus!
