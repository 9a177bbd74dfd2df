//! Byte/word helpers and the addresses of the memory-mapped registers.

use vstd::prelude::*;

verus! {

/// The logo that a cartridge header carries at `0x104`, which the boot
/// program compares before it hands over.
pub const NINTENDO_LOGO: [u8; 48] = [
    0xCE, 0xED, 0x66, 0x66, 0xCC, 0x0D, 0x00, 0x0B, 0x03, 0x73, 0x00, 0x83, 0x00, 0x0C, 0x00, 0x0D,
    0x00, 0x08, 0x11, 0x1F, 0x88, 0x89, 0x00, 0x0E, 0xDC, 0xCC, 0x6E, 0xE6, 0xDD, 0xDD, 0xD9, 0x99,
    0xBB, 0xBB, 0x67, 0x63, 0x6E, 0x0E, 0xEC, 0xCC, 0xDD, 0xDC, 0x99, 0x9F, 0xBB, 0xB9, 0x33, 0x3E,
];

pub const JOYPAD_ADDRESS: usize = 0xFF00;

pub const INTERRUPT_F_ADDRESS: u16 = 0xFF0F;

pub const INTERRUPT_E_ADDRESS: u16 = 0xFFFF;

/// Dots from the start of a line to the end of the sprite search.
pub const OAM_CYCLES: usize = 80;

/// Dots from the start of a line to the end of drawing.
pub const DRAW_CYCLES: usize = 178;

/// Dots in a whole line.
pub const HBLANK_CYCLES: usize = 456;

/// Bit of the status register that enables its interrupt for the sprite search.
pub const STAT_OAM: u8 = 5;

/// Bit of the status register that enables its interrupt for the vertical blank.
pub const STAT_VBLANK: u8 = 4;

/// Bit of the status register that enables its interrupt for the horizontal blank.
pub const STAT_HBLANK: u8 = 3;

/// The registers of the picture processor.
#[derive(Debug, Clone, Copy, PartialEq, Eq, Structural)]
pub enum PpuRegisters {
    LCDC,
    STAT,
    SCY,
    SCX,
    LY,
    LYC,
    BGP,
    OBP0,
    OBP1,
    WY,
    WX,
}

impl PpuRegisters {
    /// Where the register lies on the bus.
    pub open spec fn spec_address(self) -> u16 {
        match self {
            PpuRegisters::LCDC => 0xFF40,
            PpuRegisters::STAT => 0xFF41,
            PpuRegisters::SCY => 0xFF42,
            PpuRegisters::SCX => 0xFF43,
            PpuRegisters::LY => 0xFF44,
            PpuRegisters::LYC => 0xFF45,
            PpuRegisters::BGP => 0xFF47,
            PpuRegisters::OBP0 => 0xFF48,
            PpuRegisters::OBP1 => 0xFF49,
            PpuRegisters::WY => 0xFF4A,
            PpuRegisters::WX => 0xFF4B,
        }
    }

    #[verifier::when_used_as_spec(spec_address)]
    pub fn address(self) -> (a: u16)
        ensures
            a == self.spec_address(),
    {
        match self {
            PpuRegisters::LCDC => 0xFF40,
            PpuRegisters::STAT => 0xFF41,
            PpuRegisters::SCY => 0xFF42,
            PpuRegisters::SCX => 0xFF43,
            PpuRegisters::LY => 0xFF44,
            PpuRegisters::LYC => 0xFF45,
            PpuRegisters::BGP => 0xFF47,
            PpuRegisters::OBP0 => 0xFF48,
            PpuRegisters::OBP1 => 0xFF49,
            PpuRegisters::WY => 0xFF4A,
            PpuRegisters::WX => 0xFF4B,
        }
    }
}

/// The registers of the timer.
#[derive(Debug, Clone, Copy, PartialEq, Eq, Structural)]
pub enum TimerRegisters {
    DIV,
    TIMA,
    TMA,
    TAC,
}

impl TimerRegisters {
    /// Where the register lies on the bus.
    pub open spec fn spec_address(self) -> u16 {
        match self {
            TimerRegisters::DIV => 0xFF04,
            TimerRegisters::TIMA => 0xFF05,
            TimerRegisters::TMA => 0xFF06,
            TimerRegisters::TAC => 0xFF07,
        }
    }

    #[verifier::when_used_as_spec(spec_address)]
    pub fn address(self) -> (a: u16)
        ensures
            a == self.spec_address(),
    {
        match self {
            TimerRegisters::DIV => 0xFF04,
            TimerRegisters::TIMA => 0xFF05,
            TimerRegisters::TMA => 0xFF06,
            TimerRegisters::TAC => 0xFF07,
        }
    }
}

/// The word whose high byte is `hi` and whose low byte is `lo`.
pub open spec fn word_of(hi: u8, lo: u8) -> u16 {
    (hi as u16 * 256 + lo as u16) as u16
}

/// Combines two bytes stored in little-endian order: `a` is the low byte.
pub fn little_endian_combine(a: u8, b: u8) -> (w: u16)
    ensures
        w == word_of(b, a),
        w / 256 == b,
        w % 256 == a,
{
    let w: u16 = (b as u16) * 256 + (a as u16);
    w
}

/// Combines a high byte `a` and a low byte `b` into one word.
pub fn combine(a: u8, b: u8) -> (w: u16)
    ensures
        w == word_of(a, b),
        w / 256 == a,
        w % 256 == b,
{
    let w: u16 = (a as u16) * 256 + (b as u16);
    w
}

/// Splits a word into its high and low byte.
pub fn split(a: u16) -> (r: (u8, u8))
    ensures
        r.0 == a / 256,
        r.1 == a % 256,
        word_of(r.0, r.1) == a,
{
    ((a / 256) as u8, (a % 256) as u8)
}

/// Two to the power `n`, for the bit positions of a byte.
pub open spec fn spec_pow2(n: u8) -> u8 {
    if n == 0 {
        1
    } else if n == 1 {
        2
    } else if n == 2 {
        4
    } else if n == 3 {
        8
    } else if n == 4 {
        16
    } else if n == 5 {
        32
    } else if n == 6 {
        64
    } else {
        128
    }
}

/// Whether bit `n` of `v` is set.
#[verifier::opaque]
pub open spec fn spec_test_bit(v: u8, n: u8) -> bool {
    (v / spec_pow2(n)) % 2 == 1
}

/// `v` with bit `n` set to `on` and every other bit kept.
#[verifier::opaque]
pub open spec fn spec_with_bit(v: u8, n: u8, on: bool) -> u8 {
    if spec_test_bit(v, n) == on {
        v
    } else if on {
        (v + spec_pow2(n)) as u8
    } else {
        (v - spec_pow2(n)) as u8
    }
}

#[verifier::when_used_as_spec(spec_pow2)]
pub fn pow2(n: u8) -> (p: u8)
    requires
        n < 8,
    ensures
        p == spec_pow2(n),
        p > 0,
{
    match n {
        0 => 1,
        1 => 2,
        2 => 4,
        3 => 8,
        4 => 16,
        5 => 32,
        6 => 64,
        _ => 128,
    }
}

#[verifier::when_used_as_spec(spec_test_bit)]
pub fn test_bit(v: u8, n: u8) -> (b: bool)
    requires
        n < 8,
    ensures
        b == spec_test_bit(v, n),
{
    reveal(spec_test_bit);
    (v / pow2(n)) % 2 == 1
}

#[verifier::when_used_as_spec(spec_with_bit)]
pub fn with_bit(v: u8, n: u8, on: bool) -> (r: u8)
    requires
        n < 8,
    ensures
        r == spec_with_bit(v, n, on),
{
    reveal(spec_test_bit);
    reveal(spec_with_bit);
    let p = pow2(n);
    let r = if test_bit(v, n) == on {
        v
    } else if on {
        v + p
    } else {
        v - p
    };
    proof {
        lemma_with_bit(v, n, on);
    }
    r
}

/// Changing one bit of a byte changes that bit and no other, and the
/// change stays within the byte.
pub proof fn lemma_with_bit(v: u8, n: u8, on: bool)
    requires
        n < 8,
    ensures
        spec_test_bit(v, n) ==> v >= spec_pow2(n),
        !spec_test_bit(v, n) ==> v + spec_pow2(n) <= 255,
        spec_test_bit(spec_with_bit(v, n, on), n) == on,
        forall|m: u8| m < 8 && m != n ==> spec_test_bit(spec_with_bit(v, n, on), m) == spec_test_bit(v, m),
{
    reveal(spec_test_bit);
    reveal(spec_with_bit);
    lemma_with_bit_at(v, n, on, n);
    assert forall|m: u8| m < 8 && m != n implies spec_test_bit(spec_with_bit(v, n, on), m) == spec_test_bit(v, m) by {
        lemma_with_bit_at(v, n, on, m);
    }
}

/// The bit of weight `2^m` in a byte after the bit of weight `2^n` was
/// changed.
proof fn lemma_with_bit_at(v: u8, n: u8, on: bool, m: u8)
    by (bit_vector)
    requires
        n < 8,
        m < 8,
    ensures
        ({
            let bit_on = (v / spec_pow2(n)) % 2 == 1;
            let r = if bit_on == on {
                v
            } else if on {
                (v + spec_pow2(n)) as u8
            } else {
                (v - spec_pow2(n)) as u8
            };
            &&& bit_on ==> v >= spec_pow2(n)
            &&& !bit_on ==> v <= 255 - spec_pow2(n)
            &&& ((r / spec_pow2(m)) % 2 == 1) == (if m == n {
                on
            } else {
                (v / spec_pow2(m)) % 2 == 1
            })
        }),
{
}

/// The byte `b` read as a two's-complement signed number.
pub open spec fn signed_of(b: u8) -> i8 {
    if b >= 128 {
        (b - 256) as i8
    } else {
        b as i8
    }
}

/// The byte that stands for the signed number `d` in two's complement.
pub open spec fn unsigned_of(d: i8) -> u8 {
    if d < 0 {
        (d + 256) as u8
    } else {
        d as u8
    }
}

/// Reads a byte as a signed offset.
pub fn to_signed(b: u8) -> (d: i8)
    ensures
        d == signed_of(b),
        unsigned_of(d) == b,
{
    if b >= 128 {
        (b as i16 - 256) as i8
    } else {
        b as i8
    }
}

/// The byte that holds a signed offset.
pub fn to_unsigned(d: i8) -> (b: u8)
    ensures
        b == unsigned_of(d),
        signed_of(b) == d,
{
    if d < 0 {
        (d as i16 + 256) as u8
    } else {
        d as u8
    }
}

} // verus!
