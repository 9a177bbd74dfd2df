//! The arithmetic, logic, rotate and control-flow operations that the
//! instruction decoder is built from.

use vstd::prelude::*;
use crate::cpu::{machine, pop_word, push_word, Cpu, Machine};
use crate::memory::Memory;
use crate::registers::{Flag, Registers};
use crate::util::{signed_of, to_signed, to_unsigned, unsigned_of};

verus! {

/// Carry out of bit 3 when adding two bytes.
pub open spec fn spec_half_carry_add(a: u8, b: u8) -> bool {
    a % 16 + b % 16 > 15
}

/// Borrow into bit 3 when subtracting `b` from `a`.
pub open spec fn spec_half_carry_sub(a: u8, b: u8) -> bool {
    a % 16 < b % 16
}

/// Carry out of bit 11 when adding two words.
pub open spec fn spec_half_carry_add_u16(a: u16, b: u16) -> bool {
    a % 4096 + b % 4096 > 4095
}

/// The half-carry tests agree with their usual formulation by masks: bit 4
/// of the sum (or wrapped difference) of the low nibbles.
pub proof fn lemma_half_carry_masks(a: u8, b: u8)
    by (bit_vector)
    ensures
        (a % 16 + b % 16 > 15) == (((a & 0xf) + (b & 0xf)) as u8 & 0x10u8 == 0x10u8),
        (a % 16 < b % 16) == ((((a & 0xf) + 256 - (b & 0xf)) as u8) & 0x10u8 == 0x10u8),
{
}

/// The 16-bit half-carry test is bit 12 of the sum of the low twelve bits.
pub proof fn lemma_half_carry_mask_u16(x: u16, y: u16)
    by (bit_vector)
    ensures
        (x % 4096 + y % 4096 > 4095) == (((x & 0xfff) + (y & 0xfff)) as u16 & 0x1000u16 == 0x1000u16),
{
}

#[verifier::when_used_as_spec(spec_half_carry_add)]
pub fn half_carry_add(a: u8, b: u8) -> (r: bool)
    ensures
        r == spec_half_carry_add(a, b),
{
    (a % 16) + (b % 16) > 15
}

#[verifier::when_used_as_spec(spec_half_carry_sub)]
pub fn half_carry_sub(a: u8, b: u8) -> (r: bool)
    ensures
        r == spec_half_carry_sub(a, b),
{
    (a % 16) < (b % 16)
}

#[verifier::when_used_as_spec(spec_half_carry_add_u16)]
pub fn half_carry_add_u16(a: u16, b: u16) -> (r: bool)
    ensures
        r == spec_half_carry_add_u16(a, b),
{
    (a % 4096) + (b % 4096) > 4095
}

/// The flags after `dec` of `v`: the carry flag is kept.
pub open spec fn dec_flags(v: u8, f: Flag) -> Flag {
    Flag { zero_flag: v == 1, sub_flag: true, half_carry_flag: v % 16 == 0, carry_flag: f.carry_flag }
}

/// The flags after `inc` of `v`: the carry flag is kept.
pub open spec fn inc_flags(v: u8, f: Flag) -> Flag {
    Flag { zero_flag: v == 255, sub_flag: false, half_carry_flag: v % 16 == 15, carry_flag: f.carry_flag }
}

/// `dec r8`: subtract one, wrapping.
pub fn dec(reg: &mut u8, f: &mut Flag)
    ensures
        *final(reg) == old(reg).wrapping_sub(1),
        *final(f) == dec_flags(*old(reg), *old(f)),
{
    f.set_h(half_carry_sub(*reg, 1));
    *reg = reg.wrapping_sub(1);
    f.set_z(*reg == 0);
    f.set_n(true);
}

/// `inc r8`: add one, wrapping.
pub fn inc(reg: &mut u8, f: &mut Flag)
    ensures
        *final(reg) == old(reg).wrapping_add(1),
        *final(f) == inc_flags(*old(reg), *old(f)),
{
    f.set_h(half_carry_add(*reg, 1));
    *reg = reg.wrapping_add(1);
    f.set_z(*reg == 0);
    f.set_n(false);
}

/// The flags after `add HL, r16`: Z is kept, N cleared, H and C come from
/// the 16-bit addition.
pub open spec fn add_u16_flags(reg: u16, add: u16, f: Flag) -> Flag {
    Flag {
        zero_flag: f.zero_flag,
        sub_flag: false,
        half_carry_flag: spec_half_carry_add_u16(reg, add),
        carry_flag: reg + add > 0xFFFF,
    }
}

/// `add HL, r16`: the wrapped sum.
pub fn add_u16(reg: u16, add: u16, f: &mut Flag) -> (sum: u16)
    ensures
        sum == reg.wrapping_add(add),
        *final(f) == add_u16_flags(reg, add, *old(f)),
{
    f.set_h(half_carry_add_u16(reg, add));
    let sum = reg.wrapping_add(add);
    f.set_c(sum < reg);
    f.set_n(false);
    sum
}

/// The flags of `add SP, e8` and `ld HL, SP+e8`: H and C come from adding the
/// offset, taken as an unsigned byte, to the low byte of the word.
pub open spec fn offset_flags(reg: u16, data: i8) -> Flag {
    Flag {
        zero_flag: false,
        sub_flag: false,
        half_carry_flag: reg % 16 + unsigned_of(data) % 16 > 15,
        carry_flag: reg % 256 + unsigned_of(data) > 255,
    }
}

/// `add SP, e8`: the word moves by the signed offset, wrapping.
pub fn add_u16_i8(reg: &mut u16, data: i8, f: &mut Flag)
    ensures
        *final(reg) == old(reg).wrapping_add_signed(data as i16),
        *final(f) == offset_flags(*old(reg), data),
{
    let before = *reg;
    let low: u8 = (before % 256) as u8;
    let byte = to_unsigned(data);
    f.set_h(half_carry_add(low, byte));
    *reg = before.wrapping_add_signed(data as i16);
    f.set_c((*reg % 256) < (before % 256));
    f.set_z(false);
    f.set_n(false);
}

/// `ld HL, SP+e8`: HL takes the stack pointer moved by the signed offset;
/// the flags are those of `add SP, e8`, and the stack pointer is kept.
pub fn set_add_u16_i8(cpu: &mut Cpu, data: i8)
    ensures
        *final(cpu) == old(cpu).with_regs(
            Registers { f: offset_flags(old(cpu).regs.sp, data), ..old(cpu).regs.with_hl(
                old(cpu).regs.sp.wrapping_add_signed(data as i16),
            ) },
        ),
        final(cpu).regs.sp == old(cpu).regs.sp,
{
    let temp = cpu.regs.sp;
    add_u16_i8(&mut cpu.regs.sp, data, &mut cpu.regs.f);
    let moved = cpu.regs.sp;
    cpu.regs.set_hl(moved);
    cpu.regs.sp = temp;
}

/// Whether both nibbles of a byte are decimal digits.
pub open spec fn bcd_valid(a: u8) -> bool {
    a % 16 <= 9 && a / 16 <= 9
}

/// The accumulator after `daa`.
pub open spec fn daa_value(a: u8, n: bool, h: bool, c: bool) -> u8 {
    if !n {
        let low: u8 = if h || a % 16 > 9 { 0x06 } else { 0 };
        let high: u8 = if c || a > 0x99 { 0x60 } else { 0 };
        a.wrapping_add((low + high) as u8)
    } else {
        let low: u8 = if h { 0x06 } else { 0 };
        let high: u8 = if c { 0x60 } else { 0 };
        a.wrapping_sub((low + high) as u8)
    }
}

/// The carry flag after `daa`.
pub open spec fn daa_carry(a: u8, n: bool, c: bool) -> bool {
    c || (!n && a > 0x99)
}

/// The flags after `daa`: H is cleared, Z follows the result, N is kept.
pub open spec fn daa_flags(a: u8, f: Flag) -> Flag {
    Flag {
        zero_flag: daa_value(a, f.sub_flag, f.half_carry_flag, f.carry_flag) == 0,
        sub_flag: f.sub_flag,
        half_carry_flag: false,
        carry_flag: daa_carry(a, f.sub_flag, f.carry_flag),
    }
}

/// `daa`: corrects the accumulator to packed decimal after an addition or a
/// subtraction.
pub fn daa(a: &mut u8, f: &mut Flag)
    ensures
        *final(a) == daa_value(*old(a), old(f).sub_flag, old(f).half_carry_flag, old(f).carry_flag),
        *final(f) == daa_flags(*old(a), *old(f)),
{
    if !f.n() {
        let mut change: u8 = 0;
        if f.h() || *a % 16 > 0x09 {
            change = change + 0x06;
        }
        if f.c() || *a > 0x99 {
            change = change + 0x60;
            f.set_c(true);
        }
        *a = a.wrapping_add(change);
    } else {
        let mut change: u8 = 0;
        if f.c() {
            change = change + 0x60;
        }
        if f.h() {
            change = change + 0x06;
        }
        *a = a.wrapping_sub(change);
    }
    f.set_z(*a == 0);
    f.set_h(false);
}

/// The number that a packed-decimal byte stands for.
pub open spec fn bcd_number(a: u8) -> int {
    (a / 16) * 10 + a % 16
}

/// `daa` after adding two packed-decimal bytes gives the packed-decimal sum:
/// its two digits in the accumulator, the hundreds in the carry.
pub proof fn lemma_daa_after_add(x: u8, y: u8)
    requires
        bcd_valid(x),
        bcd_valid(y),
    ensures
        ({
            let f = add_flags(x, y, false);
            let r = daa_value(add_value(x, y, false), false, f.half_carry_flag, f.carry_flag);
            let c = daa_carry(add_value(x, y, false), false, f.carry_flag);
            &&& bcd_valid(r)
            &&& bcd_number(r) + (if c { 100int } else { 0 }) == bcd_number(x) + bcd_number(y)
        }),
{
    let xl = x % 16;
    let xh = x / 16;
    let yl = y % 16;
    let yh = y / 16;
    assert(x == xh * 16 + xl && y == yh * 16 + yl);
    let wrap: int = if x + y > 255 { 256 } else { 0 };
    let s = add_value(x, y, false);
    assert(s == x + y - wrap);
    let f = add_flags(x, y, false);
    let low = xl + yl;
    let r = daa_value(s, false, f.half_carry_flag, f.carry_flag);
    let carry_low: int = if low > 9 { 1 } else { 0 };
    let digits = xh + yh + carry_low;
    let rl: int = low - 10 * carry_low;
    let rh: int = if digits > 9 { digits - 10 } else { digits };
    if low > 15 {
        assert(s == (xh + yh + 1) * 16 + (low - 16) - wrap);
        assert(s % 16 == low - 16);
        assert((f.carry_flag || s > 0x99) == (digits > 9));
    } else if low > 9 {
        assert(s == (xh + yh) * 16 + low - wrap);
        assert(s % 16 == low);
        assert((f.carry_flag || s > 0x99) == (digits > 9));
    } else {
        assert(s == (xh + yh) * 16 + low - wrap);
        assert(s % 16 == low);
        assert((f.carry_flag || s > 0x99) == (digits > 9));
    }
    let fix: int = 6 * carry_low + (if digits > 9 { 0x60int } else { 0 });
    assert(r == (s + fix) % 256);
    assert(s + fix == rh * 16 + rl || s + fix == rh * 16 + rl + 256);
    assert(r == rh * 16 + rl);
    assert(r % 16 == rl && r / 16 == rh);
}

/// `daa` after subtracting one packed-decimal byte from another gives the
/// packed-decimal difference, modulo one hundred; the carry tells of a borrow.
pub proof fn lemma_daa_after_sub(x: u8, y: u8)
    requires
        bcd_valid(x),
        bcd_valid(y),
    ensures
        ({
            let f = sub_flags(x, y, false);
            let r = daa_value(sub_value(x, y, false), true, f.half_carry_flag, f.carry_flag);
            let c = daa_carry(sub_value(x, y, false), true, f.carry_flag);
            &&& bcd_valid(r)
            &&& bcd_number(r) - (if c { 100int } else { 0 }) == bcd_number(x) - bcd_number(y)
        }),
{
    let xl = x % 16;
    let xh = x / 16;
    let yl = y % 16;
    let yh = y / 16;
    assert(x == xh * 16 + xl && y == yh * 16 + yl);
    let s = sub_value(x, y, false);
    let f = sub_flags(x, y, false);
    let borrow_low: int = if xl < yl { 1 } else { 0 };
    let borrow_high: int = if x < y { 1 } else { 0 };
    assert(borrow_high == (if xh - borrow_low < yh { 1int } else { 0 }));
    assert(s == x - y + 256 * borrow_high);
    let fix: int = (if f.half_carry_flag { 6int } else { 0 }) + (if f.carry_flag { 0x60int } else { 0 });
    let r = daa_value(s, true, f.half_carry_flag, f.carry_flag);
    let rl: int = xl - yl + 10 * borrow_low;
    let rh: int = xh - yh - borrow_low + 10 * borrow_high;
    assert(s - fix == rh * 16 + rl);
    assert(r == rh * 16 + rl);
    assert(r % 16 == rl && r / 16 == rh);
}

/// The flags after `scf` (`carry` true) and `ccf` (`carry` the inverse of
/// the old carry): N and H are cleared, Z is kept.
pub open spec fn carry_flags(f: Flag, carry: bool) -> Flag {
    Flag { zero_flag: f.zero_flag, sub_flag: false, half_carry_flag: false, carry_flag: carry }
}

/// The flags after `cpl`: N and H are set, Z and C are kept.
pub open spec fn cpl_flags(f: Flag) -> Flag {
    Flag { zero_flag: f.zero_flag, sub_flag: true, half_carry_flag: true, carry_flag: f.carry_flag }
}

/// The flags after `and` (`half` true), `or` and `xor` (`half` false).
pub open spec fn logic_flags(value: u8, half: bool) -> Flag {
    Flag { zero_flag: value == 0, sub_flag: false, half_carry_flag: half, carry_flag: false }
}

/// The flags after `bit n, x`: Z is set when the bit is clear, C is kept.
pub open spec fn bit_flags(value: u8, n: u8, f: Flag) -> Flag {
    Flag {
        zero_flag: !crate::util::spec_test_bit(value, n),
        sub_flag: false,
        half_carry_flag: true,
        carry_flag: f.carry_flag,
    }
}

/// `scf`: sets the carry flag.
pub fn scf(f: &mut Flag)
    ensures
        *final(f) == carry_flags(*old(f), true),
{
    f.set_c(true);
    f.set_h(false);
    f.set_n(false);
}

/// `ccf`: inverts the carry flag.
pub fn ccf(f: &mut Flag)
    ensures
        *final(f) == carry_flags(*old(f), !old(f).carry_flag),
{
    let c = f.c();
    f.set_c(!c);
    f.set_h(false);
    f.set_n(false);
}

/// `cpl`: inverts every bit of the accumulator.
pub fn cpl(a: &mut u8, f: &mut Flag)
    ensures
        *final(a) == !*old(a),
        *final(f) == cpl_flags(*old(f)),
{
    *a = !*a;
    f.set_n(true);
    f.set_h(true);
}

/// The flags after adding `data` and a carry-in to `a`.
pub open spec fn add_flags(a: u8, data: u8, carry_in: bool) -> Flag {
    let c: int = if carry_in { 1 } else { 0 };
    Flag {
        zero_flag: (a + data + c) % 256 == 0,
        sub_flag: false,
        half_carry_flag: a % 16 + data % 16 + c > 15,
        carry_flag: a + data + c > 255,
    }
}

/// The sum of `a`, `data` and a carry-in, wrapped to a byte.
pub open spec fn add_value(a: u8, data: u8, carry_in: bool) -> u8 {
    ((a + data + if carry_in { 1int } else { 0 }) % 256) as u8
}

/// The flags after subtracting `data` and a borrow-in from `a`.
pub open spec fn sub_flags(a: u8, data: u8, borrow_in: bool) -> Flag {
    let c: int = if borrow_in { 1 } else { 0 };
    Flag {
        zero_flag: (a - data - c) % 256 == 0,
        sub_flag: true,
        half_carry_flag: a % 16 < data % 16 + c,
        carry_flag: a < data + c,
    }
}

/// The difference of `a`, `data` and a borrow-in, wrapped to a byte.
pub open spec fn sub_value(a: u8, data: u8, borrow_in: bool) -> u8 {
    ((a - data - if borrow_in { 1int } else { 0 }) % 256) as u8
}

/// `add A, x`.
pub fn add(a: &mut u8, data: u8, f: &mut Flag)
    ensures
        *final(a) == add_value(*old(a), data, false),
        *final(f) == add_flags(*old(a), data, false),
{
    let sum = a.wrapping_add(data);
    f.set_z(sum == 0);
    f.set_n(false);
    f.set_c(sum < *a);
    f.set_h(half_carry_add(*a, data));
    *a = sum;
}

/// `adc A, x`: adds the operand, then the carry flag; H and C are set if
/// either step carried, Z follows the final value.
pub fn adc(a: &mut u8, data: u8, f: &mut Flag)
    ensures
        *final(a) == add_value(*old(a), data, old(f).carry_flag),
        *final(f) == add_flags(*old(a), data, old(f).carry_flag),
{
    let c: u8 = if f.c() { 1 } else { 0 };
    self::add(a, data, f);
    let first = *f;
    self::add(a, c, f);
    f.set_h(first.h() || f.h());
    f.set_c(first.c() || f.c());
    f.set_z(*a == 0);
}

/// `sub A, x`.
pub fn sub(a: &mut u8, data: u8, f: &mut Flag)
    ensures
        *final(a) == sub_value(*old(a), data, false),
        *final(f) == sub_flags(*old(a), data, false),
{
    let diff = a.wrapping_sub(data);
    f.set_z(diff == 0);
    f.set_c(*a < data);
    f.set_h(half_carry_sub(*a, data));
    f.set_n(true);
    *a = diff;
}

/// `sbc A, x`: subtracts the operand, then the carry flag; H and C are set
/// if either step borrowed, Z follows the final value.
pub fn sbc(a: &mut u8, data: u8, f: &mut Flag)
    ensures
        *final(a) == sub_value(*old(a), data, old(f).carry_flag),
        *final(f) == sub_flags(*old(a), data, old(f).carry_flag),
{
    let c: u8 = if f.c() { 1 } else { 0 };
    self::sub(a, data, f);
    let first = *f;
    self::sub(a, c, f);
    f.set_h(first.h() || f.h());
    f.set_c(first.c() || f.c());
    f.set_z(*a == 0);
}

/// `and A, x`.
pub fn and(a: &mut u8, data: u8, f: &mut Flag)
    ensures
        *final(a) == *old(a) & data,
        *final(f) == logic_flags(*final(a), true),
{
    *a = *a & data;
    f.set_z(*a == 0);
    f.set_n(false);
    f.set_h(true);
    f.set_c(false);
}

/// `xor A, x`.
pub fn xor(a: &mut u8, data: u8, f: &mut Flag)
    ensures
        *final(a) == *old(a) ^ data,
        *final(f) == logic_flags(*final(a), false),
{
    *a = *a ^ data;
    f.set_z(*a == 0);
    f.set_c(false);
    f.set_h(false);
    f.set_n(false);
}

/// `or A, x`.
pub fn or(a: &mut u8, data: u8, f: &mut Flag)
    ensures
        *final(a) == *old(a) | data,
        *final(f) == logic_flags(*final(a), false),
{
    *a = *a | data;
    f.set_c(false);
    f.set_h(false);
    f.set_n(false);
    f.set_z(*a == 0);
}

/// `cp A, x`: the flags of a subtraction; the accumulator is kept.
pub fn cp(a: &mut u8, data: u8, f: &mut Flag)
    ensures
        *final(a) == *old(a),
        *final(f) == sub_flags(*old(a), data, false),
{
    let temp = *a;
    self::sub(a, data, f);
    *a = temp;
}

/// The value that member `kind` of the rotate and shift family makes of
/// `v`: 0 `rlc`, 1 `rrc`, 2 `rl`, 3 `rr`, 4 `sla`, 5 `sra`, 6 `swap`, 7 `srl`.
pub open spec fn shift_value(kind: u8, v: u8, carry_in: bool) -> u8 {
    if kind == 0 {
        (v >> 7) | (v << 1)
    } else if kind == 1 {
        (v << 7) | (v >> 1)
    } else if kind == 2 {
        (v << 1) | (if carry_in { 1u8 } else { 0u8 })
    } else if kind == 3 {
        (if carry_in { 0x80u8 } else { 0u8 }) | (v >> 1)
    } else if kind == 4 {
        v << 1
    } else if kind == 5 {
        (v & 0x80) | (v >> 1)
    } else if kind == 6 {
        (v << 4) | (v >> 4)
    } else {
        v >> 1
    }
}

/// The bit that member `kind` of the rotate and shift family moves into
/// the carry: bit 7 when it moves left, bit 0 when it moves right, nothing
/// for `swap`.
pub open spec fn shift_carry(kind: u8, v: u8) -> bool {
    if kind == 0 || kind == 2 || kind == 4 {
        v & 0x80 != 0
    } else if kind == 6 {
        false
    } else {
        v & 1 == 1
    }
}

/// The processor after a relative jump that is taken when `cc` holds.
pub open spec fn jr_cpu(cpu: Cpu, cc: bool, change: u8) -> Cpu {
    if cc {
        cpu.with_regs(Registers { pc: cpu.regs.pc.wrapping_add_signed(signed_of(change) as i16), ..cpu.regs })
    } else {
        cpu
    }
}

/// The processor after an absolute jump that is taken when `cc` holds.
pub open spec fn jp_cpu(cpu: Cpu, cc: bool, new: u16) -> Cpu {
    if cc {
        cpu.with_regs(Registers { pc: new, ..cpu.regs })
    } else {
        cpu
    }
}

/// The machine after a return that is taken when `cc` holds.
pub open spec fn ret_machine(m: Machine, cc: bool) -> Machine {
    if cc {
        m.pop().with_pc(m.top())
    } else {
        m
    }
}

/// The machine after a call that is taken when `cc` holds: the target
/// follows the opcode, and the address behind it is what is pushed.
pub open spec fn call_machine(m: Machine, cc: bool) -> Machine {
    let next = m.advance(2);
    if cc {
        next.push(next.regs().pc).with_pc(m.fetch_word())
    } else {
        next
    }
}

/// The machine after a restart: the program counter is pushed and set.
pub open spec fn rst_machine(m: Machine, new: u16) -> Machine {
    m.push(m.regs().pc).with_pc(new)
}

/// `jr`: moves the program counter by the signed byte `change` when `cc`
/// holds. Returns the cycles: 12 when taken, 8 when not.
pub fn jr(cpu: &mut Cpu, cc: bool, change: u8) -> (cycles: u8)
    ensures
        *final(cpu) == jr_cpu(*old(cpu), cc, change),
        cycles == (if cc { 12u8 } else { 8u8 }),
{
    if !cc {
        return 8;
    }
    cpu.regs.relative_pc(to_signed(change));
    12
}

/// `jp`: sets the program counter when `cc` holds. Returns the cycles of
/// the form with an address operand: 16 when taken, 12 when not.
pub fn jp(cpu: &mut Cpu, cc: bool, new: u16) -> (cycles: u8)
    ensures
        *final(cpu) == jp_cpu(*old(cpu), cc, new),
        cycles == (if cc { 16u8 } else { 12u8 }),
{
    if !cc {
        return 12;
    }
    cpu.regs.set_pc(new);
    16
}

/// `ret`: pops the program counter when `cc` holds. Returns the cycles of
/// the conditional form: 20 when taken, 8 when not.
pub fn ret(cpu: &mut Cpu, cc: bool, memory: &mut Memory) -> (cycles: u8)
    requires
        old(memory).wf(),
    ensures
        machine(*final(cpu), *final(memory)) == ret_machine(machine(*old(cpu), *old(memory)), cc),
        final(memory).wf(),
        cycles == (if cc { 20u8 } else { 8u8 }),
{
    if !cc {
        return 8;
    }
    let new = pop_word(cpu, memory);
    cpu.regs.set_pc(new);
    20
}

/// `call`: reads the target behind the opcode; when `cc` holds, pushes the
/// address of the next instruction and jumps. Returns the cycles: 24 when
/// taken, 12 when not.
pub fn call(cpu: &mut Cpu, cc: bool, memory: &mut Memory) -> (cycles: u8)
    requires
        old(memory).wf(),
    ensures
        machine(*final(cpu), *final(memory)) == call_machine(machine(*old(cpu), *old(memory)), cc),
        final(memory).wf(),
        cycles == (if cc { 24u8 } else { 12u8 }),
{
    let new_address = memory.read_word(cpu.regs.pc_word());
    if !cc {
        return 12;
    }
    let fallback_address = cpu.regs.pc;
    push_word(cpu, memory, fallback_address);
    cpu.regs.set_pc(new_address);
    24
}

/// `rst`: pushes the program counter and jumps to `new`.
pub fn rst(cpu: &mut Cpu, memory: &mut Memory, new: u16)
    requires
        old(memory).wf(),
    ensures
        machine(*final(cpu), *final(memory)) == rst_machine(machine(*old(cpu), *old(memory)), new),
        final(memory).wf(),
{
    let fallback_address = cpu.regs.pc;
    push_word(cpu, memory, fallback_address);
    cpu.regs.set_pc(new);
}

/// The flags after a rotate or shift that produced `value` and moved
/// `carry` out.
pub open spec fn shift_flags(value: u8, carry: bool) -> Flag {
    Flag { zero_flag: value == 0, sub_flag: false, half_carry_flag: false, carry_flag: carry }
}

/// `bit n, x`: tests bit `operation` of the operand, which is kept.
pub fn bit(data: &mut u8, f: &mut Flag, operation: u8)
    requires
        operation < 8,
    ensures
        *final(data) == *old(data),
        *final(f) == bit_flags(*old(data), operation, *old(f)),
{
    let is_set = crate::util::test_bit(*data, operation);
    f.set_z(!is_set);
    f.set_n(false);
    f.set_h(true);
}

/// `srl x`: logical shift right; bit 0 moves into the carry.
pub fn srl(data: &mut u8, f: &mut Flag)
    ensures
        *final(data) == shift_value(7, *old(data), old(f).carry_flag),
        *final(f) == shift_flags(*final(data), shift_carry(7, *old(data))),
{
    f.set_c(*data & 1 == 1);
    f.set_h(false);
    f.set_n(false);
    *data = *data >> 1;
    f.set_z(*data == 0);
}

/// `swap x`: exchanges the two nibbles.
pub fn swap(data: &mut u8, f: &mut Flag)
    ensures
        *final(data) == shift_value(6, *old(data), old(f).carry_flag),
        *final(f) == shift_flags(*final(data), shift_carry(6, *old(data))),
{
    *data = (*data << 4) | (*data >> 4);
    f.set_z(*data == 0);
    f.set_n(false);
    f.set_h(false);
    f.set_c(false);
}

/// `sra x`: arithmetic shift right; bit 7 stays, bit 0 moves into the carry.
pub fn sra(data: &mut u8, f: &mut Flag)
    ensures
        *final(data) == shift_value(5, *old(data), old(f).carry_flag),
        *final(f) == shift_flags(*final(data), shift_carry(5, *old(data))),
{
    f.set_c(*data & 1 == 1);
    *data = (*data & 0x80) | (*data >> 1);
    f.set_n(false);
    f.set_h(false);
    f.set_z(*data == 0);
}

/// `sla x`: shift left; bit 7 moves into the carry.
pub fn sla(data: &mut u8, f: &mut Flag)
    ensures
        *final(data) == shift_value(4, *old(data), old(f).carry_flag),
        *final(f) == shift_flags(*final(data), shift_carry(4, *old(data))),
{
    f.set_c(*data & 0x80 != 0);
    *data = *data << 1;
    f.set_h(false);
    f.set_n(false);
    f.set_z(*data == 0);
}

/// `rr x`: rotate right through the carry.
pub fn rr(data: &mut u8, f: &mut Flag)
    ensures
        *final(data) == shift_value(3, *old(data), old(f).carry_flag),
        *final(f) == shift_flags(*final(data), shift_carry(3, *old(data))),
{
    let c: u8 = if f.c() { 0x80 } else { 0 };
    f.set_c(*data & 1 == 1);
    *data = c | (*data >> 1);
    f.set_h(false);
    f.set_n(false);
    f.set_z(*data == 0);
}

/// `rl x`: rotate left through the carry.
pub fn rl(data: &mut u8, f: &mut Flag)
    ensures
        *final(data) == shift_value(2, *old(data), old(f).carry_flag),
        *final(f) == shift_flags(*final(data), shift_carry(2, *old(data))),
{
    let c: u8 = if f.c() { 1 } else { 0 };
    f.set_c(*data & 0x80 != 0);
    *data = (*data << 1) | c;
    f.set_h(false);
    f.set_n(false);
    f.set_z(*data == 0);
}

/// `rrc x`: rotate right; bit 0 moves into bit 7 and into the carry.
pub fn rrc(data: &mut u8, f: &mut Flag)
    ensures
        *final(data) == shift_value(1, *old(data), old(f).carry_flag),
        *final(f) == shift_flags(*final(data), shift_carry(1, *old(data))),
{
    f.set_c(*data & 1 == 1);
    *data = (*data << 7) | (*data >> 1);
    f.set_h(false);
    f.set_n(false);
    f.set_z(*data == 0);
}

/// `rlc x`: rotate left; bit 7 moves into bit 0 and into the carry.
pub fn rlc(data: &mut u8, f: &mut Flag)
    ensures
        *final(data) == shift_value(0, *old(data), old(f).carry_flag),
        *final(f) == shift_flags(*final(data), shift_carry(0, *old(data))),
{
    f.set_c(*data & 0x80 != 0);
    *data = (*data >> 7) | (*data << 1);
    f.set_h(false);
    f.set_n(false);
    f.set_z(*data == 0);
}

} // verus!
