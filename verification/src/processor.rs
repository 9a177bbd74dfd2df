//! The instruction decoder and the interrupt dispatch.
//!
//! An opcode is taken apart as `row = opcode / 8` and `column = opcode % 8`
//! within its quarter of the table; operands, register pairs and conditions
//! are counted as the machine encodes them.

use vstd::prelude::*;
use crate::cpu::{
    machine, pop_word, push_word, read_operand, read_pair, read_stack_pair, test_condition,
    write_operand, write_pair, write_stack_pair, Cpu, Machine,
};
use crate::error::CoreError;
use crate::memory::{BusState, Memory};
use crate::opcodes::{
    adc, add_flags, add_u16, add_u16_flags, add_u16_i8, add_value, and, bit, bit_flags, call,
    call_machine, carry_flags, ccf, cp, cpl, cpl_flags, daa, daa_flags, daa_value, dec, dec_flags,
    inc, inc_flags, jp, jp_cpu, jr, jr_cpu, logic_flags, offset_flags, or, ret, ret_machine, rl,
    rlc, rr, rrc, rst, rst_machine, sbc, scf, set_add_u16_i8, shift_carry, shift_flags,
    shift_value, sla, sra, srl, sub_flags, sub_value, swap, xor,
};
use crate::registers::{Flag, Registers};
use crate::util::{
    signed_of, spec_test_bit, spec_with_bit, test_bit, to_signed, with_bit, INTERRUPT_E_ADDRESS,
    INTERRUPT_F_ADDRESS,
};

verus! {

/// The interrupts that are both requested and enabled: one bit for each of
/// the five sources.
pub open spec fn pending_interrupts(bus: BusState) -> u8 {
    (bus.read(INTERRUPT_F_ADDRESS) & bus.read(INTERRUPT_E_ADDRESS)) % 32
}

/// The lowest source among the pending ones, which is served first.
pub open spec fn first_pending(pending: u8) -> u8 {
    if spec_test_bit(pending, 0) {
        0
    } else if spec_test_bit(pending, 1) {
        1
    } else if spec_test_bit(pending, 2) {
        2
    } else if spec_test_bit(pending, 3) {
        3
    } else {
        4
    }
}

/// The vector of each source: vertical blank, status, timer, serial, joypad.
pub open spec fn vector_of(source: u8) -> u16 {
    (0x40 + 8 * source) as u16
}

/// The machine after the dispatch that precedes every fetch. A halted
/// processor wakes on a pending interrupt without serving it. Otherwise,
/// with the master enable set, the first pending source is served: its
/// request is cleared, the master enable and its scheduled companion are
/// cleared, the program counter is pushed and set to the vector.
#[verifier::opaque]
pub open spec fn interrupt_step(m: Machine) -> (Machine, u8) {
    let pending = pending_interrupts(m.bus);
    if m.cpu.halt && pending != 0 {
        (Machine { cpu: Cpu { halt: false, ..m.cpu }, ..m }, 0)
    } else if !m.cpu.ime || pending == 0 {
        (m, 0)
    } else {
        let source = first_pending(pending);
        let requested = m.bus.read(INTERRUPT_F_ADDRESS);
        let pushed = rst_machine(m, vector_of(source));
        (
            Machine {
                cpu: Cpu { ime: false, scheduled_ime: false, ..pushed.cpu },
                bus: pushed.bus.write(INTERRUPT_F_ADDRESS, spec_with_bit(requested, source, false)),
            },
            20,
        )
    }
}

/// Serves the interrupts before an instruction is fetched. Returns the
/// cycles that the dispatch took: 20 when a source was served, else 0.
pub fn handle_interrupts(cpu: &mut Cpu, memory: &mut Memory) -> (cycles: u8)
    requires
        old(memory).wf(),
    ensures
        (machine(*final(cpu), *final(memory)), cycles) == interrupt_step(machine(*old(cpu), *old(memory))),
        final(memory).wf(),
        cycles == 0 || cycles == 20,
{
    reveal(interrupt_step);
    let interrupts_called = memory.read(INTERRUPT_F_ADDRESS);
    let possible_interrupts = (interrupts_called & memory.read(INTERRUPT_E_ADDRESS)) % 32;
    if cpu.halt && possible_interrupts != 0 {
        cpu.halt = false;
        return 0;
    }
    if !cpu.ime || possible_interrupts == 0 {
        return 0;
    }
    let priority: u8 = if test_bit(possible_interrupts, 0) {
        0
    } else if test_bit(possible_interrupts, 1) {
        1
    } else if test_bit(possible_interrupts, 2) {
        2
    } else if test_bit(possible_interrupts, 3) {
        3
    } else {
        4
    };
    let address: u16 = 0x40 + 8 * (priority as u16);
    rst(cpu, memory, address);
    cpu.ime = false;
    cpu.scheduled_ime = false;
    let new_interrupt = with_bit(interrupts_called, priority, false);
    memory.write(INTERRUPT_F_ADDRESS, new_interrupt);
    20
}

/// The accumulator after arithmetic operation `op` with `data`: 0 `add`,
/// 1 `adc`, 2 `sub`, 3 `sbc`, 4 `and`, 5 `xor`, 6 `or`, 7 `cp`.
pub open spec fn alu_value(op: u8, a: u8, data: u8, f: Flag) -> u8 {
    if op == 0 {
        add_value(a, data, false)
    } else if op == 1 {
        add_value(a, data, f.carry_flag)
    } else if op == 2 {
        sub_value(a, data, false)
    } else if op == 3 {
        sub_value(a, data, f.carry_flag)
    } else if op == 4 {
        a & data
    } else if op == 5 {
        a ^ data
    } else if op == 6 {
        a | data
    } else {
        a
    }
}

/// The flags after arithmetic operation `op` with `data`.
pub open spec fn alu_flags(op: u8, a: u8, data: u8, f: Flag) -> Flag {
    if op == 0 {
        add_flags(a, data, false)
    } else if op == 1 {
        add_flags(a, data, f.carry_flag)
    } else if op == 2 {
        sub_flags(a, data, false)
    } else if op == 3 {
        sub_flags(a, data, f.carry_flag)
    } else if op == 4 {
        logic_flags(a & data, true)
    } else if op == 5 {
        logic_flags(a ^ data, false)
    } else if op == 6 {
        logic_flags(a | data, false)
    } else {
        sub_flags(a, data, false)
    }
}

/// The machine after arithmetic operation `op` on the accumulator.
pub open spec fn alu_machine(m: Machine, op: u8, data: u8) -> Machine {
    m.with_regs(
        Registers {
            a: alu_value(op, m.regs().a, data, m.regs().f),
            f: alu_flags(op, m.regs().a, data, m.regs().f),
            ..m.regs()
        },
    )
}

/// Applies arithmetic operation `operation` to the accumulator.
pub fn alu(cpu: &mut Cpu, operation: u8, data: u8)
    ensures
        *final(cpu) == old(cpu).with_regs(
            Registers {
                a: alu_value(operation, old(cpu).regs.a, data, old(cpu).regs.f),
                f: alu_flags(operation, old(cpu).regs.a, data, old(cpu).regs.f),
                ..old(cpu).regs
            },
        ),
{
    match operation {
        0 => crate::opcodes::add(&mut cpu.regs.a, data, &mut cpu.regs.f),
        1 => adc(&mut cpu.regs.a, data, &mut cpu.regs.f),
        2 => crate::opcodes::sub(&mut cpu.regs.a, data, &mut cpu.regs.f),
        3 => sbc(&mut cpu.regs.a, data, &mut cpu.regs.f),
        4 => and(&mut cpu.regs.a, data, &mut cpu.regs.f),
        5 => xor(&mut cpu.regs.a, data, &mut cpu.regs.f),
        6 => or(&mut cpu.regs.a, data, &mut cpu.regs.f),
        _ => cp(&mut cpu.regs.a, data, &mut cpu.regs.f),
    }
}

/// Applies member `kind` of the rotate and shift family to a byte.
pub fn shift(data: &mut u8, kind: u8, f: &mut Flag)
    ensures
        *final(data) == shift_value(kind, *old(data), old(f).carry_flag),
        *final(f) == shift_flags(*final(data), shift_carry(kind, *old(data))),
{
    match kind {
        0 => rlc(data, f),
        1 => rrc(data, f),
        2 => rl(data, f),
        3 => rr(data, f),
        4 => sla(data, f),
        5 => sra(data, f),
        6 => swap(data, f),
        _ => srl(data, f),
    }
}

/// Column 0 of the first quarter: `nop`, `ld [a16], SP`, `stop` and the
/// relative jumps.
#[verifier::opaque]
pub open spec fn misc_step(m: Machine, row: u8) -> Machine {
    if row == 0 {
        m
    } else if row == 1 {
        m.advance(2).with_bus(m.bus.write_word(m.fetch_word(), m.regs().sp))
    } else if row == 2 {
        Machine { cpu: Cpu { stopped: true, ..m.advance(1).cpu }, bus: m.bus.write(0xFF04, 0) }
    } else {
        Machine {
            cpu: jr_cpu(m.advance(1).cpu, row == 3 || m.condition((row - 4) as u8), m.fetch()),
            ..m
        }
    }
}

fn exec_misc(cpu: &mut Cpu, mem: &mut Memory, opcode: u8) -> (cycles: u8)
    requires
        old(mem).wf(),
        opcode < 0x40,
        opcode % 8 == 0,
    ensures
        machine(*final(cpu), *final(mem)) == misc_step(machine(*old(cpu), *old(mem)), opcode / 8),
        cycles == decoded_cycles(opcode, condition_of(machine(*old(cpu), *old(mem)), opcode)),
        final(mem).wf(),
{
    reveal(misc_step);
    let row = opcode / 8;
    if row == 0 {
        4
    } else if row == 1 {
        let addr = mem.read_word(cpu.regs.pc_word());
        mem.write_word(addr, cpu.regs.sp);
        20
    } else if row == 2 {
        cpu.stopped = true;
        cpu.regs.pc();
        mem.write(0xFF04, 0);
        4
    } else {
        let taken = row == 3 || test_condition(cpu, row - 4);
        let change = mem.read(cpu.regs.pc());
        jr(cpu, taken, change)
    }
}

/// The address that the indirect loads of column 2 use: BC, DE, or HL,
/// which then moves up (pair 2) or down (pair 3) by one.
pub open spec fn indirect_address(m: Machine, which: u8) -> u16 {
    if which == 0 {
        m.regs().bc()
    } else if which == 1 {
        m.regs().de()
    } else {
        m.regs().hl()
    }
}

/// The machine after HL has moved as the indirect load with pair `which`
/// asks.
pub open spec fn indirect_moved(m: Machine, which: u8) -> Machine {
    if which == 2 {
        m.with_pair(2, m.regs().hl().wrapping_add(1))
    } else if which == 3 {
        m.with_pair(2, m.regs().hl().wrapping_sub(1))
    } else {
        m
    }
}

/// Columns 1 to 3 of the first quarter, which work on register pairs:
/// `ld r16, n16` and `add HL, r16`; the indirect loads through BC, DE, HL+
/// and HL-; `inc r16` and `dec r16`.
#[verifier::opaque]
pub open spec fn pair_step(m: Machine, row: u8, column: u8) -> Machine {
    let which = row / 2;
    if column == 1 {
        if row % 2 == 0 {
            m.advance(2).with_pair(which, m.fetch_word())
        } else {
            m.with_pair(2, m.regs().hl().wrapping_add(m.pair(which))).with_flags(
                add_u16_flags(m.regs().hl(), m.pair(which), m.regs().f),
            )
        }
    } else if column == 2 {
        if row % 2 == 0 {
            indirect_moved(m, which).with_bus(m.bus.write(indirect_address(m, which), m.regs().a))
        } else {
            indirect_moved(m, which).with_a(m.bus.read(indirect_address(m, which)))
        }
    } else {
        if row % 2 == 0 {
            m.with_pair(which, m.pair(which).wrapping_add(1))
        } else {
            m.with_pair(which, m.pair(which).wrapping_sub(1))
        }
    }
}

fn exec_pair(cpu: &mut Cpu, mem: &mut Memory, opcode: u8) -> (cycles: u8)
    requires
        old(mem).wf(),
        opcode < 0x40,
        1 <= opcode % 8 <= 3,
    ensures
        machine(*final(cpu), *final(mem)) == pair_step(
            machine(*old(cpu), *old(mem)),
            opcode / 8,
            opcode % 8,
        ),
        cycles == decoded_cycles(opcode, condition_of(machine(*old(cpu), *old(mem)), opcode)),
        final(mem).wf(),
{
    reveal(pair_step);
    let row = opcode / 8;
    let column = opcode % 8;
    let which = row / 2;
    if column == 1 {
        if row % 2 == 0 {
            let value = mem.read_word(cpu.regs.pc_word());
            write_pair(cpu, which, value);
            12
        } else {
            let hl = add_u16(cpu.regs.get_hl(), read_pair(cpu, which), &mut cpu.regs.f);
            cpu.regs.set_hl(hl);
            8
        }
    } else if column == 2 {
        let address = match which {
            0 => cpu.regs.get_bc(),
            1 => cpu.regs.get_de(),
            2 => cpu.regs.get_hli(),
            _ => cpu.regs.get_hld(),
        };
        if row % 2 == 0 {
            mem.write(address, cpu.regs.a);
        } else {
            cpu.regs.a = mem.read(address);
        }
        8
    } else {
        let value = read_pair(cpu, which);
        if row % 2 == 0 {
            write_pair(cpu, which, value.wrapping_add(1));
        } else {
            write_pair(cpu, which, value.wrapping_sub(1));
        }
        8
    }
}

/// Columns 4 to 6 of the first quarter, which work on the operand that the
/// row names: `inc`, `dec` and `ld x, n8`.
#[verifier::opaque]
pub open spec fn byte_step(m: Machine, row: u8, column: u8) -> Machine {
    if column == 4 {
        m.with_flags(inc_flags(m.operand(row), m.regs().f)).with_operand(
            row,
            m.operand(row).wrapping_add(1),
        )
    } else if column == 5 {
        m.with_flags(dec_flags(m.operand(row), m.regs().f)).with_operand(
            row,
            m.operand(row).wrapping_sub(1),
        )
    } else {
        m.advance(1).with_operand(row, m.fetch())
    }
}

fn exec_byte(cpu: &mut Cpu, mem: &mut Memory, opcode: u8) -> (cycles: u8)
    requires
        old(mem).wf(),
        opcode < 0x40,
        4 <= opcode % 8 <= 6,
    ensures
        machine(*final(cpu), *final(mem)) == byte_step(
            machine(*old(cpu), *old(mem)),
            opcode / 8,
            opcode % 8,
        ),
        cycles == decoded_cycles(opcode, condition_of(machine(*old(cpu), *old(mem)), opcode)),
        final(mem).wf(),
{
    reveal(byte_step);
    let row = opcode / 8;
    let column = opcode % 8;
    if column == 6 {
        let value = mem.read(cpu.regs.pc());
        write_operand(cpu, mem, row, value);
        return if row == 6 {
            12
        } else {
            8
        };
    }
    let mut value = read_operand(cpu, mem, row);
    if column == 4 {
        inc(&mut value, &mut cpu.regs.f);
    } else {
        dec(&mut value, &mut cpu.regs.f);
    }
    write_operand(cpu, mem, row, value);
    if row == 6 {
        12
    } else {
        4
    }
}

/// Column 7 of the first quarter, which works on the accumulator: the four
/// rotates, which always clear Z, then `daa`, `cpl`, `scf` and `ccf`.
#[verifier::opaque]
pub open spec fn accumulator_step(cpu: Cpu, row: u8) -> Cpu {
    let a = cpu.regs.a;
    let f = cpu.regs.f;
    if row < 4 {
        cpu.with_regs(
            Registers {
                a: shift_value(row, a, f.carry_flag),
                f: Flag { zero_flag: false, ..shift_flags(0, shift_carry(row, a)) },
                ..cpu.regs
            },
        )
    } else if row == 4 {
        cpu.with_regs(
            Registers {
                a: daa_value(a, f.sub_flag, f.half_carry_flag, f.carry_flag),
                f: daa_flags(a, f),
                ..cpu.regs
            },
        )
    } else if row == 5 {
        cpu.with_regs(Registers { a: !a, f: cpl_flags(f), ..cpu.regs })
    } else if row == 6 {
        cpu.with_regs(Registers { f: carry_flags(f, true), ..cpu.regs })
    } else {
        cpu.with_regs(Registers { f: carry_flags(f, !f.carry_flag), ..cpu.regs })
    }
}

fn exec_accumulator(cpu: &mut Cpu, row: u8) -> (cycles: u8)
    requires
        row < 8,
    ensures
        *final(cpu) == accumulator_step(*old(cpu), row),
        cycles == 4,
{
    reveal(accumulator_step);
    if row < 4 {
        shift(&mut cpu.regs.a, row, &mut cpu.regs.f);
        cpu.regs.f.set_z(false);
    } else if row == 4 {
        daa(&mut cpu.regs.a, &mut cpu.regs.f);
    } else if row == 5 {
        cpl(&mut cpu.regs.a, &mut cpu.regs.f);
    } else if row == 6 {
        scf(&mut cpu.regs.f);
    } else {
        ccf(&mut cpu.regs.f);
    }
    4
}

/// `halt`: the processor halts if the master enable is set or nothing is
/// pending; with the master enable clear and an interrupt pending it goes on.
pub open spec fn halt_step(m: Machine) -> Machine {
    Machine { cpu: Cpu { halt: m.cpu.ime || pending_interrupts(m.bus) == 0, ..m.cpu }, ..m }
}

/// The second quarter, `40..7F`: `halt` at `76`, else the move of operand
/// `column` into operand `row`.
#[verifier::opaque]
pub open spec fn load_step(m: Machine, row: u8, column: u8) -> Machine {
    if row == 6 && column == 6 {
        halt_step(m)
    } else {
        m.with_operand(row, m.operand(column))
    }
}

fn exec_load(cpu: &mut Cpu, mem: &mut Memory, opcode: u8) -> (cycles: u8)
    requires
        old(mem).wf(),
        0x40 <= opcode < 0x80,
    ensures
        machine(*final(cpu), *final(mem)) == load_step(
            machine(*old(cpu), *old(mem)),
            ((opcode % 64) / 8) as u8,
            opcode % 8,
        ),
        cycles == decoded_cycles(opcode, condition_of(machine(*old(cpu), *old(mem)), opcode)),
        final(mem).wf(),
{
    reveal(load_step);
    let row = (opcode % 64) / 8;
    let column = opcode % 8;
    if row == 6 && column == 6 {
        let pending = (mem.read(INTERRUPT_F_ADDRESS) & mem.read(INTERRUPT_E_ADDRESS)) % 32;
        cpu.halt = cpu.ime || pending == 0;
        return 4;
    }
    let data = read_operand(cpu, mem, column);
    write_operand(cpu, mem, row, data);
    if row == 6 || column == 6 {
        8
    } else {
        4
    }
}

/// The third quarter, `80..BF`: arithmetic operation `row` on the
/// accumulator with operand `column`.
#[verifier::opaque]
pub open spec fn alu_step(m: Machine, row: u8, column: u8) -> Machine {
    alu_machine(m, row, m.operand(column))
}

fn exec_alu(cpu: &mut Cpu, mem: &mut Memory, opcode: u8) -> (cycles: u8)
    requires
        old(mem).wf(),
        0x80 <= opcode < 0xC0,
    ensures
        machine(*final(cpu), *final(mem)) == alu_step(
            machine(*old(cpu), *old(mem)),
            ((opcode % 64) / 8) as u8,
            opcode % 8,
        ),
        cycles == decoded_cycles(opcode, condition_of(machine(*old(cpu), *old(mem)), opcode)),
        final(mem).wf(),
{
    reveal(alu_step);
    let row = (opcode % 64) / 8;
    let column = opcode % 8;
    let data = read_operand(cpu, mem, column);
    alu(cpu, row, data);
    if column == 6 {
        8
    } else {
        4
    }
}

/// The bytes that have no decoding in the unprefixed page, the prefix byte
/// among them.
pub open spec fn undefined_opcode(opcode: u8) -> bool {
    opcode == 0xCB || opcode == 0xD3 || opcode == 0xDB || opcode == 0xDD || opcode == 0xE3
        || opcode == 0xE4 || opcode == 0xEB || opcode == 0xEC || opcode == 0xED || opcode == 0xF4
        || opcode == 0xFC || opcode == 0xFD
}

/// An address in the page of the I/O registers.
pub open spec fn high_page(offset: u8) -> u16 {
    (0xFF00 + offset) as u16
}

/// Column 0 of the last quarter: `ret cc` in rows 0 to 3, then `ldh [a8],
/// A`, `add SP, e8`, `ldh A, [a8]` and `ld HL, SP+e8`.
#[verifier::opaque]
pub open spec fn return_step(m: Machine, row: u8) -> Machine {
    if row < 4 {
        ret_machine(m, m.condition(row))
    } else if row == 4 {
        m.advance(1).with_bus(m.bus.write(high_page(m.fetch()), m.regs().a))
    } else if row == 5 {
        m.advance(1).with_sp(m.regs().sp.wrapping_add_signed(signed_of(m.fetch()) as i16)).with_flags(
            offset_flags(m.regs().sp, signed_of(m.fetch())),
        )
    } else if row == 6 {
        m.advance(1).with_a(m.bus.read(high_page(m.fetch())))
    } else {
        m.advance(1).with_pair(
            2,
            m.regs().sp.wrapping_add_signed(signed_of(m.fetch()) as i16),
        ).with_flags(offset_flags(m.regs().sp, signed_of(m.fetch())))
    }
}

/// Column 1 of the last quarter: `pop` in the even rows, then `ret`,
/// `reti`, `jp HL` and `ld SP, HL`.
#[verifier::opaque]
pub open spec fn pop_step(m: Machine, row: u8) -> Machine {
    if row % 2 == 0 {
        m.pop().with_stack_pair(row / 2, m.top())
    } else if row == 1 {
        ret_machine(m, true)
    } else if row == 3 {
        Machine { cpu: Cpu { ime: true, scheduled_ime: true, ..ret_machine(m, true).cpu }, ..m }
    } else if row == 5 {
        m.with_pc(m.regs().hl())
    } else {
        m.with_sp(m.regs().hl())
    }
}

/// Column 2 of the last quarter: `jp cc, a16` in rows 0 to 3, then the
/// loads between the accumulator and `[C]` in the high page or an absolute
/// address.
#[verifier::opaque]
pub open spec fn jump_step(m: Machine, row: u8) -> Machine {
    if row < 4 {
        Machine { cpu: jp_cpu(m.advance(2).cpu, m.condition(row), m.fetch_word()), ..m }
    } else if row == 4 {
        m.with_bus(m.bus.write(high_page(m.regs().c), m.regs().a))
    } else if row == 5 {
        m.advance(2).with_bus(m.bus.write(m.fetch_word(), m.regs().a))
    } else if row == 6 {
        m.with_a(m.bus.read(high_page(m.regs().c)))
    } else {
        m.advance(2).with_a(m.bus.read(m.fetch_word()))
    }
}

fn exec_return(cpu: &mut Cpu, mem: &mut Memory, opcode: u8) -> (cycles: u8)
    requires
        old(mem).wf(),
        0xC0 <= opcode,
        opcode % 8 == 0,
    ensures
        machine(*final(cpu), *final(mem)) == return_step(
            machine(*old(cpu), *old(mem)),
            ((opcode % 64) / 8) as u8,
        ),
        cycles == decoded_cycles(opcode, condition_of(machine(*old(cpu), *old(mem)), opcode)),
        final(mem).wf(),
{
    reveal(return_step);
    let row = (opcode % 64) / 8;
    if row < 4 {
        let cc = test_condition(cpu, row);
        ret(cpu, cc, mem)
    } else if row == 4 {
        let address = mem.read(cpu.regs.pc()) as u16 + 0xFF00;
        mem.write(address, cpu.regs.a);
        12
    } else if row == 5 {
        let data = to_signed(mem.read(cpu.regs.pc()));
        add_u16_i8(&mut cpu.regs.sp, data, &mut cpu.regs.f);
        16
    } else if row == 6 {
        let address = mem.read(cpu.regs.pc()) as u16 + 0xFF00;
        cpu.regs.a = mem.read(address);
        12
    } else {
        let data = to_signed(mem.read(cpu.regs.pc()));
        set_add_u16_i8(cpu, data);
        12
    }
}

fn exec_pop(cpu: &mut Cpu, mem: &mut Memory, opcode: u8) -> (cycles: u8)
    requires
        old(mem).wf(),
        0xC0 <= opcode,
        opcode % 8 == 1,
    ensures
        machine(*final(cpu), *final(mem)) == pop_step(
            machine(*old(cpu), *old(mem)),
            ((opcode % 64) / 8) as u8,
        ),
        cycles == decoded_cycles(opcode, condition_of(machine(*old(cpu), *old(mem)), opcode)),
        final(mem).wf(),
{
    reveal(pop_step);
    let row = (opcode % 64) / 8;
    if row % 2 == 0 {
        let value = pop_word(cpu, mem);
        write_stack_pair(cpu, row / 2, value);
        12
    } else if row == 1 {
        ret(cpu, true, mem);
        16
    } else if row == 3 {
        ret(cpu, true, mem);
        cpu.scheduled_ime = true;
        cpu.ime = true;
        16
    } else if row == 5 {
        let hl = cpu.regs.get_hl();
        jp(cpu, true, hl);
        4
    } else {
        cpu.regs.sp = cpu.regs.get_hl();
        8
    }
}

fn exec_jump(cpu: &mut Cpu, mem: &mut Memory, opcode: u8) -> (cycles: u8)
    requires
        old(mem).wf(),
        0xC0 <= opcode,
        opcode % 8 == 2,
    ensures
        machine(*final(cpu), *final(mem)) == jump_step(
            machine(*old(cpu), *old(mem)),
            ((opcode % 64) / 8) as u8,
        ),
        cycles == decoded_cycles(opcode, condition_of(machine(*old(cpu), *old(mem)), opcode)),
        final(mem).wf(),
{
    reveal(jump_step);
    let row = (opcode % 64) / 8;
    if row < 4 {
        let new = mem.read_word(cpu.regs.pc_word());
        let cc = test_condition(cpu, row);
        jp(cpu, cc, new)
    } else if row == 4 {
        let address = cpu.regs.c as u16 + 0xFF00;
        mem.write(address, cpu.regs.a);
        8
    } else if row == 5 {
        let address = mem.read_word(cpu.regs.pc_word());
        mem.write(address, cpu.regs.a);
        16
    } else if row == 6 {
        let address = cpu.regs.c as u16 + 0xFF00;
        cpu.regs.a = mem.read(address);
        8
    } else {
        let address = mem.read_word(cpu.regs.pc_word());
        cpu.regs.a = mem.read(address);
        16
    }
}

/// Whether the byte in `row` and `column` of the last quarter, columns 3
/// to 7, has a decoding.
pub open spec fn call_defined(row: u8, column: u8) -> bool {
    if column == 3 {
        row == 0 || row == 6 || row == 7
    } else if column == 4 {
        row < 4
    } else if column == 5 {
        row % 2 == 0 || row == 1
    } else {
        true
    }
}

/// Columns 3 to 7 of the last quarter, where they have a decoding: `jp
/// a16`, `di` and `ei`; `call cc`; `push` (even rows) and `call`;
/// arithmetic with an immediate byte; the restarts.
#[verifier::opaque]
pub open spec fn call_step(m: Machine, row: u8, column: u8) -> Machine {
    if column == 3 {
        if row == 0 {
            Machine { cpu: jp_cpu(m.advance(2).cpu, true, m.fetch_word()), ..m }
        } else if row == 6 {
            Machine { cpu: Cpu { ime: false, scheduled_ime: false, ..m.cpu }, ..m }
        } else if row == 7 {
            Machine { cpu: Cpu { scheduled_ime: true, ..m.cpu }, ..m }
        } else {
            m
        }
    } else if column == 4 {
        if row < 4 {
            call_machine(m, m.condition(row))
        } else {
            m
        }
    } else if column == 5 {
        if row % 2 == 0 {
            m.push(m.stack_pair(row / 2))
        } else if row == 1 {
            call_machine(m, true)
        } else {
            m
        }
    } else if column == 6 {
        alu_machine(m.advance(1), row, m.fetch())
    } else {
        rst_machine(m, (8 * row) as u16)
    }
}

fn exec_call(cpu: &mut Cpu, mem: &mut Memory, opcode: u8) -> (r: Option<u8>)
    requires
        old(mem).wf(),
        0xC0 <= opcode,
        3 <= opcode % 8,
    ensures
        r.is_some() == call_defined(((opcode % 64) / 8) as u8, opcode % 8),
        machine(*final(cpu), *final(mem)) == call_step(
            machine(*old(cpu), *old(mem)),
            ((opcode % 64) / 8) as u8,
            opcode % 8,
        ),
        r.is_some() ==> r.unwrap() == decoded_cycles(
            opcode,
            condition_of(machine(*old(cpu), *old(mem)), opcode),
        ),
        r.is_none() ==> machine(*final(cpu), *final(mem)) == machine(*old(cpu), *old(mem)),
        final(mem).wf(),
{
    reveal(call_step);
    let row = (opcode % 64) / 8;
    let column = opcode % 8;
    if column == 3 {
        if row == 0 {
            let new = mem.read_word(cpu.regs.pc_word());
            Some(jp(cpu, true, new))
        } else if row == 6 {
            cpu.scheduled_ime = false;
            cpu.ime = false;
            Some(4)
        } else if row == 7 {
            cpu.scheduled_ime = true;
            Some(4)
        } else {
            None
        }
    } else if column == 4 {
        if row < 4 {
            let cc = test_condition(cpu, row);
            Some(call(cpu, cc, mem))
        } else {
            None
        }
    } else if column == 5 {
        if row % 2 == 0 {
            let value = read_stack_pair(cpu, row / 2);
            push_word(cpu, mem, value);
            Some(16)
        } else if row == 1 {
            Some(call(cpu, true, mem))
        } else {
            None
        }
    } else if column == 6 {
        let data = mem.read(cpu.regs.pc());
        alu(cpu, row, data);
        Some(8)
    } else {
        rst(cpu, mem, 8 * (row as u16));
        Some(16)
    }
}

/// The cycles that each opcode of the unprefixed page takes, by the
/// table of the machine: `taken` tells whether the condition of a
/// conditional jump, call or return held. A byte without a decoding has 0.
#[verifier::opaque]
pub open spec fn opcode_cycles(opcode: u8, taken: bool) -> u8 {
    match opcode {
        0x00 => 4,
        0x01 => 12,
        0x02 => 8,
        0x03 => 8,
        0x04 => 4,
        0x05 => 4,
        0x06 => 8,
        0x07 => 4,
        0x08 => 20,
        0x09 => 8,
        0x0A => 8,
        0x0B => 8,
        0x0C => 4,
        0x0D => 4,
        0x0E => 8,
        0x0F => 4,
        0x10 => 4,
        0x11 => 12,
        0x12 => 8,
        0x13 => 8,
        0x14 => 4,
        0x15 => 4,
        0x16 => 8,
        0x17 => 4,
        0x18 => 12,
        0x19 => 8,
        0x1A => 8,
        0x1B => 8,
        0x1C => 4,
        0x1D => 4,
        0x1E => 8,
        0x1F => 4,
        0x20 => if taken { 12 } else { 8 },
        0x21 => 12,
        0x22 => 8,
        0x23 => 8,
        0x24 => 4,
        0x25 => 4,
        0x26 => 8,
        0x27 => 4,
        0x28 => if taken { 12 } else { 8 },
        0x29 => 8,
        0x2A => 8,
        0x2B => 8,
        0x2C => 4,
        0x2D => 4,
        0x2E => 8,
        0x2F => 4,
        0x30 => if taken { 12 } else { 8 },
        0x31 => 12,
        0x32 => 8,
        0x33 => 8,
        0x34 => 12,
        0x35 => 12,
        0x36 => 12,
        0x37 => 4,
        0x38 => if taken { 12 } else { 8 },
        0x39 => 8,
        0x3A => 8,
        0x3B => 8,
        0x3C => 4,
        0x3D => 4,
        0x3E => 8,
        0x3F => 4,
        0x40 => 4,
        0x41 => 4,
        0x42 => 4,
        0x43 => 4,
        0x44 => 4,
        0x45 => 4,
        0x46 => 8,
        0x47 => 4,
        0x48 => 4,
        0x49 => 4,
        0x4A => 4,
        0x4B => 4,
        0x4C => 4,
        0x4D => 4,
        0x4E => 8,
        0x4F => 4,
        0x50 => 4,
        0x51 => 4,
        0x52 => 4,
        0x53 => 4,
        0x54 => 4,
        0x55 => 4,
        0x56 => 8,
        0x57 => 4,
        0x58 => 4,
        0x59 => 4,
        0x5A => 4,
        0x5B => 4,
        0x5C => 4,
        0x5D => 4,
        0x5E => 8,
        0x5F => 4,
        0x60 => 4,
        0x61 => 4,
        0x62 => 4,
        0x63 => 4,
        0x64 => 4,
        0x65 => 4,
        0x66 => 8,
        0x67 => 4,
        0x68 => 4,
        0x69 => 4,
        0x6A => 4,
        0x6B => 4,
        0x6C => 4,
        0x6D => 4,
        0x6E => 8,
        0x6F => 4,
        0x70 => 8,
        0x71 => 8,
        0x72 => 8,
        0x73 => 8,
        0x74 => 8,
        0x75 => 8,
        0x76 => 4,
        0x77 => 8,
        0x78 => 4,
        0x79 => 4,
        0x7A => 4,
        0x7B => 4,
        0x7C => 4,
        0x7D => 4,
        0x7E => 8,
        0x7F => 4,
        0x80 => 4,
        0x81 => 4,
        0x82 => 4,
        0x83 => 4,
        0x84 => 4,
        0x85 => 4,
        0x86 => 8,
        0x87 => 4,
        0x88 => 4,
        0x89 => 4,
        0x8A => 4,
        0x8B => 4,
        0x8C => 4,
        0x8D => 4,
        0x8E => 8,
        0x8F => 4,
        0x90 => 4,
        0x91 => 4,
        0x92 => 4,
        0x93 => 4,
        0x94 => 4,
        0x95 => 4,
        0x96 => 8,
        0x97 => 4,
        0x98 => 4,
        0x99 => 4,
        0x9A => 4,
        0x9B => 4,
        0x9C => 4,
        0x9D => 4,
        0x9E => 8,
        0x9F => 4,
        0xA0 => 4,
        0xA1 => 4,
        0xA2 => 4,
        0xA3 => 4,
        0xA4 => 4,
        0xA5 => 4,
        0xA6 => 8,
        0xA7 => 4,
        0xA8 => 4,
        0xA9 => 4,
        0xAA => 4,
        0xAB => 4,
        0xAC => 4,
        0xAD => 4,
        0xAE => 8,
        0xAF => 4,
        0xB0 => 4,
        0xB1 => 4,
        0xB2 => 4,
        0xB3 => 4,
        0xB4 => 4,
        0xB5 => 4,
        0xB6 => 8,
        0xB7 => 4,
        0xB8 => 4,
        0xB9 => 4,
        0xBA => 4,
        0xBB => 4,
        0xBC => 4,
        0xBD => 4,
        0xBE => 8,
        0xBF => 4,
        0xC0 => if taken { 20 } else { 8 },
        0xC1 => 12,
        0xC2 => if taken { 16 } else { 12 },
        0xC3 => 16,
        0xC4 => if taken { 24 } else { 12 },
        0xC5 => 16,
        0xC6 => 8,
        0xC7 => 16,
        0xC8 => if taken { 20 } else { 8 },
        0xC9 => 16,
        0xCA => if taken { 16 } else { 12 },
        0xCC => if taken { 24 } else { 12 },
        0xCD => 24,
        0xCE => 8,
        0xCF => 16,
        0xD0 => if taken { 20 } else { 8 },
        0xD1 => 12,
        0xD2 => if taken { 16 } else { 12 },
        0xD4 => if taken { 24 } else { 12 },
        0xD5 => 16,
        0xD6 => 8,
        0xD7 => 16,
        0xD8 => if taken { 20 } else { 8 },
        0xD9 => 16,
        0xDA => if taken { 16 } else { 12 },
        0xDC => if taken { 24 } else { 12 },
        0xDE => 8,
        0xDF => 16,
        0xE0 => 12,
        0xE1 => 12,
        0xE2 => 8,
        0xE5 => 16,
        0xE6 => 8,
        0xE7 => 16,
        0xE8 => 16,
        0xE9 => 4,
        0xEA => 16,
        0xEE => 8,
        0xEF => 16,
        0xF0 => 12,
        0xF1 => 12,
        0xF2 => 8,
        0xF3 => 4,
        0xF5 => 16,
        0xF6 => 8,
        0xF7 => 16,
        0xF8 => 12,
        0xF9 => 8,
        0xFA => 16,
        0xFB => 4,
        0xFE => 8,
        0xFF => 16,
        _ => 0,
    }
}

/// The cycles that each opcode of the prefixed page takes: eight, and on
/// the byte that HL points to twelve for `bit` and sixteen for the others.
pub open spec fn prefixed_cycles(opcode: u8) -> u8 {
    if opcode % 8 != 6 {
        8
    } else if 0x40 <= opcode < 0x80 {
        12
    } else {
        16
    }
}

/// Whether the condition holds that a conditional opcode names in its bits
/// 3 and 4.
pub open spec fn condition_of(m: Machine, opcode: u8) -> bool {
    m.condition(((opcode / 8) % 4) as u8)
}

/// The cycles that the decoder counts for an opcode, from its row and
/// column alone.
pub open spec fn decoded_cycles(opcode: u8, taken: bool) -> u8 {
    let row = (opcode % 64) / 8;
    let column = opcode % 8;
    if opcode < 0x40 {
        if column == 0 {
            if row == 0 || row == 2 {
                4
            } else if row == 1 {
                20
            } else if row == 3 || taken {
                12
            } else {
                8
            }
        } else if column == 1 {
            if row % 2 == 0 {
                12
            } else {
                8
            }
        } else if column <= 3 {
            8
        } else if column <= 5 {
            if row == 6 {
                12
            } else {
                4
            }
        } else if column == 6 {
            if row == 6 {
                12
            } else {
                8
            }
        } else {
            4
        }
    } else if opcode < 0x80 {
        if row == 6 && column == 6 {
            4
        } else if row == 6 || column == 6 {
            8
        } else {
            4
        }
    } else if opcode < 0xC0 {
        if column == 6 {
            8
        } else {
            4
        }
    } else if column == 0 {
        if row < 4 {
            if taken {
                20
            } else {
                8
            }
        } else if row == 5 {
            16
        } else {
            12
        }
    } else if column == 1 {
        if row % 2 == 0 {
            12
        } else if row == 1 || row == 3 {
            16
        } else if row == 5 {
            4
        } else {
            8
        }
    } else if column == 2 {
        if row < 4 {
            if taken {
                16
            } else {
                12
            }
        } else if row == 4 || row == 6 {
            8
        } else {
            16
        }
    } else if column == 3 {
        if row == 0 {
            16
        } else {
            4
        }
    } else if column == 4 {
        if taken {
            24
        } else {
            12
        }
    } else if column == 5 {
        if row % 2 == 0 {
            16
        } else {
            24
        }
    } else if column == 6 {
        8
    } else {
        16
    }
}

/// What the decoder counts is what the table gives, for every byte that
/// has a decoding: between 4 and 24 cycles.
pub proof fn lemma_decoded_cycles(opcode: u8, taken: bool)
    requires
        !undefined_opcode(opcode),
    ensures
        decoded_cycles(opcode, taken) == opcode_cycles(opcode, taken),
        4 <= opcode_cycles(opcode, taken) <= 24,
{
    reveal(opcode_cycles);
}

/// `add SP, e8` (`E8`) and `ld HL, SP+e8` (`F8`) take H and C from the sum
/// of the low byte of SP and the offset as an unsigned byte, and clear Z
/// and N; the first moves SP by the signed offset, the second leaves SP as
/// it is and puts the moved value into HL.
pub proof fn lemma_stack_offset(m: Machine)
    ensures
        unprefixed_machine(m, 0xE8).regs().f == offset_flags(m.regs().sp, signed_of(m.fetch())),
        unprefixed_machine(m, 0xF8).regs().f == offset_flags(m.regs().sp, signed_of(m.fetch())),
        unprefixed_machine(m, 0xE8).regs().sp == m.regs().sp.wrapping_add_signed(
            signed_of(m.fetch()) as i16,
        ),
        unprefixed_machine(m, 0xF8).regs().sp == m.regs().sp,
        unprefixed_machine(m, 0xF8).regs().hl() == m.regs().sp.wrapping_add_signed(
            signed_of(m.fetch()) as i16,
        ),
        offset_flags(m.regs().sp, signed_of(m.fetch())).carry_flag == (m.regs().sp % 256 + m.fetch()
            > 255),
        offset_flags(m.regs().sp, signed_of(m.fetch())).half_carry_flag == (m.regs().sp % 16
            + m.fetch() % 16 > 15),
{
    reveal(unprefixed_machine);
    reveal(return_step);
}

/// The machine after an opcode of the unprefixed page, whose operands
/// follow at the program counter. A byte without a decoding changes
/// nothing.
#[verifier::opaque]
pub open spec fn unprefixed_machine(m: Machine, opcode: u8) -> Machine {
    let row = (opcode % 64) / 8;
    let column = opcode % 8;
    if opcode < 0x40 {
        if column == 0 {
            misc_step(m, row)
        } else if column <= 3 {
            pair_step(m, row, column)
        } else if column <= 6 {
            byte_step(m, row, column)
        } else {
            Machine { cpu: accumulator_step(m.cpu, row), ..m }
        }
    } else if opcode < 0x80 {
        load_step(m, row, column)
    } else if opcode < 0xC0 {
        alu_step(m, row, column)
    } else if column == 0 {
        return_step(m, row)
    } else if column == 1 {
        pop_step(m, row)
    } else if column == 2 {
        jump_step(m, row)
    } else if opcode == 0xCB {
        m
    } else {
        call_step(m, row, column)
    }
}

/// What an opcode of the unprefixed page does to the machine, and the
/// cycles it takes by the table; nothing for a byte without a decoding.
pub open spec fn unprefixed_step(m: Machine, opcode: u8) -> Option<(Machine, u8)> {
    if undefined_opcode(opcode) {
        None
    } else {
        Some((unprefixed_machine(m, opcode), opcode_cycles(opcode, condition_of(m, opcode))))
    }
}

/// Executes an opcode of the unprefixed page, whose operands follow at the
/// program counter. Returns the cycles it took, which are those of the
/// table, or `UndefinedOpcode` for a byte without a decoding, which changes
/// nothing.
pub fn unprefixed_opcode(cpu: &mut Cpu, mem: &mut Memory, opcode: u8) -> (r: Result<u8, CoreError>)
    requires
        old(mem).wf(),
    ensures
        r.is_ok() == !undefined_opcode(opcode),
        r.is_ok() ==> Some((machine(*final(cpu), *final(mem)), r.unwrap())) == unprefixed_step(
            machine(*old(cpu), *old(mem)),
            opcode,
        ),
        r.is_ok() ==> 4 <= r.unwrap() <= 24,
        r.is_err() ==> r.unwrap_err() == CoreError::UndefinedOpcode && machine(
            *final(cpu),
            *final(mem),
        ) == machine(*old(cpu), *old(mem)),
        final(mem).wf(),
{
    proof {
        reveal(unprefixed_machine);
        if !undefined_opcode(opcode) {
            lemma_decoded_cycles(opcode, condition_of(machine(*cpu, *mem), opcode));
        }
    }
    let row = (opcode % 64) / 8;
    let column = opcode % 8;
    if opcode < 0x40 {
        if column == 0 {
            Ok(exec_misc(cpu, mem, opcode))
        } else if column <= 3 {
            Ok(exec_pair(cpu, mem, opcode))
        } else if column <= 6 {
            Ok(exec_byte(cpu, mem, opcode))
        } else {
            Ok(exec_accumulator(cpu, row))
        }
    } else if opcode < 0x80 {
        Ok(exec_load(cpu, mem, opcode))
    } else if opcode < 0xC0 {
        Ok(exec_alu(cpu, mem, opcode))
    } else if column == 0 {
        Ok(exec_return(cpu, mem, opcode))
    } else if column == 1 {
        Ok(exec_pop(cpu, mem, opcode))
    } else if column == 2 {
        Ok(exec_jump(cpu, mem, opcode))
    } else if opcode == 0xCB {
        Err(CoreError::UndefinedOpcode)
    } else {
        match exec_call(cpu, mem, opcode) {
            Some(cycles) => Ok(cycles),
            None => Err(CoreError::UndefinedOpcode),
        }
    }
}

/// The machine after an opcode of the prefixed page: `opcode % 8` names
/// the operand, `opcode / 8` the operation, which is a member of the rotate
/// and shift family (0 to 7), `bit n` (8 to 15), `res n` (16 to 23) or
/// `set n` (24 to 31).
#[verifier::opaque]
pub open spec fn prefixed_machine(m: Machine, opcode: u8) -> Machine {
    let target = opcode % 8;
    let operation = opcode / 8;
    let value = m.operand(target);
    let f = m.regs().f;
    if operation < 8 {
        m.with_flags(
            shift_flags(shift_value(operation, value, f.carry_flag), shift_carry(operation, value)),
        ).with_operand(target, shift_value(operation, value, f.carry_flag))
    } else if operation < 16 {
        m.with_flags(bit_flags(value, (operation - 8) as u8, f))
    } else {
        m.with_operand(target, spec_with_bit(value, (operation % 8) as u8, operation >= 24))
    }
}

/// What an opcode of the prefixed page does to the machine, and the cycles
/// it takes.
pub open spec fn prefixed_step(m: Machine, opcode: u8) -> (Machine, u8) {
    (prefixed_machine(m, opcode), prefixed_cycles(opcode))
}

/// Executes the opcode of the prefixed page that stands at the program
/// counter. Returns the cycles it took.
pub fn prefixed_opcode(cpu: &mut Cpu, memory: &mut Memory) -> (cycles: u8)
    requires
        old(memory).wf(),
    ensures
        (machine(*final(cpu), *final(memory)), cycles) == prefixed_step(
            machine(*old(cpu), *old(memory)).advance(1),
            machine(*old(cpu), *old(memory)).fetch(),
        ),
        cycles == 8 || cycles == 12 || cycles == 16,
        final(memory).wf(),
{
    reveal(prefixed_machine);
    let opcode = memory.read(cpu.regs.pc());
    let target = opcode % 8;
    let operation = opcode / 8;
    let mut value = read_operand(cpu, memory, target);
    if operation < 8 {
        shift(&mut value, operation, &mut cpu.regs.f);
        write_operand(cpu, memory, target, value);
    } else if operation < 16 {
        bit(&mut value, &mut cpu.regs.f, operation - 8);
        return if target == 6 {
            12
        } else {
            8
        };
    } else {
        value = with_bit(value, operation % 8, operation >= 24);
        write_operand(cpu, memory, target, value);
    }
    if target == 6 {
        16
    } else {
        8
    }
}

/// What one instruction does: the opcode at the program counter is
/// fetched and executed. A master enable that was scheduled before the
/// instruction, and that the instruction did not change, takes effect
/// after it.
#[verifier::opaque]
pub open spec fn run_step(m: Machine) -> Option<(Machine, u8)> {
    let opcode = m.fetch();
    let fetched = m.advance(1);
    let done = if opcode == 0xCB {
        Some(prefixed_step(fetched.advance(1), fetched.fetch()))
    } else {
        unprefixed_step(fetched, opcode)
    };
    match done {
        Some((after, cycles)) => Some(
            (
                if m.cpu.scheduled_ime == after.cpu.scheduled_ime {
                    Machine { cpu: Cpu { ime: after.cpu.scheduled_ime, ..after.cpu }, ..after }
                } else {
                    after
                },
                cycles,
            ),
        ),
        None => None,
    }
}

/// Fetches and executes one instruction. Returns the cycles it took, or
/// `UndefinedOpcode` if the byte fetched has no decoding; then only the
/// program counter has moved.
pub fn run(cpu: &mut Cpu, memory: &mut Memory) -> (r: Result<u8, CoreError>)
    requires
        old(memory).wf(),
    ensures
        r.is_ok() == run_step(machine(*old(cpu), *old(memory))).is_some(),
        r.is_ok() ==> (machine(*final(cpu), *final(memory)), r.unwrap()) == run_step(
            machine(*old(cpu), *old(memory)),
        ).unwrap(),
        r.is_ok() ==> 4 <= r.unwrap() <= 24,
        r.is_err() ==> r.unwrap_err() == CoreError::UndefinedOpcode && machine(
            *final(cpu),
            *final(memory),
        ) == machine(*old(cpu), *old(memory)).advance(1),
        final(memory).wf(),
{
    reveal(run_step);
    let temp_ime = cpu.scheduled_ime;
    let opcode = memory.read(cpu.regs.pc());
    let used_cycles = if opcode == 0xCB {
        prefixed_opcode(cpu, memory)
    } else {
        match unprefixed_opcode(cpu, memory, opcode) {
            Ok(cycles) => cycles,
            Err(e) => {
                return Err(e);
            },
        }
    };
    if temp_ime == cpu.scheduled_ime {
        cpu.ime = cpu.scheduled_ime;
    }
    Ok(used_cycles)
}

} // verus!
