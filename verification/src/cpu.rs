//! The processor state, and the machine that the instructions act on.

use vstd::prelude::*;
use crate::memory::{BusState, Memory};
use crate::registers::{Flag, Registers};
use crate::util::word_of;

verus! {

/// The processor: its registers, the interrupt master enable with its
/// scheduled companion, and the two latches.
#[derive(Debug, Clone, Copy, PartialEq, Eq, Structural)]
pub struct Cpu {
    pub regs: Registers,
    pub halt: bool,
    pub stopped: bool,
    pub ime: bool,
    pub scheduled_ime: bool,
}

impl Cpu {
    /// The processor at power-on: in booted mode with the registers that the
    /// boot program leaves, else with every register zero.
    pub open spec fn initial(booted: bool) -> Cpu {
        Cpu {
            regs: if booted {
                Registers::booted()
            } else {
                Registers {
                    a: 0,
                    f: Flag::of_bits(0),
                    b: 0,
                    c: 0,
                    d: 0,
                    e: 0,
                    h: 0,
                    l: 0,
                    pc: 0,
                    sp: 0,
                }
            },
            halt: false,
            stopped: false,
            ime: false,
            scheduled_ime: false,
        }
    }

    pub open spec fn with_regs(self, regs: Registers) -> Cpu {
        Cpu { regs, ..self }
    }

    /// The register pair with index `i`: BC, DE, HL, and SP.
    pub open spec fn pair(self, i: u8) -> u16 {
        if i == 0 {
            self.regs.bc()
        } else if i == 1 {
            self.regs.de()
        } else if i == 2 {
            self.regs.hl()
        } else {
            self.regs.sp
        }
    }

    /// The processor with `v` stored in the register pair with index `i`.
    pub open spec fn with_pair(self, i: u8, v: u16) -> Cpu {
        if i == 0 {
            self.with_regs(self.regs.with_bc(v))
        } else if i == 1 {
            self.with_regs(self.regs.with_de(v))
        } else if i == 2 {
            self.with_regs(self.regs.with_hl(v))
        } else {
            self.with_regs(Registers { sp: v, ..self.regs })
        }
    }

    /// The pair with index `i` as the stack instructions count them: BC,
    /// DE, HL, and AF.
    pub open spec fn stack_pair(self, i: u8) -> u16 {
        if i == 3 {
            self.regs.af()
        } else {
            self.pair(i)
        }
    }

    /// The processor with `v` stored in the pair that the stack
    /// instructions count as `i`.
    pub open spec fn with_stack_pair(self, i: u8, v: u16) -> Cpu {
        if i == 3 {
            self.with_regs(self.regs.with_af(v))
        } else {
            self.with_pair(i, v)
        }
    }

    /// The condition with index `i`: NZ, Z, NC, C.
    pub open spec fn condition(self, i: u8) -> bool {
        if i == 0 {
            !self.regs.f.zero_flag
        } else if i == 1 {
            self.regs.f.zero_flag
        } else if i == 2 {
            !self.regs.f.carry_flag
        } else {
            self.regs.f.carry_flag
        }
    }

    pub fn new(booted: bool) -> (cpu: Self)
        ensures
            cpu == Cpu::initial(booted),
    {
        let regs = if booted {
            Registers::default()
        } else {
            Registers { a: 0, f: Flag::from_u8(0), b: 0, c: 0, d: 0, e: 0, h: 0, l: 0, pc: 0, sp: 0 }
        };
        Cpu { regs, halt: false, stopped: false, ime: false, scheduled_ime: false }
    }
}

/// The processor together with the bus: what an instruction sees and
/// changes.
pub struct Machine {
    pub cpu: Cpu,
    pub bus: BusState,
}

/// The machine made of a processor and a bus.
pub open spec fn machine(cpu: Cpu, mem: Memory) -> Machine {
    Machine { cpu, bus: mem@ }
}

impl Machine {
    pub open spec fn regs(self) -> Registers {
        self.cpu.regs
    }

    pub open spec fn with_regs(self, regs: Registers) -> Machine {
        Machine { cpu: Cpu { regs, ..self.cpu }, ..self }
    }

    pub open spec fn with_bus(self, bus: BusState) -> Machine {
        Machine { bus, ..self }
    }

    pub open spec fn with_flags(self, f: Flag) -> Machine {
        self.with_regs(Registers { f, ..self.regs() })
    }

    pub open spec fn with_a(self, a: u8) -> Machine {
        self.with_regs(Registers { a, ..self.regs() })
    }

    pub open spec fn with_pc(self, pc: u16) -> Machine {
        self.with_regs(Registers { pc, ..self.regs() })
    }

    pub open spec fn with_sp(self, sp: u16) -> Machine {
        self.with_regs(Registers { sp, ..self.regs() })
    }

    /// The machine with the program counter moved on by `n`, wrapping.
    pub open spec fn advance(self, n: u16) -> Machine {
        self.with_pc(self.regs().pc.wrapping_add(n))
    }

    /// The byte at the program counter.
    pub open spec fn fetch(self) -> u8 {
        self.bus.read(self.regs().pc)
    }

    /// The word at the program counter.
    pub open spec fn fetch_word(self) -> u16 {
        self.bus.read_word(self.regs().pc)
    }

    /// The operand with index `i`: 0 to 5 and 7 are the registers B, C, D,
    /// E, H, L and A, 6 is the byte that HL points to.
    pub open spec fn operand(self, i: u8) -> u8 {
        if i == 0 {
            self.regs().b
        } else if i == 1 {
            self.regs().c
        } else if i == 2 {
            self.regs().d
        } else if i == 3 {
            self.regs().e
        } else if i == 4 {
            self.regs().h
        } else if i == 5 {
            self.regs().l
        } else if i == 6 {
            self.bus.read(self.regs().hl())
        } else {
            self.regs().a
        }
    }

    /// The machine with `v` stored in the operand with index `i`.
    pub open spec fn with_operand(self, i: u8, v: u8) -> Machine {
        if i == 0 {
            self.with_regs(Registers { b: v, ..self.regs() })
        } else if i == 1 {
            self.with_regs(Registers { c: v, ..self.regs() })
        } else if i == 2 {
            self.with_regs(Registers { d: v, ..self.regs() })
        } else if i == 3 {
            self.with_regs(Registers { e: v, ..self.regs() })
        } else if i == 4 {
            self.with_regs(Registers { h: v, ..self.regs() })
        } else if i == 5 {
            self.with_regs(Registers { l: v, ..self.regs() })
        } else if i == 6 {
            self.with_bus(self.bus.write(self.regs().hl(), v))
        } else {
            self.with_regs(Registers { a: v, ..self.regs() })
        }
    }

    /// The register pair with index `i`: BC, DE, HL, and SP.
    pub open spec fn pair(self, i: u8) -> u16 {
        self.cpu.pair(i)
    }

    /// The machine with `v` stored in the register pair with index `i`.
    pub open spec fn with_pair(self, i: u8, v: u16) -> Machine {
        Machine { cpu: self.cpu.with_pair(i, v), ..self }
    }

    /// The pair with index `i` as the stack instructions count them.
    pub open spec fn stack_pair(self, i: u8) -> u16 {
        self.cpu.stack_pair(i)
    }

    /// The machine with `v` stored in the pair that the stack instructions
    /// count as `i`.
    pub open spec fn with_stack_pair(self, i: u8, v: u16) -> Machine {
        Machine { cpu: self.cpu.with_stack_pair(i, v), ..self }
    }

    /// The condition with index `i`: NZ, Z, NC, C.
    pub open spec fn condition(self, i: u8) -> bool {
        self.cpu.condition(i)
    }

    /// The machine after a word was pushed: the stack pointer goes down by
    /// two, then the word is written, low byte first.
    pub open spec fn push(self, w: u16) -> Machine {
        let sp = self.regs().sp.wrapping_sub(2);
        self.with_sp(sp).with_bus(self.bus.write_word(sp, w))
    }

    /// The word on top of the stack.
    pub open spec fn top(self) -> u16 {
        self.bus.read_word(self.regs().sp)
    }

    /// The machine after a word was popped: the stack pointer goes up by two.
    pub open spec fn pop(self) -> Machine {
        self.with_sp(self.regs().sp.wrapping_add(2))
    }
}

/// Reads the operand with index `i`.
pub fn read_operand(cpu: &Cpu, mem: &Memory, i: u8) -> (v: u8)
    requires
        mem.wf(),
    ensures
        v == machine(*cpu, *mem).operand(i),
{
    match i {
        0 => cpu.regs.b,
        1 => cpu.regs.c,
        2 => cpu.regs.d,
        3 => cpu.regs.e,
        4 => cpu.regs.h,
        5 => cpu.regs.l,
        6 => mem.read(cpu.regs.get_hl()),
        _ => cpu.regs.a,
    }
}

/// Stores `v` in the operand with index `i`.
pub fn write_operand(cpu: &mut Cpu, mem: &mut Memory, i: u8, v: u8)
    requires
        old(mem).wf(),
    ensures
        machine(*final(cpu), *final(mem)) == machine(*old(cpu), *old(mem)).with_operand(i, v),
        final(mem).wf(),
{
    match i {
        0 => cpu.regs.b = v,
        1 => cpu.regs.c = v,
        2 => cpu.regs.d = v,
        3 => cpu.regs.e = v,
        4 => cpu.regs.h = v,
        5 => cpu.regs.l = v,
        6 => mem.write(cpu.regs.get_hl(), v),
        _ => cpu.regs.a = v,
    }
}

/// Reads the register pair with index `i`.
pub fn read_pair(cpu: &Cpu, i: u8) -> (v: u16)
    ensures
        v == cpu.pair(i),
{
    match i {
        0 => cpu.regs.get_bc(),
        1 => cpu.regs.get_de(),
        2 => cpu.regs.get_hl(),
        _ => cpu.regs.sp,
    }
}

/// Stores `v` in the register pair with index `i`.
pub fn write_pair(cpu: &mut Cpu, i: u8, v: u16)
    ensures
        *final(cpu) == old(cpu).with_pair(i, v),
{
    match i {
        0 => cpu.regs.set_bc(v),
        1 => cpu.regs.set_de(v),
        2 => cpu.regs.set_hl(v),
        _ => cpu.regs.sp = v,
    }
}

/// Reads the pair that the stack instructions count as `i`.
pub fn read_stack_pair(cpu: &Cpu, i: u8) -> (v: u16)
    ensures
        v == cpu.stack_pair(i),
{
    if i == 3 {
        cpu.regs.get_af()
    } else {
        read_pair(cpu, i)
    }
}

/// Stores `v` in the pair that the stack instructions count as `i`.
pub fn write_stack_pair(cpu: &mut Cpu, i: u8, v: u16)
    ensures
        *final(cpu) == old(cpu).with_stack_pair(i, v),
{
    if i == 3 {
        cpu.regs.set_af(v);
    } else {
        write_pair(cpu, i, v);
    }
}

/// Tests the condition with index `i`.
pub fn test_condition(cpu: &Cpu, i: u8) -> (b: bool)
    ensures
        b == cpu.condition(i),
{
    match i {
        0 => !cpu.regs.f.z(),
        1 => cpu.regs.f.z(),
        2 => !cpu.regs.f.c(),
        _ => cpu.regs.f.c(),
    }
}

/// Pushes a word onto the stack.
pub fn push_word(cpu: &mut Cpu, mem: &mut Memory, w: u16)
    requires
        old(mem).wf(),
    ensures
        machine(*final(cpu), *final(mem)) == machine(*old(cpu), *old(mem)).push(w),
        final(mem).wf(),
{
    let sp = cpu.regs.sp.wrapping_sub(2);
    mem.write_word(sp, w);
    cpu.regs.sp = sp;
}

/// Pops a word off the stack.
pub fn pop_word(cpu: &mut Cpu, mem: &Memory) -> (w: u16)
    requires
        mem.wf(),
    ensures
        w == machine(*old(cpu), *mem).top(),
        machine(*final(cpu), *mem) == machine(*old(cpu), *mem).pop(),
{
    let w = mem.read_word(cpu.regs.sp);
    cpu.regs.sp = cpu.regs.sp.wrapping_add(2);
    w
}

} // verus!
