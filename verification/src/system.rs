//! One step of the whole machine: interrupt dispatch, one instruction, and
//! the timer and the picture processor advanced by the cycles that it took.

use vstd::prelude::*;
use crate::cpu::{machine, Cpu, Machine};
use crate::error::CoreError;
use crate::gpu::{line_matches, ppu_step, update_ppu, Ppu};
use crate::memory::{BusState, Memory};
use crate::processor::{handle_interrupts, interrupt_step, run, run_step};
use crate::timer::{timer_advance, update_timer};
use crate::util::{spec_with_bit, with_bit, INTERRUPT_F_ADDRESS};

verus! {

/// The serial data register.
pub const SERIAL_DATA: u16 = 0xFF01;

/// The serial control register.
pub const SERIAL_CONTROL: u16 = 0xFF02;

/// The cycles that a halted processor lets pass in one step.
pub const HALT_CYCLES: u8 = 4;

/// The bus after the joypad interrupt was requested.
pub open spec fn joypad_requested(bus: BusState) -> BusState {
    bus.write(INTERRUPT_F_ADDRESS, spec_with_bit(bus.read(INTERRUPT_F_ADDRESS), 4, true))
}

/// Requests the joypad interrupt if a key went down since the last frame.
pub fn joypad_interrupt(mem: &mut Memory, pressed: bool)
    requires
        old(mem).wf(),
    ensures
        final(mem)@ == (if pressed {
            joypad_requested(old(mem)@)
        } else {
            old(mem)@
        }),
        final(mem).wf(),
{
    if pressed {
        let interrupt = mem.read(INTERRUPT_F_ADDRESS);
        mem.write(INTERRUPT_F_ADDRESS, with_bit(interrupt, 4, true));
    }
}

/// The byte that the serial port sends, if its control register holds
/// `0x81`.
pub open spec fn serial_byte(bus: BusState) -> Option<u8> {
    if bus.read(SERIAL_CONTROL) == 0x81 {
        Some(bus.read(SERIAL_DATA))
    } else {
        None
    }
}

/// The bus after the serial port was looked at: a transfer that was asked
/// for is done, and the control register is cleared.
pub open spec fn serial_done(bus: BusState) -> BusState {
    if bus.read(SERIAL_CONTROL) == 0x81 {
        bus.write(SERIAL_CONTROL, 0)
    } else {
        bus
    }
}

/// Takes the byte that the program has asked the serial port to send, if
/// there is one, and clears the request.
pub fn serial_output(mem: &mut Memory) -> (sent: Option<u8>)
    requires
        old(mem).wf(),
    ensures
        sent == serial_byte(old(mem)@),
        final(mem)@ == serial_done(old(mem)@),
        final(mem).wf(),
{
    if mem.read(SERIAL_CONTROL) == 0x81 {
        let c = mem.read(SERIAL_DATA);
        mem.write(SERIAL_CONTROL, 0);
        Some(c)
    } else {
        None
    }
}

/// Shades in a whole frame: 144 lines of 160.
pub const FRAME_SIZE: usize = 23040;

/// The lines of one frame as they come in, row after row.
#[derive(Debug)]
pub struct FrameBuffer {
    pixels: Vec<u8>,
}

impl View for FrameBuffer {
    type V = Seq<u8>;

    closed spec fn view(&self) -> Seq<u8> {
        self.pixels@
    }
}

impl FrameBuffer {
    /// An empty frame.
    pub fn new() -> (frame: Self)
        ensures
            frame@.len() == 0,
    {
        FrameBuffer { pixels: Vec::new() }
    }

    /// Appends a line if the frame has room for all of it, and tells
    /// whether the frame is now complete.
    pub fn push_line(&mut self, line: &Vec<u8>) -> (complete: bool)
        ensures
            final(self)@ == (if old(self)@.len() + line@.len() <= FRAME_SIZE {
                old(self)@ + line@
            } else {
                old(self)@
            }),
            complete == (final(self)@.len() == FRAME_SIZE),
    {
        if self.pixels.len() <= FRAME_SIZE && line.len() <= FRAME_SIZE - self.pixels.len() {
            let mut i: usize = 0;
            while i < line.len()
                invariant
                    i <= line@.len(),
                    old(self)@.len() + line@.len() <= FRAME_SIZE,
                    self.pixels@ == old(self)@ + line@.subrange(0, i as int),
                decreases line@.len() - i,
            {
                self.pixels.push(line[i]);
                assert(self.pixels@ =~= old(self)@ + line@.subrange(0, i + 1));
                i += 1;
            }
            assert(line@.subrange(0, line@.len() as int) =~= line@);
        }
        self.pixels.len() == FRAME_SIZE
    }

    /// Whether the frame holds all of its 144 lines.
    pub fn is_complete(&self) -> (complete: bool)
        ensures
            complete == (self@.len() == FRAME_SIZE),
    {
        self.pixels.len() == FRAME_SIZE
    }

    /// The shades so far, row after row.
    pub fn pixels(&self) -> (pixels: &Vec<u8>)
        ensures
            pixels@ == self@,
    {
        &self.pixels
    }

    /// Empties the frame for the next one.
    pub fn clear(&mut self)
        ensures
            final(self)@.len() == 0,
    {
        self.pixels.clear();
    }
}

/// What one step hands to the host.
#[derive(Debug)]
pub struct StepOutput {
    /// The cycles that the step took.
    pub cycles: u8,
    /// The byte that the serial port sent, if any.
    pub serial: Option<u8>,
    /// The line that the picture processor completed, if any.
    pub line: Option<Vec<u8>>,
}

/// The machine and the cycles after the first two phases of a step: the
/// interrupt dispatch, then one instruction, or four idle cycles if the
/// processor is halted. Nothing where the instruction has no decoding.
pub open spec fn processor_phase(m: Machine) -> Option<(Machine, u8)> {
    let (served, dispatch) = interrupt_step(m);
    if served.cpu.halt {
        Some((served, (dispatch + HALT_CYCLES) as u8))
    } else {
        match run_step(served) {
            Some((after, cycles)) => Some((after, (dispatch + cycles) as u8)),
            None => None,
        }
    }
}

/// The bus after the timer, then the serial port, have followed the
/// processor for `cycles` cycles.
pub open spec fn followed(bus: BusState, cycles: u8) -> BusState {
    serial_done(timer_advance(bus, cycles as nat))
}

/// Advances the machine by one step: serves the interrupts, executes one
/// instruction unless the processor is halted, then lets the timer, the
/// serial port and the picture processor follow by the cycles taken.
/// Fails with `UndefinedOpcode` where the byte fetched has no decoding:
/// the interrupts were served and the byte was fetched, but timer, serial
/// port and picture processor have not moved.
pub fn step(cpu: &mut Cpu, mem: &mut Memory, ppu: &mut Ppu) -> (r: Result<StepOutput, CoreError>)
    requires
        old(mem).wf(),
        old(ppu).wf(),
    ensures
        final(mem).wf(),
        final(ppu).wf(),
        final(cpu).regs.f.bits() % 16 == 0,
        r.is_ok() == processor_phase(machine(*old(cpu), *old(mem))).is_some(),
        r.is_err() ==> r.unwrap_err() == CoreError::UndefinedOpcode && *final(ppu) == *old(ppu)
            && machine(*final(cpu), *final(mem)) == interrupt_step(
            machine(*old(cpu), *old(mem)),
        ).0.advance(1),
        r.is_ok() ==> ({
            let (after, cycles) = processor_phase(machine(*old(cpu), *old(mem))).unwrap();
            let bus = followed(after.bus, cycles);
            &&& r.unwrap().cycles == cycles
            &&& *final(cpu) == after.cpu
            &&& r.unwrap().serial == serial_byte(timer_advance(after.bus, cycles as nat))
            &&& *final(ppu) == ppu_step(*old(ppu), bus, cycles).0
            &&& final(mem)@ == ppu_step(*old(ppu), bus, cycles).1
            &&& line_matches(r.unwrap().line, ppu_step(*old(ppu), bus, cycles).2)
        }),
{
    let mut cycles = handle_interrupts(cpu, mem);
    if cpu.halt {
        cycles = cycles + HALT_CYCLES;
    } else {
        match run(cpu, mem) {
            Ok(used) => {
                cycles = cycles + used;
            },
            Err(e) => {
                proof {
                    let f = cpu.regs.f;
                    crate::registers::lemma_flag_byte(f.zero_flag, f.sub_flag, f.half_carry_flag, f.carry_flag);
                }
                return Err(e);
            },
        }
    }
    update_timer(mem, cycles);
    let serial = serial_output(mem);
    let line = update_ppu(ppu, mem, cycles);
    proof {
        let f = cpu.regs.f;
        crate::registers::lemma_flag_byte(f.zero_flag, f.sub_flag, f.half_carry_flag, f.carry_flag);
    }
    Ok(StepOutput { cycles, serial, line })
}

} // verus!
