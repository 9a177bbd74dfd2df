//! The timer: a free-running 16-bit divider, and a counter that steps on
//! the falling edges of one divider bit.

use vstd::prelude::*;
use crate::memory::{BusState, Memory};
use crate::util::{spec_with_bit, with_bit, word_of, TimerRegisters, INTERRUPT_F_ADDRESS};

verus! {

/// The weight of the divider bit that the control register selects: bit 9,
/// 3, 5 or 7 for the values 0 to 3 of its two low bits.
pub open spec fn tap_weight(tac: u8) -> u16 {
    if tac % 4 == 0 {
        512
    } else if tac % 4 == 1 {
        8
    } else if tac % 4 == 2 {
        32
    } else {
        128
    }
}

/// Whether bit 2 of the control register enables the counter.
pub open spec fn timer_enabled(tac: u8) -> bool {
    (tac / 4) % 2 == 1
}

/// The level of the selected divider bit.
pub open spec fn tap_level(divider: u16, tac: u8) -> bool {
    (divider / tap_weight(tac)) % 2 == 1
}

/// The signal whose falling edges step the counter: the selected divider
/// bit, gated by the enable bit.
pub open spec fn timer_signal(divider: u16, tac: u8) -> bool {
    timer_enabled(tac) && tap_level(divider, tac)
}

/// The internal divider: the register at `FF04` above the hidden low byte.
pub open spec fn divider_of(bus: BusState) -> u16 {
    word_of(bus.mem[0xFF04], bus.div)
}

/// The counter after one step: at 255 it is reloaded from the modulo.
pub open spec fn counter_step(tima: u8, tma: u8) -> u8 {
    if tima == 255 {
        tma
    } else {
        (tima + 1) as u8
    }
}

/// The counter after `k` steps.
pub open spec fn counter_after(tima: u8, tma: u8, k: nat) -> u8
    decreases k,
{
    if k == 0 {
        tima
    } else {
        counter_step(counter_after(tima, tma, (k - 1) as nat), tma)
    }
}

/// The bus after a falling edge: the counter steps, and where it
/// overflows it is reloaded and the timer interrupt is requested.
pub open spec fn counter_bumped(bus: BusState) -> BusState {
    let tima = bus.mem[0xFF05];
    if tima == 255 {
        bus.write(0xFF05, bus.mem[0xFF06]).write(
            INTERRUPT_F_ADDRESS,
            spec_with_bit(bus.mem[0xFF0F], 2, true),
        )
    } else {
        bus.write(0xFF05, (tima + 1) as u8)
    }
}

/// The bus after one cycle: the divider goes up by one, wrapping, and the
/// counter steps if the signal fell.
#[verifier::opaque]
pub open spec fn timer_tick(bus: BusState) -> BusState {
    let next = divider_of(bus).wrapping_add(1);
    let level = timer_signal(next, bus.mem[0xFF07]);
    let ticked = BusState {
        mem: bus.mem.update(0xFF04, (next / 256) as u8),
        div: (next % 256) as u8,
        timer_level: level,
        ..bus
    };
    if bus.timer_level && !level {
        counter_bumped(ticked)
    } else {
        ticked
    }
}

/// The bus after `cycles` cycles of the timer.
pub open spec fn timer_advance(bus: BusState, cycles: nat) -> BusState
    decreases cycles,
{
    if cycles == 0 {
        bus
    } else {
        timer_tick(timer_advance(bus, (cycles - 1) as nat))
    }
}

/// The level of the signal `k` cycles after a start at which the divider
/// stood at `divider` and the signal at `level`.
pub open spec fn level_at(level: bool, divider: u16, tac: u8, k: nat) -> bool {
    if k == 0 {
        level
    } else {
        timer_signal(((divider + k) % 0x10000) as u16, tac)
    }
}

/// The number of falling edges of the signal within the first `n` cycles.
pub open spec fn falling_edges(level: bool, divider: u16, tac: u8, n: nat) -> nat
    decreases n,
{
    if n == 0 {
        0
    } else {
        falling_edges(level, divider, tac, (n - 1) as nat) + (if level_at(
            level,
            divider,
            tac,
            (n - 1) as nat,
        ) && !level_at(level, divider, tac, n) {
            1nat
        } else {
            0nat
        })
    }
}

/// What one cycle does to the registers of the timer.
proof fn lemma_tick(bus: BusState)
    requires
        bus.wf(),
    ensures
        timer_tick(bus).wf(),
        timer_tick(bus).cart == bus.cart,
        divider_of(timer_tick(bus)) == divider_of(bus).wrapping_add(1),
        timer_tick(bus).timer_level == timer_signal(divider_of(bus).wrapping_add(1), bus.mem[0xFF07]),
        timer_tick(bus).mem[0xFF07] == bus.mem[0xFF07],
        timer_tick(bus).mem[0xFF06] == bus.mem[0xFF06],
        timer_tick(bus).mem[0xFF05] == (if bus.timer_level && !timer_tick(bus).timer_level {
            counter_step(bus.mem[0xFF05], bus.mem[0xFF06])
        } else {
            bus.mem[0xFF05]
        }),
{
    reveal(timer_tick);
    reveal(BusState::write);
    let next = divider_of(bus).wrapping_add(1);
    assert(word_of((next / 256) as u8, (next % 256) as u8) == next);
    let level = timer_signal(next, bus.mem[0xFF07]);
    let ticked = BusState {
        mem: bus.mem.update(0xFF04, (next / 256) as u8),
        div: (next % 256) as u8,
        timer_level: level,
        ..bus
    };
    assert(ticked.wf());
    assert(divider_of(ticked) == next);
    if bus.timer_level && !level {
        let tima = ticked.mem[0xFF05];
        if tima == 255 {
            let first = ticked.write(0xFF05, ticked.mem[0xFF06]);
            assert(first.mem == ticked.mem.update(0xFF05, ticked.mem[0xFF06]));
            let second = first.write(INTERRUPT_F_ADDRESS, spec_with_bit(ticked.mem[0xFF0F], 2, true));
            assert(second.mem == first.mem.update(0xFF0F, spec_with_bit(ticked.mem[0xFF0F], 2, true)));
        } else {
            let first = ticked.write(0xFF05, (tima + 1) as u8);
            assert(first.mem == ticked.mem.update(0xFF05, (tima + 1) as u8));
        }
    }
}

/// Over any number of cycles the counter steps once for each falling edge
/// of the signal, reloading where it overflows; the divider goes up by one
/// per cycle; modulo and control register are kept.
pub proof fn lemma_counter_follows_edges(bus: BusState, n: nat)
    requires
        bus.wf(),
    ensures
        timer_advance(bus, n).wf(),
        timer_advance(bus, n).cart == bus.cart,
        divider_of(timer_advance(bus, n)) == (divider_of(bus) + n) % 0x10000,
        timer_advance(bus, n).timer_level == level_at(
            bus.timer_level,
            divider_of(bus),
            bus.mem[0xFF07],
            n,
        ),
        timer_advance(bus, n).mem[0xFF07] == bus.mem[0xFF07],
        timer_advance(bus, n).mem[0xFF06] == bus.mem[0xFF06],
        timer_advance(bus, n).mem[0xFF05] == counter_after(
            bus.mem[0xFF05],
            bus.mem[0xFF06],
            falling_edges(bus.timer_level, divider_of(bus), bus.mem[0xFF07], n),
        ),
    decreases n,
{
    if n > 0 {
        lemma_counter_follows_edges(bus, (n - 1) as nat);
        let before = timer_advance(bus, (n - 1) as nat);
        lemma_tick(before);
        let next = divider_of(before).wrapping_add(1);
        assert(next == (divider_of(bus) + n) % 0x10000);
        let tac = bus.mem[0xFF07];
        let edges = falling_edges(bus.timer_level, divider_of(bus), tac, (n - 1) as nat);
        assert(timer_advance(bus, n) == timer_tick(before));
        assert(timer_tick(before).timer_level == level_at(bus.timer_level, divider_of(bus), tac, n));
        assert(before.timer_level == level_at(bus.timer_level, divider_of(bus), tac, (n - 1) as nat));
    }
}

/// Advances the timer by `cycles` cycles.
pub fn update_timer(memory: &mut Memory, cycles: u8)
    requires
        old(memory).wf(),
    ensures
        final(memory)@ == timer_advance(old(memory)@, cycles as nat),
        final(memory).wf(),
{
    let tac = memory.unchecked_read(TimerRegisters::TAC.address());
    let timer_enable = (tac / 4) % 2 == 1;
    let weight: u16 = match tac % 4 {
        0 => 512,
        1 => 8,
        2 => 32,
        _ => 128,
    };
    let mut i: u8 = 0;
    while i < cycles
        invariant
            i <= cycles,
            memory.wf(),
            memory@ == timer_advance(old(memory)@, i as nat),
            memory@.mem[0xFF07] == tac,
            timer_enable == timer_enabled(tac),
            weight == tap_weight(tac),
        decreases cycles - i,
    {
        let ghost before = memory@;
        let high = memory.unchecked_read(TimerRegisters::DIV.address());
        let whole_div = crate::util::little_endian_combine(memory.div(), high).wrapping_add(1);
        memory.unchecked_write(TimerRegisters::DIV.address(), (whole_div / 256) as u8);
        memory.set_div((whole_div % 256) as u8);
        let anded_result = timer_enable && (whole_div / weight) % 2 == 1;
        let prev_edge = memory.timer_level();
        memory.set_timer_level(anded_result);
        if prev_edge && !anded_result {
            let tima = memory.unchecked_read(TimerRegisters::TIMA.address());
            if tima == 255 {
                let tma = memory.unchecked_read(TimerRegisters::TMA.address());
                memory.write(TimerRegisters::TIMA.address(), tma);
                let i_flag = memory.unchecked_read(INTERRUPT_F_ADDRESS);
                memory.write(INTERRUPT_F_ADDRESS, with_bit(i_flag, 2, true));
            } else {
                memory.write(TimerRegisters::TIMA.address(), tima + 1);
            }
        }
        i += 1;
        assert(memory@ == timer_tick(before) && memory@.mem[0xFF07] == tac) by {
            reveal(timer_tick);
            reveal(BusState::write);
        }
    }
}

} // verus!
