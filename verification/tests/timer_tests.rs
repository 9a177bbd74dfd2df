use gb_core::memory::Memory;
use gb_core::timer::update_timer;

fn timer_memory() -> Memory {
    let mut mem = Memory::with_padding(vec![0u8; 0x8000], true, Vec::new()).unwrap();
    mem.write(0xFF04, 0);
    mem.write(0xFF0F, 0);
    mem
}

#[test]
fn timer_counts_falling_edges_of_bit_3() {
    let mut mem = timer_memory();
    mem.write(0xFF07, 0x05);
    mem.write(0xFF05, 0);
    update_timer(&mut mem, 64);
    // Bit 3 of the divider falls at 16, 32, 48 and 64.
    assert_eq!(mem.read(0xFF05), 4);
}

#[test]
fn timer_overflow() {
    let mut mem = timer_memory();
    mem.write(0xFF07, 0x05);
    update_timer(&mut mem, 64);
    mem.write(0xFF05, 0xFF);
    mem.write(0xFF06, 0x37);
    update_timer(&mut mem, 16);
    assert_eq!(mem.read(0xFF05), 0x37);
    assert_eq!(mem.read(0xFF0F) & 0x04, 0x04);
}

#[test]
fn timer_stands_still_when_disabled() {
    let mut mem = timer_memory();
    mem.write(0xFF07, 0x01);
    mem.write(0xFF05, 7);
    update_timer(&mut mem, 255);
    assert_eq!(mem.read(0xFF05), 7);
}

#[test]
fn divider_register_counts_256_cycles() {
    let mut mem = timer_memory();
    mem.write(0xFF07, 0x00);
    update_timer(&mut mem, 255);
    assert_eq!(mem.read(0xFF04), 0);
    update_timer(&mut mem, 1);
    assert_eq!(mem.read(0xFF04), 1);
    update_timer(&mut mem, 255);
    update_timer(&mut mem, 255);
    assert_eq!(mem.read(0xFF04), 2);
}

#[test]
fn timer_taps() {
    for (tac, period) in [(0x04u8, 1024u32), (0x05, 16), (0x06, 64), (0x07, 256)] {
        let mut mem = timer_memory();
        mem.write(0xFF07, tac);
        mem.write(0xFF05, 0);
        let mut left = 2 * period;
        while left > 0 {
            let chunk = if left > 200 { 200 } else { left };
            update_timer(&mut mem, chunk as u8);
            left -= chunk;
        }
        assert_eq!(mem.read(0xFF05), 2);
    }
}

#[test]
fn timer_is_the_same_in_small_and_large_steps() {
    let mut a = timer_memory();
    let mut b = timer_memory();
    a.write(0xFF07, 0x05);
    b.write(0xFF07, 0x05);
    update_timer(&mut a, 200);
    for _ in 0..50 {
        update_timer(&mut b, 4);
    }
    assert_eq!(a.read(0xFF05), b.read(0xFF05));
    assert_eq!(a.read(0xFF05), 12);
    assert_eq!(a.read(0xFF04), b.read(0xFF04));
}

#[test]
fn divider_reset_while_tap_is_high_steps_the_counter() {
    let mut mem = timer_memory();
    mem.write(0xFF07, 0x05);
    mem.write(0xFF05, 0);
    update_timer(&mut mem, 8);
    assert_eq!(mem.read(0xFF05), 0);
    mem.write(0xFF04, 0x12);
    assert_eq!(mem.read(0xFF04), 0);
    update_timer(&mut mem, 1);
    assert_eq!(mem.read(0xFF05), 1);
}

#[test]
fn disabling_the_timer_while_tap_is_high_steps_the_counter() {
    let mut mem = timer_memory();
    mem.write(0xFF07, 0x05);
    mem.write(0xFF05, 0);
    update_timer(&mut mem, 8);
    mem.write(0xFF07, 0x01);
    update_timer(&mut mem, 1);
    assert_eq!(mem.read(0xFF05), 1);
}
