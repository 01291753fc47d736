use ledstrip::delay::{delay_cycles, delay_cycles_short, CycleClock};

#[test]
fn short_delay_charges_the_exact_loop_cost() {
    // countdown by two: nine passes for sixteen cycles, three cycles each
    // but the last, which falls through the branch after two
    let mut clock = CycleClock::new();
    delay_cycles_short(&mut clock, 16);
    assert_eq!(clock.elapsed, 26);
}

#[test]
fn short_delay_never_undershoots() {
    for cycles in [0u8, 1, 2, 3, 15, 16, 191, 192, 255] {
        let mut clock = CycleClock::new();
        delay_cycles_short(&mut clock, cycles);
        assert!(clock.elapsed >= cycles as u64);
    }
}

#[test]
fn long_delay_charges_the_exact_loop_cost() {
    let mut clock = CycleClock::new();
    delay_cycles(&mut clock, 10000);
    assert_eq!(clock.elapsed, 10004);
}

#[test]
fn long_delay_never_undershoots() {
    for cycles in [0u32, 1, 3, 4, 2080, 4800, 10000] {
        let mut clock = CycleClock::new();
        delay_cycles(&mut clock, cycles);
        assert!(clock.elapsed >= cycles as u64);
    }
}

#[test]
fn delays_accumulate_on_one_clock() {
    let mut clock = CycleClock::new();
    delay_cycles(&mut clock, 2080);
    delay_cycles(&mut clock, 4800);
    assert_eq!(clock.elapsed, (2080 + 4) + (4800 + 4));
}
