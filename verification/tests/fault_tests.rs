use ledstrip::delay::CycleClock;
use ledstrip::eeprom::Eeprom;
use ledstrip::fault::{
    clear_fault_marker, read_fault_marker, record_fault, trap_blink_step, MARKER_CLEAR,
    MARKER_FAULT,
};
use ledstrip::pins::PB4;

#[test]
fn marker_reads_clear_after_a_normal_boot() {
    let mut e = Eeprom::new();
    clear_fault_marker(&mut e);
    assert_eq!(read_fault_marker(&mut e), MARKER_CLEAR);
}

#[test]
fn marker_survives_a_reset_after_a_fault() {
    let mut e = Eeprom::new();
    // normal boot, then an unrecoverable error
    clear_fault_marker(&mut e);
    record_fault(&mut e);
    // a reset clears every register but not the storage array
    let mut after_reset = Eeprom { eear: 0, eedr: 0, armed: None, busy: false, ..e };
    assert_eq!(read_fault_marker(&mut after_reset), MARKER_FAULT);
    // the next normal boot overwrites the marker again
    clear_fault_marker(&mut after_reset);
    assert_eq!(read_fault_marker(&mut after_reset), MARKER_CLEAR);
}

#[test]
fn clearing_a_clear_marker_commits_nothing() {
    let mut e = Eeprom::new();
    clear_fault_marker(&mut e);
    let commits_before = e.commits.len();
    clear_fault_marker(&mut e);
    assert_eq!(e.commits.len(), commits_before);
}

#[test]
fn trap_blinks_without_touching_storage() {
    let mut pin = PB4 { level: false };
    let mut clock = CycleClock::new();
    trap_blink_step(&mut pin, &mut clock);
    assert!(pin.level);
    trap_blink_step(&mut pin, &mut clock);
    assert!(!pin.level);
    // each pass waits at least the requested ten thousand cycles
    assert!(clock.elapsed >= 2 * 10000);
}
