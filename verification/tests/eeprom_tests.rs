use ledstrip::eeprom::{Eeprom, EepromMode, EEPROM_SIZE};
use ledstrip::eeprom::read;

#[test]
fn fresh_device_is_fully_erased() {
    let mut e = Eeprom::new();
    for address in [0u16, 1, 255, EEPROM_SIZE - 1] {
        assert_eq!(read(&mut e, address), 0xFF);
    }
}

#[test]
fn write_then_read_returns_the_value() {
    let mut e = Eeprom::new();
    ledstrip::eeprom::write(&mut e, 17, 0x5A);
    assert_eq!(read(&mut e, 17), 0x5A);
    assert_eq!(read(&mut e, 16), 0xFF);
}

#[test]
fn rewriting_the_stored_value_commits_nothing() {
    let mut e = Eeprom::new();
    ledstrip::eeprom::write(&mut e, 40, 0x3C);
    let commits_before = e.commits.len();
    let current = read(&mut e, 40);
    ledstrip::eeprom::write(&mut e, 40, current);
    assert_eq!(e.commits.len(), commits_before);
    assert_eq!(read(&mut e, 40), 0x3C);
}

#[test]
fn erased_pattern_selects_erase_only_for_any_prior_value() {
    for prior in [0x00u8, 0x3C, 0x7F, 0xFE] {
        let mut e = Eeprom::new();
        ledstrip::eeprom::write(&mut e, 9, prior);
        ledstrip::eeprom::write(&mut e, 9, 0xFF);
        let last = e.commits[e.commits.len() - 1];
        assert_eq!(last.mode, EepromMode::EraseOnly);
        assert_eq!(last.address, 9);
        assert_eq!(read(&mut e, 9), 0xFF);
    }
}

#[test]
fn bit_clearing_change_selects_program_only() {
    let mut e = Eeprom::new();
    ledstrip::eeprom::write(&mut e, 12, 0xF0);
    ledstrip::eeprom::write(&mut e, 12, 0x30);
    let last = e.commits[e.commits.len() - 1];
    assert_eq!(last.mode, EepromMode::ProgramOnly);
    assert_eq!(read(&mut e, 12), 0x30);
}

#[test]
fn bit_raising_change_selects_erase_plus_program() {
    let mut e = Eeprom::new();
    ledstrip::eeprom::write(&mut e, 12, 0x0F);
    ledstrip::eeprom::write(&mut e, 12, 0x30);
    let last = e.commits[e.commits.len() - 1];
    assert_eq!(last.mode, EepromMode::EraseAndProgram);
    assert_eq!(read(&mut e, 12), 0x30);
}

#[test]
fn each_changing_write_commits_exactly_once() {
    let mut e = Eeprom::new();
    ledstrip::eeprom::write(&mut e, 100, 0x01);
    ledstrip::eeprom::write(&mut e, 100, 0x01);
    ledstrip::eeprom::write(&mut e, 100, 0x02);
    ledstrip::eeprom::write(&mut e, 101, 0x03);
    assert_eq!(e.commits.len(), 3);
}

#[test]
fn reading_commits_nothing() {
    let mut e = Eeprom::new();
    ledstrip::eeprom::write(&mut e, 5, 0x42);
    let commits_before = e.commits.len();
    for _ in 0..4 {
        read(&mut e, 5);
    }
    assert_eq!(e.commits.len(), commits_before);
}
