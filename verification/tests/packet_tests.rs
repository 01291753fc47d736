use ledstrip::packet::{LEDStripOption, LEDStripState};

#[test]
fn none_and_all_are_the_two_extremes() {
    let none = LEDStripState::none();
    assert!(none.is_empty());
    let all = LEDStripState::all();
    assert!(all.contains(LEDStripOption::Enabled));
    assert!(all.contains(LEDStripOption::Twinkle));
    assert!(all.contains(LEDStripOption::HueCycle));
}

#[test]
fn empty_set_contains_nothing() {
    let s = LEDStripState::from(0);
    assert!(s.is_empty());
    assert!(!s.contains(LEDStripOption::Enabled));
    assert!(!s.contains(LEDStripOption::Twinkle));
    assert!(!s.contains(LEDStripOption::HueCycle));
}

#[test]
fn single_holds_exactly_one_option() {
    let s = LEDStripState::single(LEDStripOption::Twinkle);
    assert!(!s.is_empty());
    assert!(s.contains(LEDStripOption::Twinkle));
    assert!(!s.contains(LEDStripOption::Enabled));
    assert!(!s.contains(LEDStripOption::HueCycle));
}

#[test]
fn add_and_remove_leave_other_options_alone() {
    let mut s = LEDStripState::from(0);
    s.add(LEDStripOption::Enabled);
    s.add(LEDStripOption::HueCycle);
    assert!(s.contains(LEDStripOption::Enabled));
    assert!(!s.contains(LEDStripOption::Twinkle));
    assert!(s.contains(LEDStripOption::HueCycle));
    s.remove(LEDStripOption::Enabled);
    assert!(!s.contains(LEDStripOption::Enabled));
    assert!(s.contains(LEDStripOption::HueCycle));
}

#[test]
fn add_all_is_a_union() {
    let mut s = LEDStripState::single(LEDStripOption::Enabled);
    let other = LEDStripState::single(LEDStripOption::Twinkle);
    s.add_all(other);
    assert!(s.contains(LEDStripOption::Enabled));
    assert!(s.contains(LEDStripOption::Twinkle));
    assert!(!s.contains(LEDStripOption::HueCycle));
}

#[test]
fn packed_byte_round_trips_through_from() {
    let s = LEDStripState::from(0b101);
    assert!(s.contains(LEDStripOption::Enabled));
    assert!(!s.contains(LEDStripOption::Twinkle));
    assert!(s.contains(LEDStripOption::HueCycle));
}

#[test]
fn adding_twice_is_idempotent() {
    let mut s = LEDStripState::from(0);
    s.add(LEDStripOption::Twinkle);
    s.add(LEDStripOption::Twinkle);
    assert!(s.contains(LEDStripOption::Twinkle));
    s.remove(LEDStripOption::Twinkle);
    assert!(s.is_empty());
}
