use ledstrip::control::handle_payload;

#[test]
fn ping_toggles_the_strip() {
    assert_eq!(handle_payload(b"Ping!", false), Some(true));
    assert_eq!(handle_payload(b"Ping!", true), Some(false));
}

#[test]
fn any_other_payload_is_an_unrecoverable_fault() {
    assert_eq!(handle_payload(b"Pong!", false), None);
    assert_eq!(handle_payload(b"Ping", false), None);
    assert_eq!(handle_payload(b"Ping!!", false), None);
    assert_eq!(handle_payload(b"", true), None);
    assert_eq!(handle_payload(&[0xFF, 0xFE, 0xFD, 0xFC, 0xFB], true), None);
}
