use ledstrip::spi::{LoopbackBus, Spi};

fn engine() -> (Spi, LoopbackBus) {
    let mut bus = LoopbackBus::new();
    let spi = Spi::new(&mut bus);
    (spi, bus)
}

#[test]
fn round_trip_all_lengths_up_to_five() {
    let samples: [&[u8]; 6] = [
        &[],
        &[0xA5],
        &[0x00, 0xFF],
        &[0x01, 0x80, 0x7E],
        &[0xDE, 0xAD, 0xBE, 0xEF],
        &[0x11, 0x22, 0x33, 0x44, 0x55],
    ];
    for written in samples.iter() {
        let (mut spi, mut bus) = engine();
        let write_buf: Vec<u8> = written.to_vec();
        let mut read_buf: Vec<u8> = vec![0x99; written.len()];
        spi.transfer(&mut bus, &mut read_buf, &write_buf).unwrap();
        assert_eq!(read_buf, write_buf);
        // the wire saw exactly the written bytes, in order
        assert_eq!(bus.sent, write_buf);
    }
}

#[test]
fn round_trip_in_place() {
    let (mut spi, mut bus) = engine();
    let mut words: Vec<u8> = vec![0x10, 0x20, 0x30, 0x40];
    spi.transfer_in_place(&mut bus, &mut words).unwrap();
    assert_eq!(words, vec![0x10, 0x20, 0x30, 0x40]);
    assert_eq!(bus.sent, vec![0x10, 0x20, 0x30, 0x40]);
}

#[test]
fn flush_when_idle_moves_nothing_on_the_bus() {
    let (mut spi, mut bus) = engine();
    let before = bus.transfer_count;
    spi.flush(&mut bus).unwrap();
    spi.flush(&mut bus).unwrap();
    assert_eq!(bus.transfer_count, before);
}

#[test]
fn flush_after_write_exchanges_exactly_one_byte() {
    let (mut spi, mut bus) = engine();
    let words: Vec<u8> = vec![0x42];
    spi.write(&mut bus, &words).unwrap();
    assert_eq!(bus.transfer_count, 0);
    assert_eq!(bus.sent, Vec::<u8>::new());
    spi.flush(&mut bus).unwrap();
    assert_eq!(bus.transfer_count, 1);
    assert_eq!(bus.sent, vec![0x42]);
    spi.flush(&mut bus).unwrap();
    assert_eq!(bus.transfer_count, 1);
}

#[test]
fn write_clocks_the_bytes_out_in_order() {
    let (mut spi, mut bus) = engine();
    let words: Vec<u8> = vec![0xA1, 0xB2, 0xC3];
    spi.write(&mut bus, &words).unwrap();
    assert_eq!(bus.sent, vec![0xA1, 0xB2]);
    spi.flush(&mut bus).unwrap();
    assert_eq!(bus.sent, vec![0xA1, 0xB2, 0xC3]);
}

#[test]
fn write_keeps_last_byte_loaded() {
    let (mut spi, mut bus) = engine();
    let words: Vec<u8> = vec![0x0A, 0x0B, 0x0C];
    spi.write(&mut bus, &words).unwrap();
    assert_eq!(bus.shift, 0x0C);
    assert_eq!(bus.transfer_count, 2);
    assert_eq!(bus.sent, vec![0x0A, 0x0B]);
}

#[test]
fn read_drives_dummy_zeroes() {
    let (mut spi, mut bus) = engine();
    let words: Vec<u8> = vec![0x55, 0x66];
    spi.write(&mut bus, &words).unwrap();
    let mut captured: Vec<u8> = vec![0xAA; 3];
    spi.read(&mut bus, &mut captured).unwrap();
    assert_eq!(captured, vec![0x00, 0x00, 0x00]);
    // one flush of the pending write byte, then one exchange per byte read
    assert_eq!(bus.transfer_count, 1 + 1 + 3);
    assert_eq!(bus.sent, vec![0x55, 0x66, 0x00, 0x00, 0x00]);
}

#[test]
fn transfer_longer_read_drains_with_zeroes() {
    let (mut spi, mut bus) = engine();
    let write_buf: Vec<u8> = vec![0x77, 0x88];
    let mut read_buf: Vec<u8> = vec![0xEE; 4];
    spi.transfer(&mut bus, &mut read_buf, &write_buf).unwrap();
    assert_eq!(read_buf, vec![0x77, 0x88, 0x00, 0x00]);
    assert_eq!(bus.transfer_count, 4);
    assert_eq!(bus.sent, vec![0x77, 0x88, 0x00, 0x00]);
}

#[test]
fn transfer_longer_write_leaves_last_byte_loaded() {
    let (mut spi, mut bus) = engine();
    let write_buf: Vec<u8> = vec![0x01, 0x02, 0x03, 0x04];
    let mut read_buf: Vec<u8> = vec![0x00; 2];
    spi.transfer(&mut bus, &mut read_buf, &write_buf).unwrap();
    assert_eq!(read_buf, vec![0x01, 0x02]);
    assert_eq!(bus.shift, 0x04);
    // two paired exchanges, then one for the middle trailing byte
    assert_eq!(bus.transfer_count, 3);
    assert_eq!(bus.sent, vec![0x01, 0x02, 0x03]);
    spi.flush(&mut bus).unwrap();
    assert_eq!(bus.transfer_count, 4);
    assert_eq!(bus.sent, vec![0x01, 0x02, 0x03, 0x04]);
}

#[test]
fn transfer_with_empty_write_drains_the_pending_byte() {
    let (mut spi, mut bus) = engine();
    let pending: Vec<u8> = vec![0x5A];
    spi.write(&mut bus, &pending).unwrap();
    let write_buf: Vec<u8> = Vec::new();
    let mut read_buf: Vec<u8> = vec![0xEE; 2];
    spi.transfer(&mut bus, &mut read_buf, &write_buf).unwrap();
    assert_eq!(read_buf, vec![0x00, 0x00]);
    // the pending byte is clocked out before the dummy zeroes overwrite it
    assert_eq!(bus.transfer_count, 3);
    assert_eq!(bus.sent, vec![0x5A, 0x00, 0x00]);
}

#[test]
fn empty_transfer_is_a_no_op() {
    let (mut spi, mut bus) = engine();
    let write_buf: Vec<u8> = Vec::new();
    let mut read_buf: Vec<u8> = Vec::new();
    spi.transfer(&mut bus, &mut read_buf, &write_buf).unwrap();
    assert_eq!(bus.transfer_count, 0);
    assert_eq!(bus.shift, 0);
    assert_eq!(bus.sent, Vec::<u8>::new());
}
