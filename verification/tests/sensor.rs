use lib::sensor::{be_word, parse_burst};

#[test]
fn be_word_joins_bytes() {
    assert_eq!(be_word(0x12, 0x34), 0x1234);
    assert_eq!(be_word(0x00, 0xff), 0x00ff);
    assert_eq!(be_word(0xff, 0xfe), -2);
    assert_eq!(be_word(0x80, 0x00), i16::MIN);
    assert_eq!(be_word(0x7f, 0xff), i16::MAX);
}

#[test]
fn be_word_matches_big_endian() {
    for hi in [0u8, 1, 0x7f, 0x80, 0xc3, 0xff] {
        for lo in [0u8, 1, 0x5a, 0xff] {
            assert_eq!(be_word(hi as i16, lo as i16), i16::from_be_bytes([hi, lo]));
        }
    }
}

#[test]
fn parse_burst_splits_registers() {
    let raw: [i16; 14] = [0x01, 0x02, 0xff, 0xff, 0x00, 0x10, 0x0a, 0x0b, 0x80, 0x00, 0x7f, 0xff, 0x00, 0x00];
    let b = parse_burst(&raw);
    assert_eq!(b.acc, [0x0102, -1, 0x10]);
    assert_eq!(b.temp, 0x0a0b);
    assert_eq!(b.gyro, [i16::MIN, i16::MAX, 0]);
}
