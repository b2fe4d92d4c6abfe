use lib::text::{hit_report, intwrite, strcpy, writable_number, HIT_TEMPLATE};

fn written(i: i32, n: usize) -> Vec<u8> {
    let mut buf = [b'.'; 16];
    intwrite(&mut buf, i, n);
    buf.to_vec()
}

#[test]
fn intwrite_zero() {
    assert_eq!(written(0, 2), b"..0.............".to_vec());
}

#[test]
fn intwrite_positive() {
    assert_eq!(written(25, 0), b"25..............".to_vec());
    assert_eq!(written(7, 3), b"...7............".to_vec());
    assert_eq!(written(99, 1), b".99.............".to_vec());
    assert_eq!(written(101, 1), b".101............".to_vec());
}

#[test]
fn intwrite_negative() {
    assert_eq!(written(-25, 1), b".-25............".to_vec());
    assert_eq!(written(-3, 0), b"-3..............".to_vec());
}

#[test]
fn intwrite_extremes() {
    assert_eq!(written(i32::MAX, 0), b"2147483647......".to_vec());
    assert_eq!(written(-2147483647, 5), b".....-2147483647".to_vec());
}

#[test]
fn intwrite_reads_back() {
    for &i in &[0, 5, 42, -42, 123456, -98765, 999_999, 2147483647] {
        let mut buf = [b' '; 12];
        intwrite(&mut buf, i, 0);
        let s = std::str::from_utf8(&buf).unwrap().trim();
        assert_eq!(s.parse::<i32>().unwrap(), i);
    }
}

#[test]
fn strcpy_copies_at_offset() {
    let mut buf = [0u8; 8];
    strcpy(&mut buf, "abc", 2);
    assert_eq!(buf, [0, 0, b'a', b'b', b'c', 0, 0, 0]);
    strcpy(&mut buf, "", 8);
    assert_eq!(buf, [0, 0, b'a', b'b', b'c', 0, 0, 0]);
}

#[test]
fn hit_report_of_zeros() {
    let line = hit_report(&[0; 7]);
    let mut expected = [0u8; 64];
    expected[..57].copy_from_slice(HIT_TEMPLATE.as_bytes());
    for &p in &[6usize, 13, 20, 30, 37, 44, 50] {
        expected[p] = b'0';
    }
    assert_eq!(line, expected);
    assert_eq!(&line[..21], b"hit x:0    y:0    z:0");
}

#[test]
fn hit_report_of_readings() {
    let line = hit_report(&[-512, 37, 2, 15, -8, 4095, 321]);
    assert_eq!(
        &line[..57],
        b"hit x:-512 y:37   z:2     - x:15   y:-8   z:4095 =321   \n".as_ref()
    );
    assert_eq!(&line[57..], &[0u8; 7]);
}

#[test]
fn writable_numbers() {
    assert!(writable_number(0));
    assert!(writable_number(7));
    assert!(writable_number(-25));
    assert!(writable_number(i32::MAX));
    assert!(!writable_number(1));
    assert!(!writable_number(-1));
    assert!(!writable_number(10));
    assert!(!writable_number(-1000));
    assert!(!writable_number(1_000_000_000));
    assert!(!writable_number(i32::MIN));
    assert!(writable_number(1001));
}
