use std::collections::HashMap;

use vfbread::buffer::VfbReader;

fn get_reader(bytes: &[u8]) -> VfbReader {
    VfbReader::new(bytes.to_vec())
}

#[test]
fn test_value_1b_0x20() {
    assert_eq!(get_reader(&[0x20]).read_value().unwrap(), -107i32);
}

#[test]
fn test_value_1b_0x8a() {
    assert_eq!(get_reader(&[0x8a]).read_value().unwrap(), -1i32);
}

#[test]
fn test_value_1b_0x8b() {
    assert_eq!(get_reader(&[0x8b]).read_value().unwrap(), 0i32);
}

#[test]
fn test_value_1b_0xf6() {
    assert_eq!(get_reader(&[0xf6]).read_value().unwrap(), 107i32);
}

#[test]
fn test_value_2b_0xf700() {
    assert_eq!(get_reader(&[0xf7, 0x00]).read_value().unwrap(), 108i32);
}

#[test]
fn test_value_2b_0xf701() {
    assert_eq!(get_reader(&[0xf7, 0x01]).read_value().unwrap(), 109i32);
}

#[test]
fn test_value_2b_0xf7ff() {
    assert_eq!(get_reader(&[0xf7, 0xff]).read_value().unwrap(), 363i32);
}

#[test]
fn test_value_2b_0xf800() {
    assert_eq!(get_reader(&[0xf8, 0x00]).read_value().unwrap(), 364i32);
}

#[test]
fn test_value_2b_0xf801() {
    assert_eq!(get_reader(&[0xf8, 0x01]).read_value().unwrap(), 365i32);
}

#[test]
fn test_value_2b_0xfa00() {
    assert_eq!(get_reader(&[0xfa, 0x00]).read_value().unwrap(), 876i32);
}

#[test]
fn test_value_2b_0xfaff() {
    assert_eq!(get_reader(&[0xfa, 0xff]).read_value().unwrap(), 1131i32);
}

#[test]
fn test_value_2b_0xfb00() {
    assert_eq!(get_reader(&[0xfb, 0x00]).read_value().unwrap(), -108i32);
}

#[test]
fn test_value_2b_0xfb01() {
    assert_eq!(get_reader(&[0xfb, 0x01]).read_value().unwrap(), -109i32);
}

#[test]
fn test_value_2b_0xfe00() {
    assert_eq!(get_reader(&[0xfe, 0x00]).read_value().unwrap(), -876i32);
}

#[test]
fn test_value_2b_0xfeff() {
    assert_eq!(get_reader(&[0xfe, 0xff]).read_value().unwrap(), -1131i32);
}

#[test]
fn test_value_5b_0xff00000000() {
    assert_eq!(
        get_reader(&[0xff, 0x00, 0x00, 0x00, 0x00]).read_value().unwrap(),
        0i32
    );
}

#[test]
fn test_value_5b_0xff00001000() {
    assert_eq!(
        get_reader(&[0xff, 0x00, 0x00, 0x10, 0x00]).read_value().unwrap(),
        4096i32
    );
}

#[test]
fn test_value_5b_0xffffffffff() {
    assert_eq!(
        get_reader(&[0xff, 0xff, 0xff, 0xff, 0xff]).read_value().unwrap(),
        -1i32
    );
}

#[test]
fn test_value_5b_0xffffffefff() {
    assert_eq!(
        get_reader(&[0xff, 0xff, 0xff, 0xef, 0xff]).read_value().unwrap(),
        -4097i32
    );
}

#[test]
fn test_key_value_map() {
    assert_eq!(
        get_reader(&[
            0x01, 0x8c, 0x02, 0xff, 0x05, 0x00, 0x04, 0x80, 0x03, 0xff, 0x00, 0x00, 0x12, 0x08,
            0x00
        ])
        .read_key_value_map()
        .unwrap(),
        HashMap::from([(1, 1), (2, 0x05000480), (3, 4616)])
    );
}

#[test]
fn test_value_bad_lead_byte() {
    let r = get_reader(&[0x1f]).read_value();
    assert!(matches!(r, Err(vfbread::VfbError::BadValue(0x1f))));
}

#[test]
fn test_value_short_input() {
    let r = get_reader(&[0xf7]).read_value();
    assert!(matches!(r, Err(vfbread::VfbError::ReadError)));
}

#[test]
fn test_value_consumption_counts() {
    let mut r = get_reader(&[0x8b, 0xf7, 0x00, 0xff, 0x00, 0x00, 0x10, 0x00]);
    r.read_value().unwrap();
    assert_eq!(r.stream_position(), 1);
    r.read_value().unwrap();
    assert_eq!(r.stream_position(), 3);
    r.read_value().unwrap();
    assert_eq!(r.stream_position(), 8);
}

#[test]
fn test_key_value_map_consumes_terminator() {
    let mut r = get_reader(&[0x05, 0x8b, 0x00, 0xaa, 0xbb]);
    let m = r.read_key_value_map().unwrap();
    assert_eq!(m, HashMap::from([(5, 0)]));
    assert!(!m.contains_key(&0));
    assert_eq!(r.stream_position(), 3);
}

#[test]
fn test_read_str_windows_1252() {
    let mut r = get_reader(&[0x80, 0x41]);
    assert_eq!(r.read_str(2).unwrap(), "\u{20ac}A");
}

#[test]
fn test_read_bytes_remainder_takes_rest() {
    let mut r = get_reader(&[1, 2, 3, 4]);
    r.read_u8().unwrap();
    assert_eq!(r.read_bytes_remainder().unwrap(), vec![2, 3, 4]);
    assert_eq!(r.stream_position(), 4);
}

#[test]
fn test_value_bad_lead_byte_consumes_one() {
    let mut r = get_reader(&[0x05, 0x8b]);
    assert!(matches!(r.read_value(), Err(vfbread::VfbError::BadValue(0x05))));
    assert_eq!(r.stream_position(), 1);
}
