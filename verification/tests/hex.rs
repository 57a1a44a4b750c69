use keyutils::hex::{parse_hex, push_hex, ByteBuf};

fn check(input: &[u8], expected: &str) {
    assert_eq!(ByteBuf(input).lower_hex(), expected);
}

#[test]
fn test_ascii_hex_convert() {
    check(&[0], "00");
    check(&[0, 1], "0001");
    check(&[222, 173, 190, 239], "deadbeef");
}

#[test]
fn hex_of_nothing_is_empty() {
    check(&[], "");
}

#[test]
fn hex_keeps_every_nibble() {
    check(&[0x0f, 0xf0, 0x9a, 0xa9, 0xff], "0ff09aa9ff");
    let all: Vec<u8> = (0..=255u8).collect();
    let text = ByteBuf(&all).lower_hex();
    assert_eq!(text.len(), 512);
    assert_eq!(&text[..8], "00010203");
    assert_eq!(&text[504..], "fcfdfeff");
}

fn hex(n: u64) -> Vec<u8> {
    let mut out = b"h=".to_vec();
    push_hex(&mut out, n);
    out
}

#[test]
fn hex_numbers_are_written_without_padding() {
    assert_eq!(hex(0), b"h=0");
    assert_eq!(hex(9), b"h=9");
    assert_eq!(hex(10), b"h=a");
    assert_eq!(hex(255), b"h=ff");
    assert_eq!(hex(0x8100_0001), b"h=81000001");
    assert_eq!(hex(u64::MAX), b"h=ffffffffffffffff");
}

#[test]
fn hex_numbers_are_read_in_either_case() {
    assert_eq!(parse_hex(b"0"), Some(0));
    assert_eq!(parse_hex(b"3f010000"), Some(0x3f01_0000));
    assert_eq!(parse_hex(b"3F01ab00"), Some(0x3f01_ab00));
    assert_eq!(parse_hex(b"0000000000ff"), Some(255));
    assert_eq!(parse_hex(b"ffffffff"), Some(u32::MAX));
    assert_eq!(parse_hex(b"100000000"), None);
    assert_eq!(parse_hex(b""), None);
    assert_eq!(parse_hex(b"0x10"), None);
    assert_eq!(parse_hex(b"12g4"), None);
    assert_eq!(parse_hex(b" 12"), None);
}
