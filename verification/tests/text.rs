use cp_probe::text::{hex, lossy_text, non_empty, push_decimal, push_hex, wide_null, wide_to_string};

#[test]
fn decimal_digits() {
    let mut s = String::from("n=");
    push_decimal(&mut s, 0);
    assert_eq!(s, "n=0");
    push_decimal(&mut s, 1_234_567_890);
    assert_eq!(s, "n=01234567890");
    let mut max = String::new();
    push_decimal(&mut max, u64::MAX);
    assert_eq!(max, "18446744073709551615");
}

#[test]
fn hexadecimal_digits_and_padding() {
    let mut s = String::new();
    push_hex(&mut s, 0, 8, false);
    assert_eq!(s, "00000000");
    s.clear();
    push_hex(&mut s, 0x800B_0100, 8, false);
    assert_eq!(s, "800b0100");
    s.clear();
    push_hex(&mut s, 0x800B_0100, 8, true);
    assert_eq!(s, "800B0100");
    s.clear();
    push_hex(&mut s, 0x1_0000_0000, 8, true);
    assert_eq!(s, "100000000");
    s.clear();
    push_hex(&mut s, u64::MAX, 0, false);
    assert_eq!(s, "ffffffffffffffff");
}

#[test]
fn hex_of_bytes() {
    assert_eq!(hex(&[]), "");
    assert_eq!(hex(&[0x00, 0x0f, 0xa0, 0xff]), "000fa0ff");
}

#[test]
fn wide_text_is_terminated_and_reads_back() {
    assert_eq!(wide_null(""), vec![0u16]);
    assert_eq!(wide_null("Aé€"), vec![0x41, 0xe9, 0x20ac, 0]);
    assert_eq!(wide_null("\u{1F600}"), vec![0xd83d, 0xde00, 0]);
    for s in ["", "notepad.exe", "naïve €", "a\u{1F600}b\u{10FFFF}"] {
        assert_eq!(wide_to_string(&wide_null(s)), s);
        let expected: Vec<u16> = s.encode_utf16().chain(std::iter::once(0)).collect();
        assert_eq!(wide_null(s), expected);
    }
}

#[test]
fn lone_surrogates_are_replaced() {
    let cases: [&[u16]; 6] = [
        &[0xd800],
        &[0xdc00],
        &[0x41, 0xd83d, 0x42],
        &[0xd83d, 0xd83d, 0xde00],
        &[0xde00, 0xd83d],
        &[0xd83d, 0xde00, 0xde00],
    ];
    for units in cases {
        assert_eq!(lossy_text(units), String::from_utf16_lossy(units));
    }
    assert_eq!(lossy_text(&[0x41, 0xd83d, 0x42]), "A\u{FFFD}B");
}

#[test]
fn wide_text_stops_at_the_terminator() {
    assert_eq!(wide_to_string(&[0x61, 0x62, 0, 0x63]), "ab");
    assert_eq!(wide_to_string(&[0x61, 0x62]), "ab");
    assert_eq!(wide_to_string(&[0]), "");
    assert_eq!(wide_to_string(&[]), "");
    assert_eq!(lossy_text(&[0x61, 0, 0x62]), "a\0b");
}

#[test]
fn empty_text_is_nothing() {
    assert_eq!(non_empty(String::new()), None);
    assert_eq!(non_empty(String::from(" ")), Some(String::from(" ")));
}
