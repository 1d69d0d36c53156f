use miniature::wide::{push_utf16_char, Widen};

#[test]
fn str_widens_to_utf16() {
    let s = "hé\u{1F600}!";
    let expected: Vec<u16> = s.encode_utf16().collect();
    assert_eq!(s.widen(), expected);
    assert_eq!(s.widen(), vec![0x68, 0xE9, 0xD83D, 0xDE00, 0x21]);
    assert_eq!("".widen(), Vec::<u16>::new());
}

#[test]
fn one_character() {
    let mut out = vec![1u16];
    push_utf16_char(&mut out, '\u{10FFFF}');
    assert_eq!(out, vec![1, 0xDBFF, 0xDFFF]);
    push_utf16_char(&mut out, '\u{FFFF}');
    assert_eq!(out, vec![1, 0xDBFF, 0xDFFF, 0xFFFF]);
}

#[test]
fn bytes_widen_one_for_one() {
    let b: &[u8] = &[0x00, 0x41, 0xFF];
    assert_eq!(b.widen(), vec![0x00, 0x41, 0xFF]);
}

#[test]
fn units_widen_to_a_copy() {
    let w: &[u16] = &[0xD800, 7, 0];
    assert_eq!(w.widen(), vec![0xD800, 7, 0]);
}
