use miniature::interop::{
    compute_program_length, hiword, loword, wcslen, MAKELANGID, _aulldiv, _aullrem,
};

fn wide(s: &str) -> Vec<u16> {
    s.encode_utf16().collect()
}

#[test]
fn program_length_of_quoted_program() {
    let mut line = wide("\"ab\" cd");
    line.push(0);
    assert_eq!(compute_program_length(&line), 4);
}

#[test]
fn program_length_of_unquoted_program_stops_before_the_nul() {
    let mut line = wide("ab cd");
    line.push(0);
    assert_eq!(compute_program_length(&line), 4);
}

#[test]
fn program_length_of_quote_at_the_end() {
    let line = wide("\"ab\"");
    assert_eq!(compute_program_length(&line), 4);
}

#[test]
fn program_length_of_empty_quoted_program() {
    let mut line = wide("\"\"x");
    line.push(0);
    // The scan starts two units in, so the closing quote at index 1 is not seen.
    assert_eq!(compute_program_length(&line), 2);
}

#[test]
fn words_of_a_machine_word() {
    let value: usize = 0x0004_4550;
    assert_eq!(loword(value), 0x4550);
    assert_eq!(hiword(value), 0x0004);
    assert_eq!(loword(0), 0);
    assert_eq!(hiword(0xFFFF), 0);
    assert_eq!((hiword(value) as usize) * 0x10000 + loword(value) as usize, value);
}

#[test]
fn wcslen_counts_up_to_the_first_nul() {
    let s = [0x61u16, 0x62, 0, 0x63, 0];
    assert_eq!(wcslen(Some(&s)), 2);
    assert_eq!(wcslen(Some(&[0u16])), 0);
    assert_eq!(wcslen(None), 0);
}

#[test]
fn language_identifiers() {
    assert_eq!(MAKELANGID(0, 0), 0);
    assert_eq!(MAKELANGID(0x09, 0x01), 0x0409);
    let id = MAKELANGID(0x07, 0x02);
    assert_eq!(id % 0x400, 0x07);
    assert_eq!(id / 0x400, 0x02);
    // Only the low six bits of the sublanguage survive the shift.
    assert_eq!(MAKELANGID(0, 0x41), 0x0400);
}

#[test]
fn sixty_four_bit_division_helpers() {
    assert_eq!(_aullrem(10, 3), 1);
    assert_eq!(_aullrem(10, 0), 0);
    assert_eq!(_aullrem(u64::MAX, 10), 5);
    assert_eq!(_aulldiv(10, 3), 3);
    assert_eq!(_aulldiv(u64::MAX, 1), u64::MAX);
}
