use miniature::exe_type::{ExeType, MZ, NE, PE};

#[test]
fn signatures_are_the_little_endian_letter_pairs() {
    assert_eq!(MZ, u16::from_le_bytes([b'M', b'Z']));
    assert_eq!(PE, u16::from_le_bytes([b'P', b'E']));
    assert_eq!(NE, u16::from_le_bytes([b'N', b'E']));
}

#[test]
fn gui_program_is_windows() {
    let t = ExeType::from_file_info(0x0004_4550);
    assert!(t.is_windows());
    assert!(!t.is_console());
    assert!(!t.is_msdos());
    assert!(t.windows_app());
}

#[test]
fn ne_program_with_version_is_windows() {
    let t = ExeType::from_file_info(0x0003_454E);
    assert!(t.is_windows());
    assert!(!t.is_console());
}

#[test]
fn console_program() {
    let t = ExeType::from_file_info(PE as usize);
    assert!(t.is_console());
    assert!(!t.is_windows());
    assert!(!t.is_msdos());
}

#[test]
fn msdos_program() {
    let t = ExeType::from_file_info(MZ as usize);
    assert!(t.is_msdos());
    assert!(!t.is_console());
    assert!(!t.is_windows());
}

#[test]
fn no_executable() {
    let t = ExeType::from_file_info(0);
    assert!(!t.windows_app());
    assert!(!t.is_windows());
    assert!(!t.is_console());
    assert!(!t.is_msdos());
    assert!(ExeType::detect(0).is_none());
    assert!(ExeType::detect(0x0004_4550).unwrap().is_windows());
}

#[test]
fn printed_words() {
    let t = ExeType::from_file_info(0x0004_4550);
    let (hi, lo) = t.debug_fields();
    assert_eq!(hi, Some([0x04, 0x00]));
    assert_eq!(lo, Some([b'P', b'E']));
    let (hi, lo) = ExeType::from_file_info(MZ as usize).debug_fields();
    assert_eq!(hi, None);
    assert_eq!(lo, Some([b'M', b'Z']));
    assert_eq!(ExeType::word_bytes(0), None);
}
