use miniature::subsystem::{EncodeError, Subsystem};

fn image_with_pe_at(pe: u32, len: usize) -> Vec<u8> {
    let mut image = vec![0u8; len];
    image[0] = b'M';
    image[1] = b'Z';
    image[0x3C..0x40].copy_from_slice(&pe.to_le_bytes());
    image
}

#[test]
fn code_of_windows_subsystem() {
    assert_eq!(Subsystem::Windows.code(), 2);
}

#[test]
fn writes_the_code_after_the_pe_header() {
    let mut image = image_with_pe_at(0x80, 0x200);
    let before = image.clone();
    assert_eq!(Subsystem::Windows.encode_image(&mut image), Ok(()));
    assert_eq!(image.len(), 0x200);
    assert_eq!(image[0x80 + 0x5C], 2);
    assert_eq!(image[0x80 + 0x5C + 1], 0);
    for k in 0..image.len() {
        if k != 0xDC && k != 0xDD {
            assert_eq!(image[k], before[k]);
        }
    }
}

#[test]
fn short_image_grows_with_zeros() {
    let mut image = image_with_pe_at(0x80, 0x40);
    assert_eq!(Subsystem::Windows.encode_image(&mut image), Ok(()));
    assert_eq!(image.len(), 0xDE);
    assert_eq!(&image[0x40..0xDC], &vec![0u8; 0xDC - 0x40][..]);
    assert_eq!(&image[0xDC..], &[2, 0]);
}

#[test]
fn header_too_short() {
    let mut image = vec![0u8; 0x3F];
    assert_eq!(Subsystem::Windows.encode_image(&mut image), Err(EncodeError::HeaderTooShort));
    assert_eq!(image, vec![0u8; 0x3F]);
}

#[test]
fn encoding_twice_is_encoding_once() {
    let mut once = image_with_pe_at(0x40, 0x90);
    Subsystem::Windows.encode_image(&mut once).unwrap();
    let mut twice = once.clone();
    Subsystem::Windows.encode_image(&mut twice).unwrap();
    assert_eq!(once, twice);
}
