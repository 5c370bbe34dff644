use polished_boot::scancodes::{scancode_to_ascii, scancode_to_keysym, Keysym};

#[test]
fn test_scancode_to_ascii_letters_and_digits() {
    assert_eq!(scancode_to_ascii(0x1e), Some(b'A'));
    assert_eq!(scancode_to_ascii(0x10), Some(b'Q'));
    assert_eq!(scancode_to_ascii(0x02), Some(b'1'));
    assert_eq!(scancode_to_ascii(0x39), Some(b' '));
    assert_eq!(scancode_to_ascii(0x0f), Some(b'\t'));
}

#[test]
fn test_scancode_to_ascii_non_printable() {
    // Left shift has a synthetic code, not a printable byte.
    assert_eq!(scancode_to_ascii(0x2a), None);
    // Escape is outside the printable window.
    assert_eq!(scancode_to_ascii(0x01), None);
    // Beyond the table.
    assert_eq!(scancode_to_ascii(0xf0), None);
}

#[test]
fn test_scancode_to_keysym() {
    assert_eq!(scancode_to_keysym(0x1e).as_u16(), 'A' as u16);
    assert_eq!(scancode_to_keysym(0x2a).as_u16(), 0x0200);
    assert!(scancode_to_keysym(0x59).is_unknown());
    assert!(scancode_to_keysym(0x00).is_unknown());
}

#[test]
fn test_keysym_accessors() {
    let k = Keysym::from(0x0701);
    assert_eq!(k.as_u16(), 0x0701);
    assert!(!k.is_unknown());
    assert!(Keysym::key_unknown().is_unknown());
    assert_eq!(Keysym::key_unknown().as_u16(), 0);
}
