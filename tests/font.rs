use nanohat_oled::bitmap;

#[test]
fn bitmap_covers_printable_ascii() {
    for code in 0x20u32..=0x7e {
        let c = char::from_u32(code).unwrap();
        let glyph = bitmap(c).unwrap();
        assert_eq!(glyph.len(), 8);
        assert_eq!(glyph[0], 0);
        assert_eq!(glyph[6], 0);
        assert_eq!(glyph[7], 0);
        if c != ' ' {
            assert!(glyph.iter().any(|b| *b != 0));
        }
    }
}

#[test]
fn bitmap_has_no_glyph_outside_printable_ascii() {
    for c in ['\0', '\n', '\u{1f}', '\u{7f}', '\u{80}', 'é', '€'] {
        assert_eq!(bitmap(c), None);
    }
}

#[test]
fn bitmap_of_letters() {
    assert_eq!(bitmap('A'), Some([0x00, 0x7e, 0x11, 0x11, 0x11, 0x7e, 0x00, 0x00]));
    assert_eq!(bitmap(' '), Some([0u8; 8]));
    assert_eq!(bitmap('!'), Some([0x00, 0x00, 0x00, 0x5f, 0x00, 0x00, 0x00, 0x00]));
}
