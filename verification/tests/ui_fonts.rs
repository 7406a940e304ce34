use std::borrow::Cow;

use liquid_glass::font::{select_ui_fonts, UiFonts, SYSTEM_FONT_FAMILY};

#[test]
fn embedded_fonts_take_priority() {
    static EMBEDDED: &[(&str, &[u8])] = &[("SF Pro", b"first"), ("SF Pro Rounded", b"second")];
    let fonts = select_ui_fonts(EMBEDDED, Some(b"system".to_vec()));
    assert_eq!(fonts.family, Some("SF Pro"));
    assert_eq!(fonts.bytes, vec![Cow::Borrowed(&b"first"[..]), Cow::Borrowed(&b"second"[..])]);
}

#[test]
fn system_font_is_the_runtime_fallback() {
    let fonts = select_ui_fonts(&[], Some(b"system".to_vec()));
    assert_eq!(fonts.family, Some(SYSTEM_FONT_FAMILY));
    assert_eq!(fonts.family, Some("System Font"));
    assert_eq!(fonts.bytes, vec![Cow::<[u8]>::Owned(b"system".to_vec())]);
}

#[test]
fn without_fonts_the_default_family_is_used() {
    let fonts = select_ui_fonts(&[], None);
    assert_eq!(fonts.family, None);
    assert!(fonts.bytes.is_empty());
    let default = UiFonts::default();
    assert!(default.family.is_none() && default.bytes.is_empty());
}
