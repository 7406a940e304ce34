//! The UI font payload: which font bytes to load at startup and the family
//! name widgets request.

use vstd::prelude::*;
use std::borrow::Cow;

verus! {

/// The family name of the operating system's UI font when it is read at
/// runtime (its obfuscated name on macOS).
pub const SYSTEM_FONT_FAMILY: &'static str = "System Font";

/// The UI font payload an application should load at startup.
#[derive(Debug, Default)]
pub struct UiFonts {
    /// Font bytes to hand to the toolkit's font loader.
    pub bytes: Vec<Cow<'static, [u8]>>,
    /// The family name widgets should request, when a UI font was found.
    pub family: Option<&'static str>,
}

/// Chooses the UI fonts, in priority order: the fonts embedded at build time
/// (`embedded`, as family name and file bytes; the first one names the
/// family), else the system UI font read at runtime (`system_font`), else
/// nothing, leaving the toolkit's default font in place.
pub fn select_ui_fonts(
    embedded: &[(&'static str, &'static [u8])],
    system_font: Option<Vec<u8>>,
) -> (r: UiFonts)
    ensures
        embedded@.len() > 0 ==> {
            &&& r.bytes@.len() == embedded@.len()
            &&& forall|i: int|
                0 <= i < embedded@.len() ==> #[trigger] r.bytes@[i] is Borrowed && r.bytes@[i]@
                    == embedded@[i].1@
            &&& r.family == Some(embedded@[0].0)
        },
        embedded@.len() == 0 && system_font is Some ==> {
            &&& r.bytes@.len() == 1
            &&& r.bytes@[0] is Owned
            &&& r.bytes@[0]@ == system_font->0@
            &&& r.family matches Some(f) && f@ == SYSTEM_FONT_FAMILY@
        },
        embedded@.len() == 0 && system_font is None ==> r.bytes@.len() == 0 && r.family is None,
{
    if embedded.len() > 0 {
        let mut bytes: Vec<Cow<'static, [u8]>> = Vec::new();
        let mut i: usize = 0;
        while i < embedded.len()
            invariant
                i <= embedded@.len(),
                bytes@.len() == i,
                forall|k: int|
                    0 <= k < i ==> #[trigger] bytes@[k] is Borrowed && bytes@[k]@ == embedded@[k].1@,
            decreases embedded@.len() - i,
        {
            let (_, font) = embedded[i];
            bytes.push(Cow::Borrowed(font));
            i = i + 1;
        }
        let (family, _) = embedded[0];
        return UiFonts { bytes, family: Some(family) };
    }
    match system_font {
        Some(font) => {
            let mut bytes: Vec<Cow<'static, [u8]>> = Vec::new();
            bytes.push(Cow::Owned(font));
            UiFonts { bytes, family: Some(SYSTEM_FONT_FAMILY) }
        },
        None => UiFonts { bytes: Vec::new(), family: None },
    }
}

} // verus!
