use liquid_glass::font_table::{family_name, find_table, u16_at, u32_at};

/// One name record: platform, name ID, and the encoded string bytes.
struct Record {
    platform: u16,
    name_id: u16,
    text: Vec<u8>,
}

fn utf16be(text: &str) -> Vec<u8> {
    text.encode_utf16().flat_map(|unit| unit.to_be_bytes()).collect()
}

fn name_table(records: &[Record]) -> Vec<u8> {
    let count = records.len() as u16;
    let string_base = 6 + 12 * count;
    let mut table = Vec::new();
    table.extend(0_u16.to_be_bytes());
    table.extend(count.to_be_bytes());
    table.extend(string_base.to_be_bytes());
    let mut strings: Vec<u8> = Vec::new();
    for record in records {
        table.extend(record.platform.to_be_bytes());
        table.extend(1_u16.to_be_bytes());
        table.extend(0_u16.to_be_bytes());
        table.extend(record.name_id.to_be_bytes());
        table.extend((record.text.len() as u16).to_be_bytes());
        table.extend((strings.len() as u16).to_be_bytes());
        strings.extend(&record.text);
    }
    table.extend(strings);
    table
}

/// A font file holding a `head` table and the given `name` table, laid out
/// starting at `base` within the file.
fn font_at(base: usize, name: &[u8]) -> Vec<u8> {
    let head = vec![0xAB_u8; 8];
    let directory_len = 12 + 2 * 16;
    let head_offset = (base + directory_len) as u32;
    let name_offset = head_offset + head.len() as u32;
    let mut font = Vec::new();
    font.extend(0x0001_0000_u32.to_be_bytes());
    font.extend(2_u16.to_be_bytes());
    font.extend([0_u8; 6]);
    font.extend(*b"head");
    font.extend(0_u32.to_be_bytes());
    font.extend(head_offset.to_be_bytes());
    font.extend((head.len() as u32).to_be_bytes());
    font.extend(*b"name");
    font.extend(0_u32.to_be_bytes());
    font.extend(name_offset.to_be_bytes());
    font.extend((name.len() as u32).to_be_bytes());
    font.extend(head);
    font.extend(name);
    font
}

#[test]
fn typographic_family_wins_over_family() {
    let name = name_table(&[
        Record { platform: 3, name_id: 1, text: utf16be("Inter") },
        Record { platform: 3, name_id: 4, text: utf16be("Inter Regular") },
        Record { platform: 3, name_id: 16, text: utf16be("Inter Display") },
    ]);
    let font = font_at(0, &name);
    assert_eq!(family_name(&font).as_deref(), Some("Inter Display"));
    assert_eq!(find_table(&font, *b"name"), Some(&name[..]));
    assert_eq!(find_table(&font, *b"head"), Some(&[0xAB_u8; 8][..]));
    assert_eq!(find_table(&font, *b"glyf"), None);
}

#[test]
fn first_family_is_the_fallback() {
    let name = name_table(&[
        Record { platform: 1, name_id: 1, text: b"Caf\xe9".to_vec() },
        Record { platform: 0, name_id: 1, text: utf16be("Second") },
        Record { platform: 3, name_id: 2, text: utf16be("Bold") },
    ]);
    assert_eq!(family_name(&font_at(0, &name)).as_deref(), Some("Café"));
}

#[test]
fn utf16_names_decode_pairs_and_replace_broken_surrogates() {
    let mut text = utf16be("A\u{1F600}");
    text.extend([0xD8, 0x00, 0x00, 0x42, 0xDC, 0x00]);
    text.push(0x7F);
    let name = name_table(&[Record { platform: 3, name_id: 16, text }]);
    assert_eq!(family_name(&font_at(0, &name)).as_deref(), Some("A\u{1F600}\u{FFFD}B\u{FFFD}"));
}

#[test]
fn collections_use_the_first_face() {
    let name = name_table(&[Record { platform: 3, name_id: 1, text: utf16be("Collected") }]);
    let face = font_at(16, &name);
    let mut collection = Vec::new();
    collection.extend(*b"ttcf");
    collection.extend(0x0001_0000_u32.to_be_bytes());
    collection.extend(1_u32.to_be_bytes());
    collection.extend(16_u32.to_be_bytes());
    collection.extend(face);
    assert_eq!(family_name(&collection).as_deref(), Some("Collected"));
}

#[test]
fn damaged_fonts_have_no_family() {
    assert_eq!(family_name(&[]), None);
    assert_eq!(family_name(b"ttcf"), None);

    let without_family =
        name_table(&[Record { platform: 3, name_id: 4, text: utf16be("Full Name") }]);
    assert_eq!(family_name(&font_at(0, &without_family)), None);

    // A family record whose string runs past the table.
    let mut truncated = name_table(&[Record { platform: 3, name_id: 1, text: utf16be("Cut") }]);
    truncated.truncate(truncated.len() - 2);
    assert_eq!(family_name(&font_at(0, &truncated)), None);

    // A typographic family after a record that runs past the table is never reached.
    let mut font = font_at(0, &name_table(&[]));
    let name_start = font.len() - 6;
    font[name_start + 3] = 1;
    assert_eq!(family_name(&font), None);

    // A directory entry that points past the file.
    let mut bad = font_at(0, &name_table(&[]));
    bad[12 + 16 + 8..12 + 16 + 12].copy_from_slice(&0xFFFF_FF00_u32.to_be_bytes());
    assert_eq!(find_table(&bad, *b"name"), None);
}

#[test]
fn big_endian_readers_stop_at_the_end() {
    let bytes = [0x12, 0x34, 0x56, 0x78, 0x9A];
    assert_eq!(u16_at(&bytes, 0), Some(0x1234));
    assert_eq!(u16_at(&bytes, 3), Some(0x789A));
    assert_eq!(u16_at(&bytes, 4), None);
    assert_eq!(u16_at(&bytes, usize::MAX), None);
    assert_eq!(u32_at(&bytes, 1), Some(0x3456_789A));
    assert_eq!(u32_at(&bytes, 2), None);
    assert_eq!(u32_at(&bytes, usize::MAX - 1), None);
}
