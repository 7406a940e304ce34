//! Reading the family name out of an sfnt font file (TrueType, OpenType, or
//! the first face of a TrueType collection), so embedded UI fonts can be
//! requested by name.

use vstd::prelude::*;
use crate::text::push_char;

verus! {

/// The big-endian 16-bit value stored at `at`.
pub open spec fn be16(s: Seq<u8>, at: int) -> int {
    s[at] as int * 256 + s[at + 1] as int
}

/// The big-endian 32-bit value stored at `at`.
pub open spec fn be32(s: Seq<u8>, at: int) -> int {
    s[at] as int * 16777216 + s[at + 1] as int * 65536 + s[at + 2] as int * 256 + s[at + 3] as int
}

/// The 16-bit value at `at`, when two bytes are available there.
pub open spec fn read_u16(s: Seq<u8>, at: int) -> Option<int> {
    if 0 <= at && at + 2 <= s.len() {
        Some(be16(s, at))
    } else {
        None
    }
}

/// The 32-bit value at `at`, when four bytes are available there.
pub open spec fn read_u32(s: Seq<u8>, at: int) -> Option<int> {
    if 0 <= at && at + 4 <= s.len() {
        Some(be32(s, at))
    } else {
        None
    }
}

/// Reads a big-endian `u16` at `offset`, or `None` past the end of `bytes`.
pub fn u16_at(bytes: &[u8], offset: usize) -> (r: Option<u16>)
    ensures
        r is Some <==> read_u16(bytes@, offset as int) is Some,
        r is Some ==> r->0 as int == read_u16(bytes@, offset as int)->0,
{
    if offset <= bytes.len() && 2 <= bytes.len() - offset {
        let hi: u16 = bytes[offset] as u16;
        let lo: u16 = bytes[offset + 1] as u16;
        Some(hi * 256 + lo)
    } else {
        None
    }
}

/// Reads a big-endian `u32` at `offset`, or `None` past the end of `bytes`.
pub fn u32_at(bytes: &[u8], offset: usize) -> (r: Option<u32>)
    ensures
        r is Some <==> read_u32(bytes@, offset as int) is Some,
        r is Some ==> r->0 as int == read_u32(bytes@, offset as int)->0,
{
    if offset <= bytes.len() && 4 <= bytes.len() - offset {
        let b0: u32 = bytes[offset] as u32;
        let b1: u32 = bytes[offset + 1] as u32;
        let b2: u32 = bytes[offset + 2] as u32;
        let b3: u32 = bytes[offset + 3] as u32;
        Some(b0 * 16777216 + b1 * 65536 + b2 * 256 + b3)
    } else {
        None
    }
}

/// Whether `bytes` starts with the TrueType collection tag `ttcf`.
pub open spec fn is_collection(bytes: Seq<u8>) -> bool {
    bytes.len() >= 4 && bytes[0] == 0x74 && bytes[1] == 0x74 && bytes[2] == 0x63 && bytes[3] == 0x66
}

/// The table directory of the font: the file itself, or for a collection the
/// directory of its first face, whose offset is stored at byte 12.
pub open spec fn table_directory(bytes: Seq<u8>) -> Option<Seq<u8>> {
    if is_collection(bytes) {
        match read_u32(bytes, 12) {
            Some(first) => if first <= bytes.len() {
                Some(bytes.skip(first))
            } else {
                None
            },
            None => None,
        }
    } else {
        Some(bytes)
    }
}

/// Searches directory records `i..count` for `tag`. A record that runs past
/// the directory ends the search without a result; a matching record yields
/// the table bytes (offsets are absolute within the whole file) when they lie
/// inside the file.
pub open spec fn search_directory(bytes: Seq<u8>, dir: Seq<u8>, tag: Seq<u8>, count: int, i: int) -> Option<Seq<u8>>
    decreases count - i,
{
    if i >= count {
        None
    } else {
        let at = 12 + 16 * i;
        if at + 16 > dir.len() {
            None
        } else if dir.subrange(at, at + 4) == tag {
            let offset = be32(dir, at + 8);
            let length = be32(dir, at + 12);
            if offset + length <= bytes.len() {
                Some(bytes.subrange(offset, offset + length))
            } else {
                None
            }
        } else {
            search_directory(bytes, dir, tag, count, i + 1)
        }
    }
}

/// The bytes of the table tagged `tag`, if the font has one that can be read.
pub open spec fn table_bytes(bytes: Seq<u8>, tag: Seq<u8>) -> Option<Seq<u8>> {
    match table_directory(bytes) {
        Some(dir) => match read_u16(dir, 4) {
            Some(count) => search_directory(bytes, dir, tag, count, 0),
            None => None,
        },
        None => None,
    }
}

/// Returns the bytes of an sfnt table directory entry.
///
/// A collection wraps several fonts; the first face's directory is enough
/// for a family name. Table offsets stay absolute from the start of the file
/// in both plain sfnt and collections.
pub fn find_table<'a>(bytes: &'a [u8], tag: [u8; 4]) -> (r: Option<&'a [u8]>)
    ensures
        r is Some <==> table_bytes(bytes@, tag@) is Some,
        r is Some ==> r->0@ == table_bytes(bytes@, tag@)->0,
{
    let directory: &[u8] = if bytes.len() >= 4 && bytes[0] == 0x74 && bytes[1] == 0x74
        && bytes[2] == 0x63 && bytes[3] == 0x66 {
        let first = match u32_at(bytes, 12) {
            Some(v) => v as usize,
            None => {
                return None;
            },
        };
        if first > bytes.len() {
            return None;
        }
        &bytes[first..bytes.len()]
    } else {
        bytes
    };
    assert(table_directory(bytes@) == Some(directory@)) by {
        if is_collection(bytes@) {
            assert(directory@ =~= bytes@.skip(read_u32(bytes@, 12)->0));
        }
    }
    let num_tables: usize = match u16_at(directory, 4) {
        Some(n) => n as usize,
        None => {
            return None;
        },
    };
    let mut index: usize = 0;
    while index < num_tables
        invariant
            num_tables <= 65535,
            index <= num_tables,
            table_directory(bytes@) == Some(directory@),
            read_u16(directory@, 4) == Some(num_tables as int),
            search_directory(bytes@, directory@, tag@, num_tables as int, 0)
                == search_directory(bytes@, directory@, tag@, num_tables as int, index as int),
        decreases num_tables - index,
    {
        let at: usize = 12 + index * 16;
        if at > directory.len() || 16 > directory.len() - at {
            return None;
        }
        let same = directory[at] == tag[0] && directory[at + 1] == tag[1]
            && directory[at + 2] == tag[2] && directory[at + 3] == tag[3];
        assert(same == (directory@.subrange(at as int, at + 4) == tag@)) by {
            if same {
                assert(directory@.subrange(at as int, at + 4) =~= tag@);
            } else if directory@.subrange(at as int, at + 4) == tag@ {
                assert(directory@.subrange(at as int, at + 4)[0] == tag@[0]);
                assert(directory@.subrange(at as int, at + 4)[1] == tag@[1]);
                assert(directory@.subrange(at as int, at + 4)[2] == tag@[2]);
                assert(directory@.subrange(at as int, at + 4)[3] == tag@[3]);
            }
        }
        if same {
            let offset = match u32_at(directory, at + 8) {
                Some(v) => v as usize,
                None => {
                    return None;
                },
            };
            let length = match u32_at(directory, at + 12) {
                Some(v) => v as usize,
                None => {
                    return None;
                },
            };
            if offset > bytes.len() || length > bytes.len() - offset {
                return None;
            }
            return Some(&bytes[offset..offset + length]);
        }
        index = index + 1;
    }
    None
}

/// The UTF-16 code units of `raw`, read as big-endian pairs; an odd final
/// byte is ignored.
pub open spec fn utf16_units(raw: Seq<u8>) -> Seq<int> {
    Seq::new((raw.len() / 2) as nat, |i: int| be16(raw, 2 * i))
}

/// Lossy UTF-16 decoding: surrogate pairs combine into one character, and
/// every code unit that is not part of a valid pair becomes U+FFFD.
pub open spec fn decode_utf16_lossy(u: Seq<int>) -> Seq<char>
    decreases u.len(),
{
    if u.len() == 0 {
        Seq::empty()
    } else if u[0] < 0xD800 || u[0] > 0xDFFF {
        seq![u[0] as char] + decode_utf16_lossy(u.skip(1))
    } else if u[0] <= 0xDBFF && u.len() >= 2 && 0xDC00 <= u[1] && u[1] <= 0xDFFF {
        seq![(0x10000 + (u[0] - 0xD800) * 1024 + (u[1] - 0xDC00)) as char] + decode_utf16_lossy(
            u.skip(2),
        )
    } else {
        seq!['\u{FFFD}'] + decode_utf16_lossy(u.skip(1))
    }
}

/// Each byte read as the character with the same value (Latin-1).
pub open spec fn decode_latin1(raw: Seq<u8>) -> Seq<char> {
    raw.map_values(|b: u8| b as char)
}

/// The text of a name record: UTF-16BE for the Unicode (0) and Windows (3)
/// platforms, one character per byte otherwise.
pub open spec fn decode_name(platform: int, raw: Seq<u8>) -> Seq<char> {
    if platform == 3 || platform == 0 {
        decode_utf16_lossy(utf16_units(raw))
    } else {
        decode_latin1(raw)
    }
}

/// Walks name records `i..count` of a `name` table whose strings start at
/// `base`. The first typographic family name (name ID 16) wins; otherwise
/// the first family name (name ID 1) found is the answer. A record, or the
/// string of a family record, that runs past the table ends the walk with
/// no name.
pub open spec fn search_names(table: Seq<u8>, count: int, base: int, i: int, fallback: Option<Seq<char>>) -> Option<Seq<char>>
    decreases count - i,
{
    if i >= count {
        fallback
    } else {
        let at = 6 + 12 * i;
        if at + 12 > table.len() {
            None
        } else {
            let platform = be16(table, at);
            let name_id = be16(table, at + 6);
            let length = be16(table, at + 8);
            let offset = be16(table, at + 10);
            if name_id != 16 && name_id != 1 {
                search_names(table, count, base, i + 1, fallback)
            } else if base + offset + length > table.len() {
                None
            } else {
                let name = decode_name(platform, table.subrange(base + offset, base + offset + length));
                if name_id == 16 {
                    Some(name)
                } else {
                    search_names(table, count, base, i + 1, if fallback is Some {
                        fallback
                    } else {
                        Some(name)
                    })
                }
            }
        }
    }
}

/// The tag of the naming table.
pub open spec fn name_tag() -> Seq<u8> {
    seq![0x6eu8, 0x61u8, 0x6du8, 0x65u8]
}

/// The family name of a font file, as defined by its `name` table.
pub open spec fn family_name_of(bytes: Seq<u8>) -> Option<Seq<char>> {
    match table_bytes(bytes, name_tag()) {
        Some(table) => match (read_u16(table, 2), read_u16(table, 4)) {
            (Some(count), Some(base)) => search_names(table, count, base, 0, None),
            _ => None,
        },
        None => None,
    }
}

/// Returns the character with scalar value `v` through `char::from_u32`,
/// which yields `Some` exactly for Unicode scalar values (below 0xD800, or
/// from 0xE000 to 0x10FFFF).
#[verifier::external_body]
fn char_from_u32(v: u32) -> (r: Option<char>)
    ensures
        (v < 0xD800 || (0xE000 <= v && v <= 0x10FFFF)) ==> r == Some(v as char),
        !(v < 0xD800 || (0xE000 <= v && v <= 0x10FFFF)) ==> r is None,
{
    char::from_u32(v)
}

/// Decodes UTF-16BE text with replacement of unpaired surrogates.
fn decode_utf16_be(raw: &[u8]) -> (r: String)
    ensures
        r@ == decode_utf16_lossy(utf16_units(raw@)),
{
    let ghost units = utf16_units(raw@);
    let total: usize = raw.len();
    let count: usize = total / 2;
    let mut s = String::new();
    let mut i: usize = 0;
    assert(units.skip(0) =~= units);
    while i < count
        invariant
            count == raw@.len() / 2,
            total == raw@.len(),
            count == units.len(),
            units == utf16_units(raw@),
            i <= count,
            s@ + decode_utf16_lossy(units.skip(i as int)) == decode_utf16_lossy(units),
        decreases count - i,
    {
        let ghost rest = units.skip(i as int);
        assert(2 * i + 1 < raw@.len()) by (nonlinear_arith)
            requires
                i < count,
                count == raw@.len() / 2,
        ;
        let unit: u32 = (raw[2 * i] as u32) * 256 + raw[2 * i + 1] as u32;
        assert(unit as int == units[i as int] && rest[0] == units[i as int]);
        if unit < 0xD800 || unit > 0xDFFF {
            let c = match char_from_u32(unit) {
                Some(c) => c,
                None => '\u{FFFD}',
            };
            push_char(&mut s, c);
            assert(rest.skip(1) =~= units.skip(i + 1));
            i = i + 1;
        } else if unit <= 0xDBFF && i + 1 < count {
            assert(2 * i + 3 < raw@.len()) by (nonlinear_arith)
                requires
                    i + 1 < count,
                    count == raw@.len() / 2,
            ;
            let next: u32 = (raw[2 * i + 2] as u32) * 256 + raw[2 * i + 3] as u32;
            assert(next as int == units[i + 1] && rest[1] == units[i + 1]);
            if 0xDC00 <= next && next <= 0xDFFF {
                let scalar: u32 = 0x10000 + (unit - 0xD800) * 1024 + (next - 0xDC00);
                let c = match char_from_u32(scalar) {
                    Some(c) => c,
                    None => '\u{FFFD}',
                };
                push_char(&mut s, c);
                assert(rest.skip(2) =~= units.skip(i + 2));
                i = i + 2;
            } else {
                push_char(&mut s, '\u{FFFD}');
                assert(rest.skip(1) =~= units.skip(i + 1));
                i = i + 1;
            }
        } else {
            push_char(&mut s, '\u{FFFD}');
            assert(rest.skip(1) =~= units.skip(i + 1));
            i = i + 1;
        }
    }
    assert(units.skip(count as int) =~= Seq::<int>::empty());
    s
}

/// Decodes text with one character per byte.
fn decode_latin1_bytes(raw: &[u8]) -> (r: String)
    ensures
        r@ == decode_latin1(raw@),
{
    let mut s = String::new();
    let mut i: usize = 0;
    while i < raw.len()
        invariant
            i <= raw@.len(),
            s@ == decode_latin1(raw@.take(i as int)),
        decreases raw@.len() - i,
    {
        let c: char = raw[i] as char;
        push_char(&mut s, c);
        assert(raw@.take(i + 1) =~= raw@.take(i as int).push(raw@[i as int]));
        i = i + 1;
    }
    assert(raw@.take(raw@.len() as int) =~= raw@);
    s
}

/// Decodes the text of a name record for `platform`.
fn decode_name_text(platform: u16, raw: &[u8]) -> (r: String)
    ensures
        r@ == decode_name(platform as int, raw@),
        (platform == 0 || platform == 3) ==> r@ == decode_utf16_lossy(utf16_units(raw@)),
        !(platform == 0 || platform == 3) ==> r@ == decode_latin1(raw@),
{
    if platform == 3 || platform == 0 {
        decode_utf16_be(raw)
    } else {
        decode_latin1_bytes(raw)
    }
}

/// Name records of the Unicode (0) and Windows (3) platforms hold UTF-16BE
/// text and are decoded as lossy UTF-16; records of every other platform are
/// read one character per byte.
pub proof fn lemma_name_text_encoding_follows_platform(platform: int, raw: Seq<u8>)
    ensures
        (platform == 0 || platform == 3) ==> decode_name(platform, raw) == decode_utf16_lossy(utf16_units(raw)),
        !(platform == 0 || platform == 3) ==> decode_name(platform, raw) == raw.map_values(|b: u8| b as char),
        decode_latin1(raw).len() == raw.len(),
        forall|k: int| 0 <= k < raw.len() ==> #[trigger] decode_latin1(raw)[k] == raw[k] as char,
{
}

/// A UTF-16BE unit sequence of characters outside the surrogate range
/// decodes to exactly those characters, one per pair of bytes: in particular
/// a Unicode-platform family name written in UTF-16BE is never read one
/// character per byte.
pub proof fn lemma_utf16_bmp_text_decodes_per_unit(raw: Seq<u8>)
    requires
        raw.len() % 2 == 0,
        forall|k: int| 0 <= k < raw.len() / 2 ==> (#[trigger] be16(raw, 2 * k) < 0xD800 || be16(raw, 2 * k) > 0xDFFF),
    ensures
        decode_name(0, raw).len() == raw.len() / 2,
        decode_name(3, raw).len() == raw.len() / 2,
        forall|k: int| 0 <= k < raw.len() / 2 ==> #[trigger] decode_name(0, raw)[k] == be16(raw, 2 * k) as char,
{
    lemma_decode_bmp_units(utf16_units(raw));
}

proof fn lemma_decode_bmp_units(u: Seq<int>)
    requires
        forall|k: int| 0 <= k < u.len() ==> (#[trigger] u[k] < 0xD800 || u[k] > 0xDFFF),
    ensures
        decode_utf16_lossy(u).len() == u.len(),
        forall|k: int| 0 <= k < u.len() ==> #[trigger] decode_utf16_lossy(u)[k] == u[k] as char,
    decreases u.len(),
{
    if u.len() > 0 {
        assert(u[0] < 0xD800 || u[0] > 0xDFFF);
        let rest = u.skip(1);
        assert forall|k: int| 0 <= k < rest.len() implies (#[trigger] rest[k] < 0xD800 || rest[k] > 0xDFFF) by {
            assert(rest[k] == u[k + 1]);
        }
        lemma_decode_bmp_units(rest);
        assert forall|k: int| 0 <= k < u.len() implies #[trigger] decode_utf16_lossy(u)[k] == u[k] as char by {
            if k > 0 {
                assert(rest[k - 1] == u[k]);
            }
        }
    }
}

/// The character view of an optional string.
pub open spec fn optional_text(o: Option<String>) -> Option<Seq<char>> {
    match o {
        Some(s) => Some(s@),
        None => None,
    }
}

/// Reads the family name (name ID 16, falling back to 1) from an sfnt font.
pub fn family_name(bytes: &[u8]) -> (r: Option<String>)
    ensures
        optional_text(r) == family_name_of(bytes@),
{
    let table = match find_table(bytes, [0x6e, 0x61, 0x6d, 0x65]) {
        Some(t) => t,
        None => {
            return None;
        },
    };
    assert([0x6eu8, 0x61u8, 0x6du8, 0x65u8]@ =~= name_tag());
    let count: usize = match u16_at(table, 2) {
        Some(v) => v as usize,
        None => {
            return None;
        },
    };
    let string_base: usize = match u16_at(table, 4) {
        Some(v) => v as usize,
        None => {
            return None;
        },
    };
    let mut fallback: Option<String> = None;
    let mut index: usize = 0;
    while index < count
        invariant
            count <= 65535,
            string_base <= 65535,
            index <= count,
            table_bytes(bytes@, name_tag()) == Some(table@),
            read_u16(table@, 2) == Some(count as int),
            read_u16(table@, 4) == Some(string_base as int),
            family_name_of(bytes@) == search_names(
                table@,
                count as int,
                string_base as int,
                index as int,
                optional_text(fallback),
            ),
        decreases count - index,
    {
        let at: usize = 6 + index * 12;
        if at > table.len() || 12 > table.len() - at {
            return None;
        }
        let platform: u16 = (table[at] as u16) * 256 + table[at + 1] as u16;
        let name_id: u16 = (table[at + 6] as u16) * 256 + table[at + 7] as u16;
        let length: usize = ((table[at + 8] as u16) * 256 + table[at + 9] as u16) as usize;
        let offset: usize = ((table[at + 10] as u16) * 256 + table[at + 11] as u16) as usize;
        if name_id != 16 && name_id != 1 {
            index = index + 1;
            continue;
        }
        let start: usize = string_base + offset;
        if start > table.len() || length > table.len() - start {
            return None;
        }
        let name = decode_name_text(platform, &table[start..start + length]);
        if name_id == 16 {
            return Some(name);
        }
        if fallback.is_none() {
            fallback = Some(name);
        }
        index = index + 1;
    }
    fallback
}

} // verus!
