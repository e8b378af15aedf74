use fat_image_reader::dir::{Date, DirectoryEntry, FileAttribute, Time};
use fat_image_reader::{DecodePolicy, FatError};

/// One 32-byte record with the given 8-byte name, 3-byte extension,
/// attribute byte and file size; timestamps left zero.
fn record(name: &[u8; 8], ext: &[u8; 3], attr: u8, size: u32) -> Vec<u8> {
    let mut r = vec![0u8; 32];
    r[..8].copy_from_slice(name);
    r[8..11].copy_from_slice(ext);
    r[0x0B] = attr;
    r[0x1C..0x20].copy_from_slice(&size.to_le_bytes());
    r
}

#[test]
fn time_decode() {
    let t = Time::new(0x645C);
    assert_eq!(t.hour(), 12);
    assert_eq!(t.minute(), 34);
    assert_eq!(t.second(), 56);
}

#[test]
fn date_decode() {
    let d = Date::new(0x3281);
    assert_eq!(d.year(), 2005);
    assert_eq!(d.month(), 4);
    assert_eq!(d.day(), 1);
}

#[test]
fn attribute_bits() {
    let a = FileAttribute::new(0x15);
    assert!(a.isReadOnly());
    assert!(!a.isHidden());
    assert!(a.isSystem());
    assert!(!a.isVolume());
    assert!(a.isDirectory());
    assert!(!a.isArchive());
    let b = FileAttribute::new(0x2A);
    assert!(!b.isReadOnly());
    assert!(b.isHidden());
    assert!(!b.isSystem());
    assert!(b.isVolume());
    assert!(!b.isDirectory());
    assert!(b.isArchive());
}

#[test]
fn decode_stops_at_zero_sentinel() {
    let mut region = Vec::new();
    region.extend_from_slice(&record(b"ALPHA   ", b"TXT", 0x20, 10));
    region.extend_from_slice(&record(b"BETA    ", b"BIN", 0x20, 20));
    region.extend_from_slice(&record(b"GAMMA   ", b"LOG", 0x20, 30));
    region.extend_from_slice(&[0u8; 32]); // end-of-directory sentinel
    region.extend_from_slice(&record(b"IGNORED ", b"TXT", 0x20, 40));
    let entries = DirectoryEntry::new(&region);
    assert_eq!(entries.len(), 3);
    assert_eq!(entries[0].filename(DecodePolicy::Strict).unwrap(), "ALPHA");
    assert_eq!(entries[1].filename(DecodePolicy::Strict).unwrap(), "BETA");
    assert_eq!(entries[2].filename(DecodePolicy::Strict).unwrap(), "GAMMA");
}

#[test]
fn deleted_entry_is_yielded_and_decoding_continues() {
    let mut second = record(b"DELETED ", b"TMP", 0x20, 0);
    second[0] = 0xE5;
    let mut region = Vec::new();
    region.extend_from_slice(&record(b"FIRST   ", b"TXT", 0x20, 1));
    region.extend_from_slice(&second);
    region.extend_from_slice(&record(b"THIRD   ", b"TXT", 0x20, 3));
    let entries = DirectoryEntry::new(&region);
    assert_eq!(entries.len(), 3);
    assert!(!entries[0].deleted);
    assert!(entries[1].deleted);
    assert!(!entries[2].deleted);
    assert_eq!(entries.iter().filter(|e| e.deleted).count(), 1);
}

#[test]
fn directory_flag_uses_attribute_bit() {
    let mut region = Vec::new();
    // a directory whose size field is nonzero, and a zero-size plain file
    region.extend_from_slice(&record(b"SUBDIR  ", b"   ", 0x10, 123));
    region.extend_from_slice(&record(b"EMPTY   ", b"TXT", 0x20, 0));
    let entries = DirectoryEntry::new(&region);
    assert!(entries[0].directory);
    assert!(!entries[1].directory);
}

#[test]
fn names_are_trimmed_at_first_space() {
    let region = record(b"AB CDEFG", b"T X", 0x20, 0);
    let entries = DirectoryEntry::new(&region);
    assert_eq!(entries[0].filename(DecodePolicy::Strict).unwrap(), "AB");
    assert_eq!(entries[0].extension(DecodePolicy::Strict).unwrap(), "T");
}

#[test]
fn full_width_name_keeps_all_eight_bytes() {
    let region = record(b"ABCDEFGH", b"TXT", 0x20, 0);
    let entries = DirectoryEntry::new(&region);
    assert_eq!(entries[0].filename(DecodePolicy::Strict).unwrap(), "ABCDEFGH");
    assert_eq!(entries[0].extension(DecodePolicy::Strict).unwrap(), "TXT");
}

#[test]
fn strict_decoding_fails_fast_on_malformed_sequence() {
    // 0x82 is a Shift_JIS lead byte with nothing following it
    let region = record(&[0x41, 0x82, 0x20, 0x20, 0x20, 0x20, 0x20, 0x20], b"TXT", 0x20, 0);
    let entries = DirectoryEntry::new(&region);
    assert_eq!(
        entries[0].filename(DecodePolicy::Strict),
        Err(FatError::DecodeError)
    );
}

#[test]
fn lossy_decoding_replaces_malformed_sequence() {
    let region = record(&[0x41, 0x82, 0x20, 0x20, 0x20, 0x20, 0x20, 0x20], b"TXT", 0x20, 0);
    let entries = DirectoryEntry::new(&region);
    assert_eq!(
        entries[0].filename(DecodePolicy::Lossy).unwrap(),
        "A\u{FFFD}"
    );
}

#[test]
fn shift_jis_name_decodes_beyond_ascii() {
    // half-width katakana: 0xB1 is one byte in Shift_JIS, U+FF71 decoded
    let region = record(&[0xB1, 0xB2, 0x20, 0x20, 0x20, 0x20, 0x20, 0x20], b"TXT", 0x20, 0);
    let entries = DirectoryEntry::new(&region);
    assert_eq!(
        entries[0].filename(DecodePolicy::Strict).unwrap(),
        "\u{FF71}\u{FF72}"
    );
    assert_eq!(
        entries[0].filename(DecodePolicy::Lossy).unwrap(),
        "\u{FF71}\u{FF72}"
    );
}

#[test]
fn timestamps_and_size_come_from_their_offsets() {
    let mut raw = record(b"NOTES   ", b"TXT", 0x20, 0x11223344);
    raw[0x0E] = 0x5C; // created time 0x645C
    raw[0x0F] = 0x64;
    raw[0x10] = 0x81; // created date 0x3281
    raw[0x11] = 0x32;
    raw[0x16] = 0x21; // updated time 0x9B21
    raw[0x17] = 0x9B;
    raw[0x18] = 0x22; // updated date 0x2E22
    raw[0x19] = 0x2E;
    let entries = DirectoryEntry::new(&raw);
    let e = &entries[0];
    assert_eq!(e.created_time().hour(), 12);
    assert_eq!(e.created_time().minute(), 34);
    assert_eq!(e.created_time().second(), 56);
    assert_eq!(e.created_date().year(), 2005);
    assert_eq!(e.created_date().month(), 4);
    assert_eq!(e.created_date().day(), 1);
    assert_eq!(e.updated_time().hour(), 19);
    assert_eq!(e.updated_date().year(), 2003);
    assert_eq!(e.filesize(), 0x11223344);
    assert!(e.file_attribute().isArchive());
}

#[test]
fn partial_trailing_record_is_ignored() {
    let mut region = record(b"WHOLE   ", b"TXT", 0x20, 0);
    region.extend_from_slice(&[0x41u8; 7]); // seven stray bytes
    let entries = DirectoryEntry::new(&region);
    assert_eq!(entries.len(), 1);
}

#[test]
fn empty_region_decodes_to_nothing() {
    let entries = DirectoryEntry::new(&Vec::new());
    assert!(entries.is_empty());
}
