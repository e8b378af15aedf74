//! Root-directory records: the 32-byte entries of the FAT root directory,
//! their attribute bits, packed timestamps and space-padded 8.3 names.
//! Name fields are decoded with the Shift_JIS codepage under an explicit,
//! caller-selected policy for invalid byte sequences.

#![allow(non_snake_case)]

use vstd::prelude::*;
use vstd::slice::{slice_subrange, slice_to_vec};

use crate::{le16, le32, DecodePolicy, FatError};

verus! {

/// The attribute byte of a directory record, one query per flag bit.
pub struct FileAttribute {
    attribute: u8,
}

impl View for FileAttribute {
    type V = u8;

    closed spec fn view(&self) -> u8 {
        self.attribute
    }
}

impl FileAttribute {
    pub fn new(attribute: u8) -> (r: FileAttribute)
        ensures
            r@ == attribute,
    {
        FileAttribute { attribute }
    }

    pub fn isReadOnly(&self) -> (r: bool)
        ensures
            r == (self@ & 0x01 != 0),
    {
        self.attribute & 0x01 != 0x00
    }

    pub fn isHidden(&self) -> (r: bool)
        ensures
            r == (self@ & 0x02 != 0),
    {
        self.attribute & 0x02 != 0x00
    }

    pub fn isSystem(&self) -> (r: bool)
        ensures
            r == (self@ & 0x04 != 0),
    {
        self.attribute & 0x04 != 0x00
    }

    pub fn isVolume(&self) -> (r: bool)
        ensures
            r == (self@ & 0x08 != 0),
    {
        self.attribute & 0x08 != 0x00
    }

    pub fn isDirectory(&self) -> (r: bool)
        ensures
            r == (self@ & 0x10 != 0),
    {
        self.attribute & 0x10 != 0x00
    }

    pub fn isArchive(&self) -> (r: bool)
        ensures
            r == (self@ & 0x20 != 0),
    {
        self.attribute & 0x20 != 0x00
    }
}

/// Hour of a packed time: its top five bits.
pub open spec fn spec_hour(t: u16) -> u16 {
    t >> 11
}

/// Minute of a packed time: bits 10 down to 5.
pub open spec fn spec_minute(t: u16) -> u16 {
    (t >> 5) & 0x3F
}

/// Second of a packed time: its low five bits, counting two seconds each.
pub open spec fn spec_second(t: u16) -> int {
    (t & 0x1F) * 2
}

/// A time of day packed into 16 bits: hour in bits 15..11, minute in bits
/// 10..5, two-second count in bits 4..0.
pub struct Time {
    hhmmss: u16,
}

impl View for Time {
    type V = u16;

    closed spec fn view(&self) -> u16 {
        self.hhmmss
    }
}

impl Time {
    pub fn new(hhmmss: u16) -> (r: Time)
        ensures
            r@ == hhmmss,
    {
        Time { hhmmss }
    }

    pub fn hour(&self) -> (r: u8)
        ensures
            r == spec_hour(self@),
    {
        let t: u16 = self.hhmmss;
        proof {
            assert((((t & 0xF800) >> 11) & 0xFF) == t >> 11 && t >> 11 < 0x100)
                by (bit_vector);
        }
        (((t & 0xF800) >> 11) & 0xFF) as u8
    }

    pub fn minute(&self) -> (r: u8)
        ensures
            r == spec_minute(self@),
    {
        let t: u16 = self.hhmmss;
        proof {
            assert((((t & 0x07E0) >> 5) & 0xFF) == (t >> 5) & 0x3F
                && (t >> 5) & 0x3F < 0x100) by (bit_vector);
        }
        (((t & 0x07E0) >> 5) & 0xFF) as u8
    }

    pub fn second(&self) -> (r: u8)
        ensures
            r == spec_second(self@),
    {
        let t: u16 = self.hhmmss;
        proof {
            assert((t & 0x001F) * 2 < 0x100) by (bit_vector);
        }
        ((t & 0x001F) * 2) as u8
    }
}

/// Year of a packed date: its top seven bits, counted from 1980.
pub open spec fn spec_year(d: u16) -> int {
    (d >> 9) + 1980
}

/// Month of a packed date: bits 8 down to 5.
pub open spec fn spec_month(d: u16) -> u16 {
    (d >> 5) & 0x0F
}

/// Day of a packed date: its low five bits.
pub open spec fn spec_day(d: u16) -> u16 {
    d & 0x1F
}

/// A calendar date packed into 16 bits: years since 1980 in bits 15..9,
/// month in bits 8..5, day in bits 4..0.
pub struct Date {
    yymmdd: u16,
}

impl View for Date {
    type V = u16;

    closed spec fn view(&self) -> u16 {
        self.yymmdd
    }
}

impl Date {
    pub fn new(yymmdd: u16) -> (r: Date)
        ensures
            r@ == yymmdd,
    {
        Date { yymmdd }
    }

    pub fn year(&self) -> (r: u16)
        ensures
            r == spec_year(self@),
    {
        let d: u16 = self.yymmdd;
        proof {
            assert(((d & 0xFE00) >> 9) == d >> 9 && d >> 9 < 0x80) by (bit_vector);
        }
        ((d & 0xFE00) >> 9) + 1980
    }

    pub fn month(&self) -> (r: u8)
        ensures
            r == spec_month(self@),
    {
        let d: u16 = self.yymmdd;
        proof {
            assert((((d & 0x01E0) >> 5) & 0xFF) == (d >> 5) & 0x0F
                && (d >> 5) & 0x0F < 0x100) by (bit_vector);
        }
        (((d & 0x01E0) >> 5) & 0xFF) as u8
    }

    pub fn day(&self) -> (r: u8)
        ensures
            r == spec_day(self@),
    {
        let d: u16 = self.yymmdd;
        proof {
            assert(d & 0x001F < 0x100) by (bit_vector);
        }
        (d & 0x001F) as u8
    }
}

/// Length of the prefix of a name field before its first space byte; the
/// whole length when there is none.
pub open spec fn trim_len(s: Seq<u8>) -> int
    decreases s.len(),
{
    if s.len() == 0 {
        0
    } else if s[0] == 0x20 {
        0
    } else {
        1 + trim_len(s.subrange(1, s.len() as int))
    }
}

/// A name field cut at its first space.
pub open spec fn trimmed(s: Seq<u8>) -> Seq<u8> {
    s.subrange(0, trim_len(s))
}

/// `trim_len` marks the first space: no byte before it is a space, and the
/// byte there, when the field is not exhausted, is one.
pub proof fn lemma_trim_len(s: Seq<u8>)
    ensures
        0 <= trim_len(s) <= s.len(),
        forall|j: int| 0 <= j < trim_len(s) ==> s[j] != 0x20,
        trim_len(s) < s.len() ==> s[trim_len(s)] == 0x20,
    decreases s.len(),
{
    if s.len() == 0 {
    } else if s[0] == 0x20 {
    } else {
        let tail = s.subrange(1, s.len() as int);
        lemma_trim_len(tail);
        assert forall|j: int| 0 <= j < trim_len(s) implies s[j] != 0x20 by {
            if j > 0 {
                assert(tail[j - 1] == s[j]);
            }
        }
        if trim_len(s) < s.len() {
            assert(tail[trim_len(tail)] == s[trim_len(s)]);
        }
    }
}

/// No index but `trim_len` satisfies its first-space characterization.
proof fn lemma_trim_len_unique(s: Seq<u8>, i: int)
    requires
        0 <= i <= s.len(),
        forall|j: int| 0 <= j < i ==> s[j] != 0x20,
        i < s.len() ==> s[i] == 0x20,
    ensures
        i == trim_len(s),
{
    lemma_trim_len(s);
    if i < trim_len(s) {
        assert(s[i] != 0x20);
        assert(false);
    } else if trim_len(s) < i {
        assert(s[trim_len(s)] != 0x20);
        assert(false);
    }
}

/// Index of the first space in a field, or its length when there is none.
fn trim_point(bytes: &[u8]) -> (r: usize)
    ensures
        r == trim_len(bytes@),
{
    let n: usize = bytes.len();
    let mut i: usize = 0;
    while i < n
        invariant
            0 <= i <= n,
            n == bytes@.len(),
            forall|j: int| 0 <= j < i ==> bytes@[j] != 0x20,
        decreases n - i,
    {
        if bytes[i] == 0x20 {
            proof {
                lemma_trim_len_unique(bytes@, i as int);
            }
            return i;
        }
        i = i + 1;
    }
    proof {
        lemma_trim_len_unique(bytes@, i as int);
    }
    i
}

/// What `encoding_rs` yields for a byte field under lossy Shift_JIS
/// decoding: a pure function of the bytes.
pub uninterp spec fn sjis_lossy_of(bytes: Seq<u8>) -> Seq<char>;

/// What `encoding_rs` yields for a byte field under fail-fast Shift_JIS
/// decoding: `None` exactly on a malformed byte sequence.
pub uninterp spec fn sjis_strict_of(bytes: Seq<u8>) -> Option<Seq<char>>;

/// Every byte of the field is ASCII.
pub open spec fn ascii_field(bytes: Seq<u8>) -> bool {
    forall|i: int| 0 <= i < bytes.len() ==> bytes[i] < 0x80
}

/// The characters an ASCII field decodes to: its bytes, one for one.
pub open spec fn ascii_chars(bytes: Seq<u8>) -> Seq<char> {
    bytes.map_values(|b: u8| b as char)
}

/// Relies on `encoding_rs::Encoding::decode` on the `SHIFT_JIS` encoding:
/// the decoded text is a function of the input bytes alone, malformed
/// sequences become U+FFFD, and ASCII-only input is returned unchanged
/// (Shift_JIS is ASCII-compatible).
#[verifier::external_body]
fn sjis_decode_lossy(bytes: &[u8]) -> (r: String)
    requires
        bytes@.len() <= 32,
    ensures
        r@ == sjis_lossy_of(bytes@),
        ascii_field(bytes@) ==> r@ == ascii_chars(bytes@),
{
    let (text, _encoding, _had_errors) = encoding_rs::SHIFT_JIS.decode(bytes);
    text.into_owned()
}

/// Relies on
/// `encoding_rs::Encoding::decode_without_bom_handling_and_without_replacement`
/// on the `SHIFT_JIS` encoding: `None` exactly on input with a malformed
/// sequence, otherwise the decoded text, a function of the input bytes
/// alone; ASCII-only input is returned unchanged.
#[verifier::external_body]
fn sjis_decode_strict(bytes: &[u8]) -> (r: Option<String>)
    requires
        bytes@.len() <= 32,
    ensures
        match r {
            Some(text) => sjis_strict_of(bytes@) == Some(text@),
            None => sjis_strict_of(bytes@) is None,
        },
        ascii_field(bytes@) ==> match r {
            Some(text) => text@ == ascii_chars(bytes@),
            None => false,
        },
{
    match encoding_rs::SHIFT_JIS.decode_without_bom_handling_and_without_replacement(bytes) {
        Some(text) => Some(text.into_owned()),
        None => None,
    }
}

/// The name field of a record: its first eight bytes, cut at the first
/// space.
pub open spec fn name_field(record: Seq<u8>) -> Seq<u8> {
    trimmed(record.subrange(0, 8))
}

/// The extension field of a record: bytes 8 to 10, cut at the first space.
pub open spec fn extension_field(record: Seq<u8>) -> Seq<u8> {
    trimmed(record.subrange(8, 11))
}

/// What decoding a trimmed field must return under a policy: lossy
/// decoding always succeeds; fail-fast decoding reports `DecodeError`
/// exactly on a malformed byte sequence.
pub open spec fn spec_decoded(
    field: Seq<u8>,
    policy: DecodePolicy,
    r: Result<String, FatError>,
) -> bool {
    match policy {
        DecodePolicy::Lossy => match r {
            Ok(text) => text@ == sjis_lossy_of(field),
            Err(_) => false,
        },
        DecodePolicy::Strict => match r {
            Ok(text) => sjis_strict_of(field) == Some(text@),
            Err(e) => sjis_strict_of(field) is None && e == FatError::DecodeError,
        },
    }
}

/// One 32-byte root-directory record. The raw bytes are kept; the
/// attribute, timestamps and the two flags are cached at construction and
/// tied to the bytes by `wf`.
pub struct DirectoryEntry {
    /// The raw 32 bytes of the record.
    pub bytes: Vec<u8>,
    pub file_attribute: FileAttribute,
    pub created_time: Time,
    pub created_date: Date,
    pub updated_time: Time,
    pub updated_date: Date,
    /// The Directory attribute bit (0x10) of the record.
    pub directory: bool,
    /// The record is a deleted entry: its first byte is 0xE5.
    pub deleted: bool,
}

impl View for DirectoryEntry {
    type V = Seq<u8>;

    closed spec fn view(&self) -> Seq<u8> {
        self.bytes@
    }
}

impl DirectoryEntry {
    /// The record holds 32 bytes and its cached fields agree with them.
    pub open spec fn wf(&self) -> bool {
        &&& self@.len() == 32
        &&& self.file_attribute@ == self@[0x0B]
        &&& self.created_time@ as int == le16(self@, 0x0E)
        &&& self.created_date@ as int == le16(self@, 0x10)
        &&& self.updated_time@ as int == le16(self@, 0x16)
        &&& self.updated_date@ as int == le16(self@, 0x18)
        &&& self.directory == (self@[0x0B] & 0x10 != 0)
        &&& self.deleted == (self@[0] == 0xE5)
    }

    /// Cuts record `entry` out of a directory region and caches its fields.
    fn new_inner(raw: &Vec<u8>, entry: usize) -> (r: DirectoryEntry)
        requires
            32 * entry + 32 <= raw@.len(),
        ensures
            r.wf(),
            r@ == raw@.subrange(32 * entry, 32 * entry + 32),
    {
        // binding the length as a usize lets the index arithmetic below
        // stay inside machine bounds
        let _total: usize = raw.len();
        let start: usize = entry * 32;
        let bytes: Vec<u8> = slice_to_vec(slice_subrange(raw.as_slice(), start, start + 32));
        let file_attribute = FileAttribute::new(bytes[0x0B]);
        let created_time = Time::new((bytes[0x0E] as u16) + (bytes[0x0F] as u16) * 0x100);
        let created_date = Date::new((bytes[0x10] as u16) + (bytes[0x11] as u16) * 0x100);
        let updated_time = Time::new((bytes[0x16] as u16) + (bytes[0x17] as u16) * 0x100);
        let updated_date = Date::new((bytes[0x18] as u16) + (bytes[0x19] as u16) * 0x100);
        let directory = file_attribute.isDirectory();
        let deleted = bytes[0] == 0xE5;
        DirectoryEntry {
            bytes,
            file_attribute,
            created_time,
            created_date,
            updated_time,
            updated_date,
            directory,
            deleted,
        }
    }

    /// Decodes a directory region into its records, in order, stopping at
    /// (and excluding) the first record whose first byte is zero, the
    /// end-of-directory sentinel. A record whose first byte is 0xE5 is a
    /// deleted entry: it is yielded with `deleted` set and decoding
    /// continues past it. A partial trailing record is ignored.
    pub fn new(raw: &Vec<u8>) -> (r: Vec<DirectoryEntry>)
        ensures
            r@.len() <= raw@.len() as int / 32,
            forall|i: int| 0 <= i < r@.len() ==> (#[trigger] r@[i]).wf(),
            forall|i: int|
                0 <= i < r@.len() ==> (#[trigger] r@[i])@ == raw@.subrange(32 * i, 32 * i + 32),
            forall|i: int| 0 <= i < r@.len() ==> #[trigger] raw@[32 * i] != 0,
            r@.len() < raw@.len() as int / 32 ==> raw@[32 * r@.len() as int] == 0,
            forall|i: int|
                0 <= i < r@.len() ==> ((#[trigger] r@[i]).deleted <==> raw@[32 * i] == 0xE5),
            forall|i: int|
                0 <= i < r@.len() ==> ((#[trigger] r@[i]).directory <==> raw@[32 * i + 0x0B]
                    & 0x10 != 0),
    {
        let n: usize = raw.len();
        let entries: usize = n / 32;
        let mut dirs: Vec<DirectoryEntry> = Vec::with_capacity(entries);
        let mut entry: usize = 0;
        while entry < entries
            invariant
                0 <= entry <= entries,
                n == raw@.len(),
                entries == n as int / 32,
                dirs@.len() == entry,
                forall|i: int| 0 <= i < entry ==> (#[trigger] dirs@[i]).wf(),
                forall|i: int|
                    0 <= i < entry ==> (#[trigger] dirs@[i])@ == raw@.subrange(
                        32 * i,
                        32 * i + 32,
                    ),
                forall|i: int| 0 <= i < entry ==> #[trigger] raw@[32 * i] != 0,
            decreases entries - entry,
        {
            proof {
                assert(32 * entry + 32 <= n) by (nonlinear_arith)
                    requires
                        entry < entries,
                        entries == n as int / 32,
                ;
            }
            // A record whose first byte is zero ends the directory.
            if raw[entry * 32] == 0 {
                return dirs;
            }
            dirs.push(DirectoryEntry::new_inner(raw, entry));
            entry = entry + 1;
        }
        dirs
    }

    /// The name field: the first eight bytes, cut at the first space and
    /// decoded as Shift_JIS under the chosen policy. ASCII-only names
    /// decode to their own characters.
    pub fn filename(&self, policy: DecodePolicy) -> (r: Result<String, FatError>)
        requires
            self.wf(),
        ensures
            spec_decoded(name_field(self@), policy, r),
            ascii_field(name_field(self@)) ==> match r {
                Ok(text) => text@ == ascii_chars(name_field(self@)),
                Err(_) => false,
            },
    {
        let field: &[u8] = slice_subrange(self.bytes.as_slice(), 0, 8);
        let cut: usize = trim_point(field);
        proof {
            lemma_trim_len(field@);
        }
        let name: &[u8] = slice_subrange(field, 0, cut);
        proof {
            assert(name@ == name_field(self@));
        }
        Self::decode_field(name, policy)
    }

    /// The extension field: bytes 8 to 10, cut at the first space and
    /// decoded as Shift_JIS under the chosen policy. ASCII-only extensions
    /// decode to their own characters.
    pub fn extension(&self, policy: DecodePolicy) -> (r: Result<String, FatError>)
        requires
            self.wf(),
        ensures
            spec_decoded(extension_field(self@), policy, r),
            ascii_field(extension_field(self@)) ==> match r {
                Ok(text) => text@ == ascii_chars(extension_field(self@)),
                Err(_) => false,
            },
    {
        let field: &[u8] = slice_subrange(self.bytes.as_slice(), 8, 11);
        let cut: usize = trim_point(field);
        proof {
            lemma_trim_len(field@);
        }
        let ext: &[u8] = slice_subrange(field, 0, cut);
        proof {
            assert(ext@ == extension_field(self@));
        }
        Self::decode_field(ext, policy)
    }

    /// Decodes one trimmed field under the chosen policy.
    fn decode_field(field: &[u8], policy: DecodePolicy) -> (r: Result<String, FatError>)
        requires
            field@.len() <= 32,
        ensures
            spec_decoded(field@, policy, r),
            ascii_field(field@) ==> match r {
                Ok(text) => text@ == ascii_chars(field@),
                Err(_) => false,
            },
    {
        match policy {
            DecodePolicy::Lossy => Ok(sjis_decode_lossy(field)),
            DecodePolicy::Strict => match sjis_decode_strict(field) {
                Some(text) => Ok(text),
                None => Err(FatError::DecodeError),
            },
        }
    }

    pub fn file_attribute(&self) -> (r: &FileAttribute)
        requires
            self.wf(),
        ensures
            r@ == self@[0x0B],
    {
        &self.file_attribute
    }

    pub fn created_time(&self) -> (r: &Time)
        requires
            self.wf(),
        ensures
            r@ as int == le16(self@, 0x0E),
    {
        &self.created_time
    }

    pub fn created_date(&self) -> (r: &Date)
        requires
            self.wf(),
        ensures
            r@ as int == le16(self@, 0x10),
    {
        &self.created_date
    }

    pub fn updated_time(&self) -> (r: &Time)
        requires
            self.wf(),
        ensures
            r@ as int == le16(self@, 0x16),
    {
        &self.updated_time
    }

    pub fn updated_date(&self) -> (r: &Date)
        requires
            self.wf(),
        ensures
            r@ as int == le16(self@, 0x18),
    {
        &self.updated_date
    }

    /// The raw 32-bit file size field; no cluster chain is consulted.
    pub fn filesize(&self) -> (r: u32)
        requires
            self.wf(),
        ensures
            r == le32(self@, 0x1C),
    {
        (self.bytes[0x1C] as u32) + (self.bytes[0x1D] as u32) * 0x100
            + (self.bytes[0x1E] as u32) * 0x10000 + (self.bytes[0x1F] as u32) * 0x1000000
    }
}

} // verus!
