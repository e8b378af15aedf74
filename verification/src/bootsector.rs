//! The boot sector: the first 512 bytes of a FAT volume, read through
//! fixed-offset accessors. Nothing is materialized at construction; every
//! accessor recomputes its little-endian field from the backing bytes.

use vstd::prelude::*;
use vstd::slice::slice_subrange;

use crate::{le16, le32, FatError};

verus! {

/// Relies on core::str::from_utf8: ASCII bytes are valid UTF-8 and decode
/// to the characters with the same values.
#[verifier::external_body]
fn ascii_str<'a>(bytes: &'a [u8]) -> (r: &'a str)
    requires
        forall|i: int| 0 <= i < bytes@.len() ==> bytes@[i] < 0x80,
    ensures
        r@.len() == bytes@.len(),
        forall|i: int| 0 <= i < bytes@.len() ==> r@[i] == bytes@[i] as char,
{
    core::str::from_utf8(bytes).unwrap_or("")
}

/// A view over the first sector of an image. The backing buffer holds at
/// least the 512 header bytes; accessors read fixed offsets inside them.
pub struct FirstSector {
    image: Vec<u8>,
}

impl View for FirstSector {
    type V = Seq<u8>;

    closed spec fn view(&self) -> Seq<u8> {
        self.image@
    }
}

/// The 16-bit total-sector field at 0x13, or, when it is zero, the 32-bit
/// field at 0x20.
pub open spec fn spec_total_sectors(s: Seq<u8>) -> int {
    if le16(s, 0x13) != 0 {
        le16(s, 0x13)
    } else {
        le32(s, 0x20)
    }
}

/// The 16-bit sectors-per-FAT field at 0x16, or, when it is zero, the
/// 32-bit field at 0x24.
pub open spec fn spec_sectors_per_fat(s: Seq<u8>) -> int {
    if le16(s, 0x16) != 0 {
        le16(s, 0x16)
    } else {
        le32(s, 0x24)
    }
}

impl FirstSector {
    /// The backing buffer holds a complete 512-byte header.
    pub open spec fn wf(&self) -> bool {
        self@.len() >= 512
    }

    /// Wraps an in-memory image. Fails with `TruncatedImage` when fewer
    /// than 512 bytes are available.
    pub fn new(image: Vec<u8>) -> (r: Result<FirstSector, FatError>)
        ensures
            match r {
                Ok(sector) => image@.len() >= 512 && sector@ == image@ && sector.wf(),
                Err(e) => image@.len() < 512 && e == FatError::TruncatedImage,
            },
    {
        if image.len() < 512 {
            Err(FatError::TruncatedImage)
        } else {
            Ok(FirstSector { image })
        }
    }

    /// The six OEM-name bytes at offset 3, as a string. The field is
    /// documented as ASCII; a byte outside ASCII is a `DecodeError`.
    pub fn oem_name(&self) -> (r: Result<String, FatError>)
        requires
            self.wf(),
        ensures
            match r {
                Ok(name) => {
                    &&& forall|j: int| 3 <= j < 9 ==> #[trigger] self@[j] < 0x80
                    &&& name@.len() == 6
                    &&& forall|i: int| 0 <= i < 6 ==> #[trigger] name@[i] == self@[3 + i] as char
                },
                Err(e) => {
                    &&& exists|j: int| 3 <= j < 9 && #[trigger] self@[j] >= 0x80
                    &&& e == FatError::DecodeError
                },
            },
    {
        let mut i: usize = 3;
        while i < 9
            invariant
                3 <= i <= 9,
                self.wf(),
                forall|j: int| 3 <= j < i ==> self@[j] < 0x80,
            decreases 9 - i,
        {
            if self.image[i] >= 0x80 {
                return Err(FatError::DecodeError);
            }
            i = i + 1;
        }
        let mem: &[u8] = slice_subrange(self.image.as_slice(), 3, 9);
        let name: String = ascii_str(mem).to_owned();
        proof {
            assert(forall|k: int| 0 <= k < 6 ==> mem@[k] == self@[3 + k]);
        }
        Ok(name)
    }

    pub fn bytes_per_sector(&self) -> (r: u32)
        requires
            self.wf(),
        ensures
            r == le16(self@, 0x0B),
    {
        (self.image[0x0B] as u32) + (self.image[0x0C] as u32) * 0x100
    }

    pub fn sectors_per_cluster(&self) -> (r: u32)
        requires
            self.wf(),
        ensures
            r == self@[0x0D],
    {
        self.image[0x0D] as u32
    }

    pub fn reserved_sectors(&self) -> (r: u32)
        requires
            self.wf(),
        ensures
            r == le16(self@, 0x0E),
    {
        (self.image[0x0E] as u32) + (self.image[0x0F] as u32) * 0x100
    }

    pub fn num_of_fats(&self) -> (r: u32)
        requires
            self.wf(),
        ensures
            r == self@[0x10],
    {
        // almost always 2
        self.image[0x10] as u32
    }

    pub fn num_of_root_directory_entries(&self) -> (r: u32)
        requires
            self.wf(),
        ensures
            r == le16(self@, 0x11),
    {
        (self.image[0x11] as u32) + (self.image[0x12] as u32) * 0x100
    }

    pub fn total_sectors(&self) -> (r: u32)
        requires
            self.wf(),
        ensures
            r == spec_total_sectors(self@),
    {
        let field16: u32 = (self.image[0x13] as u32) + (self.image[0x14] as u32) * 0x100;
        if field16 != 0 {
            field16
        } else {
            (self.image[0x20] as u32) + (self.image[0x21] as u32) * 0x100
                + (self.image[0x22] as u32) * 0x10000 + (self.image[0x23] as u32) * 0x1000000
        }
    }

    pub fn media_descriptor(&self) -> (r: u32)
        requires
            self.wf(),
        ensures
            r == self@[0x15],
    {
        self.image[0x15] as u32
    }

    pub fn sectors_per_fats(&self) -> (r: u32)
        requires
            self.wf(),
        ensures
            r == spec_sectors_per_fat(self@),
    {
        let field16: u32 = (self.image[0x16] as u32) + (self.image[0x17] as u32) * 0x100;
        if field16 != 0 {
            field16
        } else {
            (self.image[0x24] as u32) + (self.image[0x25] as u32) * 0x100
                + (self.image[0x26] as u32) * 0x10000 + (self.image[0x27] as u32) * 0x1000000
        }
    }

    /// The reserved area: the bytes of the first `reserved_sectors` sectors,
    /// as the half-open range from offset 0. Fails with `TruncatedImage`
    /// when the backing buffer is shorter than that range.
    pub fn slice_reserved_sectors(&self) -> (r: Result<&[u8], FatError>)
        requires
            self.wf(),
        ensures
            match r {
                Ok(s) => {
                    &&& le16(self@, 0x0B) * le16(self@, 0x0E) <= self@.len()
                    &&& s@ == self@.subrange(0, le16(self@, 0x0B) * le16(self@, 0x0E))
                },
                Err(e) => {
                    &&& le16(self@, 0x0B) * le16(self@, 0x0E) > self@.len()
                    &&& e == FatError::TruncatedImage
                },
            },
    {
        let sector_size: usize = self.bytes_per_sector() as usize;
        let reserved_sector_count: usize = self.reserved_sectors() as usize;
        proof {
            assert(sector_size * reserved_sector_count <= 0xFFFE0001) by (nonlinear_arith)
                requires
                    sector_size <= 0xFFFF,
                    reserved_sector_count <= 0xFFFF,
            ;
        }
        let end: usize = sector_size * reserved_sector_count;
        if end > self.image.len() {
            Err(FatError::TruncatedImage)
        } else {
            Ok(slice_subrange(self.image.as_slice(), 0, end))
        }
    }

    /// The byte size of the reserved area: `bytes_per_sector * reserved_sectors`.
    pub fn reserved_sector_size(&self) -> (r: u32)
        requires
            self.wf(),
        ensures
            r == le16(self@, 0x0B) * le16(self@, 0x0E),
    {
        proof {
            assert(le16(self@, 0x0B) * le16(self@, 0x0E) <= 0xFFFE0001) by (nonlinear_arith)
                requires
                    0 <= le16(self@, 0x0B) <= 0xFFFF,
                    0 <= le16(self@, 0x0E) <= 0xFFFF,
            ;
        }
        self.bytes_per_sector() * self.reserved_sectors()
    }
}

} // verus!
