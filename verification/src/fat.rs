//! Region geometry derived from the boot sector: where the FAT area, the
//! root directory area and the data area sit, and which FAT variant the
//! cluster count implies. All arithmetic is integer-only and guarded, so
//! malformed headers yield `InvalidGeometry` instead of a panic.

use vstd::prelude::*;

use crate::bootsector::{spec_sectors_per_fat, spec_total_sectors, FirstSector};
use crate::{le16, FatError};

verus! {

/// The FAT variant, determined by the cluster count alone.
#[derive(Clone, Copy, Debug, PartialEq, Eq, Structural)]
pub enum FatType {
    FAT12,
    FAT16,
    FAT32,
}

/// The placement of the FAT, root-directory and data areas, in sectors,
/// together with the FAT variant and the byte size of one sector.
#[derive(Clone, Copy, Debug, PartialEq, Eq, Structural)]
pub struct Region {
    pub fat_start_sector: u32,
    pub fat_sector_size: u32,

    pub root_dir_start_sector: u32,
    pub root_dir_sector_size: u32,

    pub data_start_sector: u32,
    pub data_sector_size: u32,

    pub fat_type: FatType,

    pub sector_size: u32,
}

/// The variant implied by a cluster count: at most 4085 clusters is FAT12,
/// at most 65525 is FAT16, anything larger is FAT32.
pub open spec fn spec_fat_type(cluster_count: int) -> FatType {
    if cluster_count <= 4085 {
        FatType::FAT12
    } else if cluster_count <= 65525 {
        FatType::FAT16
    } else {
        FatType::FAT32
    }
}

/// First sector of the FAT area: right after the reserved sectors.
pub open spec fn spec_fat_start(s: Seq<u8>) -> int {
    le16(s, 0x0E)
}

/// Sectors taken by all copies of the FAT.
pub open spec fn spec_fat_size(s: Seq<u8>) -> int {
    spec_sectors_per_fat(s) * (s[0x10] as int)
}

/// First sector of the root directory area.
pub open spec fn spec_root_dir_start(s: Seq<u8>) -> int {
    spec_fat_start(s) + spec_fat_size(s)
}

/// Sectors taken by the root directory area: 32 bytes per entry, rounded
/// up to whole sectors. Meaningful only when `bytes_per_sector` is nonzero.
pub open spec fn spec_root_dir_size(s: Seq<u8>) -> int {
    (32 * le16(s, 0x11) + le16(s, 0x0B) - 1) / le16(s, 0x0B)
}

/// First sector of the data area.
pub open spec fn spec_data_start(s: Seq<u8>) -> int {
    spec_root_dir_start(s) + spec_root_dir_size(s)
}

/// Sectors left for the data area.
pub open spec fn spec_data_size(s: Seq<u8>) -> int {
    spec_total_sectors(s) - spec_data_start(s)
}

/// Clusters in the data area. Meaningful only when `sectors_per_cluster`
/// is nonzero.
pub open spec fn spec_cluster_count(s: Seq<u8>) -> int {
    spec_data_size(s) / (s[0x0D] as int)
}

/// A header's geometry fields are well formed: the two divisors are
/// nonzero, every derived sector count fits in 32 bits, and the data area
/// is not negative.
pub open spec fn geometry_ok(s: Seq<u8>) -> bool {
    &&& le16(s, 0x0B) > 0
    &&& s[0x0D] > 0
    &&& spec_fat_size(s) <= u32::MAX
    &&& spec_data_start(s) <= u32::MAX
    &&& spec_data_size(s) >= 0
}

/// Round-trip geometry law: in a region derived from a header, the root
/// directory area starts `reserved_sectors` plus `sectors_per_fat` times
/// `fat_count` sectors into the image, so scaling `root_dir_start_sector`
/// by the sector size addresses the first byte of the root directory area
/// exactly as the header laid it out.
pub proof fn lemma_root_dir_placement(s: Seq<u8>, region: Region)
    requires
        geometry_ok(s),
        region.root_dir_start_sector == spec_root_dir_start(s),
        region.sector_size == le16(s, 0x0B),
    ensures
        region.root_dir_start_sector * region.sector_size == (le16(s, 0x0E)
            + spec_sectors_per_fat(s) * (s[0x10] as int)) * le16(s, 0x0B),
{
    assert(spec_root_dir_start(s) == le16(s, 0x0E) + spec_sectors_per_fat(s) * (s[0x10] as int));
}

/// Classifies a data area of `data_sector_size` sectors, in clusters of
/// `sectors_per_cluster` sectors, as FAT12, FAT16 or FAT32.
pub fn fat_type(data_sector_size: u32, sectors_per_cluster: u32) -> (r: FatType)
    requires
        sectors_per_cluster > 0,
    ensures
        r == spec_fat_type(data_sector_size as int / sectors_per_cluster as int),
{
    let count_of_clusters: u32 = data_sector_size / sectors_per_cluster;
    if count_of_clusters <= 4085 {
        FatType::FAT12
    } else if count_of_clusters <= 65525 {
        FatType::FAT16
    } else {
        FatType::FAT32
    }
}

impl Region {
    /// Derives the region layout from a boot sector. Returns
    /// `InvalidGeometry` exactly when the header's fields are malformed:
    /// a zero `bytes_per_sector` or `sectors_per_cluster`, a FAT area or
    /// data-area start that does not fit in 32 bits, or a total sector
    /// count smaller than the start of the data area.
    pub fn new(sector: &FirstSector) -> (r: Result<Region, FatError>)
        requires
            sector.wf(),
        ensures
            match r {
                Ok(region) => {
                    &&& geometry_ok(sector@)
                    &&& region.fat_start_sector == spec_fat_start(sector@)
                    &&& region.fat_sector_size == spec_fat_size(sector@)
                    &&& region.root_dir_start_sector == spec_root_dir_start(sector@)
                    &&& region.root_dir_sector_size == spec_root_dir_size(sector@)
                    &&& region.data_start_sector == spec_data_start(sector@)
                    &&& region.data_sector_size == spec_data_size(sector@)
                    &&& region.fat_type == spec_fat_type(spec_cluster_count(sector@))
                    &&& region.sector_size == le16(sector@, 0x0B)
                },
                Err(e) => {
                    &&& !geometry_ok(sector@)
                    &&& e == FatError::InvalidGeometry
                },
            },
    {
        let sector_size: u32 = sector.bytes_per_sector();
        let sectors_per_cluster: u32 = sector.sectors_per_cluster();
        if sector_size == 0 || sectors_per_cluster == 0 {
            return Err(FatError::InvalidGeometry);
        }

        let fat_start_sector: u32 = sector.reserved_sectors();
        let sectors_per_fat: u32 = sector.sectors_per_fats();
        let num_of_fats: u32 = sector.num_of_fats();
        proof {
            assert(sectors_per_fat as int * num_of_fats as int <= 0xFF_FFFF_FF01)
                by (nonlinear_arith)
                requires
                    sectors_per_fat <= 0xFFFF_FFFF,
                    num_of_fats <= 0xFF,
            ;
        }
        let fat_size64: u64 = (sectors_per_fat as u64) * (num_of_fats as u64);

        let root_dir_start64: u64 = (fat_start_sector as u64) + fat_size64;
        let num_root_entries: u32 = sector.num_of_root_directory_entries();
        let root_dir_sector_size: u32 = (32 * num_root_entries + sector_size - 1) / sector_size;
        let data_start64: u64 = root_dir_start64 + (root_dir_sector_size as u64);
        let total_sectors: u32 = sector.total_sectors();

        if fat_size64 > (u32::MAX as u64) || data_start64 > (u32::MAX as u64)
            || (total_sectors as u64) < data_start64 {
            return Err(FatError::InvalidGeometry);
        }

        let data_sector_size: u32 = total_sectors - (data_start64 as u32);
        let fat_type: FatType = fat_type(data_sector_size, sectors_per_cluster);

        Ok(Region {
            fat_start_sector,
            fat_sector_size: fat_size64 as u32,
            root_dir_start_sector: root_dir_start64 as u32,
            root_dir_sector_size,
            data_start_sector: data_start64 as u32,
            data_sector_size,
            fat_type,
            sector_size,
        })
    }
}

} // verus!

