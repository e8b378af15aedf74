use fat_image_reader::bootsector::FirstSector;
use fat_image_reader::fat::{fat_type, FatType, Region};
use fat_image_reader::FatError;

/// A synthetic 512-byte FAT12 header: 512-byte sectors, 4 sectors per
/// cluster, 2 reserved sectors, 2 FATs of 9 sectors, 224 root entries,
/// 2880 total sectors.
fn header() -> Vec<u8> {
    let mut h = vec![0u8; 512];
    h[0x0B] = 0x00;
    h[0x0C] = 0x02;
    h[0x0D] = 4;
    h[0x0E] = 2;
    h[0x10] = 2;
    h[0x11] = 0xE0;
    h[0x13] = 0x40;
    h[0x14] = 0x0B;
    h[0x16] = 9;
    h
}

#[test]
fn fat_type_thresholds_are_exact() {
    assert_eq!(fat_type(1, 1), FatType::FAT12);
    assert_eq!(fat_type(4085, 1), FatType::FAT12);
    assert_eq!(fat_type(4086, 1), FatType::FAT16);
    assert_eq!(fat_type(65525, 1), FatType::FAT16);
    assert_eq!(fat_type(65526, 1), FatType::FAT32);
}

#[test]
fn region_layout_from_synthetic_header() {
    let fs = FirstSector::new(header()).unwrap();
    let region = Region::new(&fs).unwrap();
    assert_eq!(region.fat_start_sector, 2);
    assert_eq!(region.fat_sector_size, 18); // 9 sectors per FAT, 2 FATs
    assert_eq!(region.root_dir_start_sector, 20);
    assert_eq!(region.root_dir_sector_size, 14); // ceil(224 * 32 / 512)
    assert_eq!(region.data_start_sector, 34);
    assert_eq!(region.data_sector_size, 2880 - 34);
    assert_eq!(region.fat_type, FatType::FAT12); // 2846 / 4 = 711 clusters
    assert_eq!(region.sector_size, 512);
}

#[test]
fn root_dir_byte_offset_round_trips() {
    // The root directory area was laid out right after the reserved
    // sectors and the two FATs: its first byte sits at that many sectors.
    let fs = FirstSector::new(header()).unwrap();
    let region = Region::new(&fs).unwrap();
    let expected_offset = (2 + 9 * 2) * 512;
    assert_eq!(region.root_dir_start_sector * region.sector_size, expected_offset);
}

#[test]
fn zero_sectors_per_cluster_is_invalid_geometry() {
    let mut h = header();
    h[0x0D] = 0;
    let fs = FirstSector::new(h).unwrap();
    assert_eq!(Region::new(&fs), Err(FatError::InvalidGeometry));
}

#[test]
fn zero_bytes_per_sector_is_invalid_geometry() {
    let mut h = header();
    h[0x0B] = 0;
    h[0x0C] = 0;
    let fs = FirstSector::new(h).unwrap();
    assert_eq!(Region::new(&fs), Err(FatError::InvalidGeometry));
}

#[test]
fn data_area_before_total_sectors_is_invalid_geometry() {
    let mut h = header();
    h[0x13] = 1; // total_sectors = 1, smaller than the data area start
    h[0x14] = 0;
    let fs = FirstSector::new(h).unwrap();
    assert_eq!(Region::new(&fs), Err(FatError::InvalidGeometry));
}

#[test]
fn huge_fat_area_is_invalid_geometry() {
    let mut h = header();
    // 16-bit field zero: 32-bit sectors-per-FAT field holds u32::MAX
    h[0x16] = 0;
    h[0x24] = 0xFF;
    h[0x25] = 0xFF;
    h[0x26] = 0xFF;
    h[0x27] = 0xFF;
    let fs = FirstSector::new(h).unwrap();
    assert_eq!(Region::new(&fs), Err(FatError::InvalidGeometry));
}
