use bootcore::mem::area_frame_alloc::{MemoryRegion, RegionKind};
use bootcore::{available_bytes, kernel_extent};

fn region(start: usize, size: usize, kind: RegionKind) -> MemoryRegion {
    MemoryRegion { start, size, kind }
}

#[test]
fn available_bytes_sums_only_usable_regions() {
    let map = vec![
        region(0, 0x9FC00, RegionKind::Available),
        region(0x9FC00, 0x400, RegionKind::Other),
        region(0x100000, 0x7EE0000, RegionKind::Available),
    ];
    assert_eq!(available_bytes(&map), Some(0x9FC00 + 0x7EE0000));
}

#[test]
fn available_bytes_of_an_empty_map_is_zero() {
    assert_eq!(available_bytes(&Vec::new()), Some(0));
}

#[test]
fn available_bytes_reports_overflow() {
    let map = vec![
        region(0, usize::MAX, RegionKind::Available),
        region(0, usize::MAX, RegionKind::Available),
    ];
    assert_eq!(available_bytes(&map), None);
}

#[test]
fn kernel_extent_spans_all_sections() {
    let sections = vec![(0x200000, 0x210000), (0x100000, 0x180000), (0x300000, 0x340000)];
    assert_eq!(kernel_extent(&sections), Some((0x100000, 0x340000)));
}

#[test]
fn kernel_extent_of_one_section_is_that_section() {
    assert_eq!(kernel_extent(&vec![(0x1000, 0x2000)]), Some((0x1000, 0x2000)));
}

#[test]
fn kernel_extent_of_no_sections_is_absent() {
    assert_eq!(kernel_extent(&Vec::new()), None);
}
