use bootcore::mem::area_frame_alloc::{AreaFrameAllocator, MemoryRegion, RegionKind};
use bootcore::mem::FrameAllocator;

fn region(start: usize, size: usize, kind: RegionKind) -> MemoryRegion {
    MemoryRegion { start, size, kind }
}

/// Exclusion ranges that overlap nothing used by these maps.
const FAR_KERNEL: (usize, usize) = (0x4000_0000, 0x4000_0FFF);
const FAR_MULTIBOOT: (usize, usize) = (0x5000_0000, 0x5000_0FFF);

fn drain(alloc: &mut AreaFrameAllocator) -> Vec<usize> {
    let mut out = Vec::new();
    while let Some(f) = alloc.allocate() {
        out.push(f.number);
        assert!(out.len() <= 10_000, "allocator did not exhaust");
    }
    out
}

#[test]
fn one_region_yields_its_frames_in_order() {
    let areas = vec![region(0x100000, 0x100000, RegionKind::Available)];
    let mut alloc = AreaFrameAllocator::new(FAR_KERNEL, FAR_MULTIBOOT, areas);
    let got = drain(&mut alloc);
    let expected: Vec<usize> = (0x100..0x200).collect();
    assert_eq!(got, expected);
    assert_eq!(got.len(), 256);
    assert!(alloc.allocate().is_none());
}

#[test]
fn kernel_exclusion_skips_exactly_those_frames() {
    let areas = vec![region(0x100000, 0x100000, RegionKind::Available)];
    // Kernel image occupies frames 0x150 through 0x160 inclusive.
    let kernel = (0x150 * 4096, 0x160 * 4096);
    let mut alloc = AreaFrameAllocator::new(kernel, FAR_MULTIBOOT, areas);
    let got = drain(&mut alloc);
    let expected: Vec<usize> = (0x100..0x200).filter(|n| !(0x150..=0x160).contains(n)).collect();
    assert_eq!(got, expected);
    assert_eq!(got.len(), 256 - 17);
}

#[test]
fn multiboot_exclusion_skips_exactly_those_frames() {
    let areas = vec![region(0x100000, 0x100000, RegionKind::Available)];
    let multiboot = (0x1F0 * 4096, 0x1F2 * 4096);
    let mut alloc = AreaFrameAllocator::new(FAR_KERNEL, multiboot, areas);
    let got = drain(&mut alloc);
    let expected: Vec<usize> = (0x100..0x200).filter(|n| !(0x1F0..=0x1F2).contains(n)).collect();
    assert_eq!(got, expected);
}

#[test]
fn two_disjoint_regions_drain_in_address_order() {
    let areas = vec![
        region(0, 0x1000, RegionKind::Available),
        region(0x10000, 0x1000, RegionKind::Available),
    ];
    let mut alloc = AreaFrameAllocator::new(FAR_KERNEL, FAR_MULTIBOOT, areas);
    let got = drain(&mut alloc);
    assert_eq!(got, vec![0, 0x10]);
}

#[test]
fn unsorted_regions_still_come_out_ascending() {
    let areas = vec![
        region(0x10000, 0x1000, RegionKind::Available),
        region(0, 0x1000, RegionKind::Available),
    ];
    let mut alloc = AreaFrameAllocator::new(FAR_KERNEL, FAR_MULTIBOOT, areas);
    let got = drain(&mut alloc);
    assert_eq!(got, vec![0, 0x10]);
}

#[test]
fn non_available_regions_are_never_used() {
    let areas = vec![
        region(0, 0x1000, RegionKind::Other),
        region(0x10000, 0x2000, RegionKind::Available),
        region(0x20000, 0x1000, RegionKind::Other),
    ];
    let mut alloc = AreaFrameAllocator::new(FAR_KERNEL, FAR_MULTIBOOT, areas);
    let got = drain(&mut alloc);
    assert_eq!(got, vec![0x10, 0x11]);
}

#[test]
fn successive_allocations_strictly_increase() {
    let areas = vec![
        region(0x100000, 0x20000, RegionKind::Available),
        region(0x300000, 0x10000, RegionKind::Available),
    ];
    let kernel = (0x110 * 4096, 0x115 * 4096);
    let mut alloc = AreaFrameAllocator::new(kernel, FAR_MULTIBOOT, areas);
    let got = drain(&mut alloc);
    assert!(!got.is_empty());
    for pair in got.windows(2) {
        assert!(pair[1] > pair[0]);
    }
}

#[test]
fn no_returned_frame_lies_in_an_exclusion_range() {
    let areas = vec![region(0, 0x100000, RegionKind::Available)];
    let kernel = (0x10_000, 0x1F_FFF);
    let multiboot = (0x40_000, 0x40_FFF);
    let k0 = 0x10_000 / 4096;
    let k1 = 0x1F_FFF / 4096;
    let m0 = 0x40_000 / 4096;
    let m1 = 0x40_FFF / 4096;
    let mut alloc = AreaFrameAllocator::new(kernel, multiboot, areas);
    let got = drain(&mut alloc);
    for n in &got {
        assert!(!(k0..=k1).contains(n));
        assert!(!(m0..=m1).contains(n));
    }
    assert_eq!(got.len(), 0x100 - (k1 - k0 + 1) - (m1 - m0 + 1));
}

#[test]
fn exhaustion_is_permanent() {
    let areas = vec![region(0x1000, 0x1000, RegionKind::Available)];
    let mut alloc = AreaFrameAllocator::new(FAR_KERNEL, FAR_MULTIBOOT, areas);
    assert_eq!(alloc.allocate().map(|f| f.number), Some(1));
    assert!(alloc.allocate().is_none());
    for _ in 0..10 {
        assert!(alloc.allocate().is_none());
    }
}

#[test]
fn empty_map_is_exhausted_from_the_start() {
    let mut alloc = AreaFrameAllocator::new(FAR_KERNEL, FAR_MULTIBOOT, Vec::new());
    assert!(alloc.allocate().is_none());
    assert!(alloc.allocate().is_none());
}

#[test]
fn region_not_starting_at_a_frame_boundary() {
    // Bytes 0x1800..0x3800: frames 1, 2 and 3 all overlap the region.
    let areas = vec![region(0x1800, 0x2000, RegionKind::Available)];
    let mut alloc = AreaFrameAllocator::new(FAR_KERNEL, FAR_MULTIBOOT, areas);
    let got = drain(&mut alloc);
    assert_eq!(got, vec![1, 2, 3]);
}

#[test]
fn exclusion_covering_a_region_tail_ends_it() {
    // The kernel covers the upper half of the only region.
    let areas = vec![region(0, 0x10000, RegionKind::Available)];
    let kernel = (0x8000, 0xFFFF);
    let mut alloc = AreaFrameAllocator::new(kernel, FAR_MULTIBOOT, areas);
    let got = drain(&mut alloc);
    assert_eq!(got, vec![0, 1, 2, 3, 4, 5, 6, 7]);
}
