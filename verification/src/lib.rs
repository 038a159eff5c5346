//! Physical-memory bootstrap core of a bare-metal x86 kernel.
//!
//! Turns a firmware-supplied memory map into a strictly increasing stream of
//! usable physical page frames, and stages the hardware paging structures
//! that switch the CPU into a protected virtual address space.  The
//! privileged register operations and the firmware-table parsing around this
//! core are the callers' concern.

use vstd::prelude::*;

pub mod cpu;
pub mod mem;
pub mod misc;
pub mod vga;

use mem::area_frame_alloc::{MemoryRegion, RegionKind};

verus! {

/// The number of usable bytes a memory map reports: the sizes of its
/// regions marked available, summed.
pub open spec fn available_bytes_of(regions: Seq<MemoryRegion>) -> int
    decreases regions.len(),
{
    if regions.len() == 0 {
        0
    } else {
        available_bytes_of(regions.drop_last()) + if regions.last().kind
            == RegionKind::Available {
            regions.last().size as int
        } else {
            0int
        }
    }
}

/// Sum the sizes of the regions marked available, or report that the total
/// does not fit in a machine word.
pub fn available_bytes(regions: &Vec<MemoryRegion>) -> (r: Option<usize>)
    ensures
        (match r {
            Some(n) => n == available_bytes_of(regions@),
            None => available_bytes_of(regions@) > usize::MAX,
        }),
{
    let mut total: usize = 0;
    let mut i: usize = 0;
    let n = regions.len();
    while i < n
        invariant
            i <= n,
            n == regions@.len(),
            total == available_bytes_of(regions@.take(i as int)),
        decreases n - i,
    {
        proof {
            assert(regions@.take(i + 1 as int).drop_last() =~= regions@.take(i as int));
            assert(regions@.take(i + 1 as int).last() == regions@[i as int]);
        }
        let region = regions[i];
        if region.kind == RegionKind::Available {
            match total.checked_add(region.size) {
                Some(t) => {
                    total = t;
                },
                None => {
                    proof {
                        lemma_available_bytes_monotonic(regions@, i + 1 as int);
                    }
                    return None;
                },
            }
        }
        i += 1;
    }
    proof {
        assert(regions@.take(n as int) =~= regions@);
    }
    Some(total)
}

/// A longer prefix of the map never reports fewer usable bytes.
proof fn lemma_available_bytes_monotonic(regions: Seq<MemoryRegion>, i: int)
    requires
        0 <= i <= regions.len(),
    ensures
        available_bytes_of(regions.take(i)) <= available_bytes_of(regions),
    decreases regions.len() - i,
{
    if i < regions.len() {
        lemma_available_bytes_monotonic(regions, i + 1);
        assert(regions.take(i + 1).drop_last() =~= regions.take(i));
    } else {
        assert(regions.take(i) =~= regions);
    }
}

/// The byte extent of a loaded image: the smallest start address and the
/// largest end address over its sections, or nothing when there are no
/// sections.
pub fn kernel_extent(sections: &Vec<(usize, usize)>) -> (r: Option<(usize, usize)>)
    ensures
        (match r {
            None => sections@.len() == 0,
            Some((lo, hi)) => {
                &&& sections@.len() > 0
                &&& exists|i: int| 0 <= i < sections@.len() && (#[trigger] sections@[i]).0 == lo
                &&& exists|i: int| 0 <= i < sections@.len() && (#[trigger] sections@[i]).1 == hi
                &&& forall|i: int|
                    0 <= i < sections@.len() ==> lo <= (#[trigger] sections@[i]).0 && sections@[i].1
                        <= hi
            },
        }),
{
    let n = sections.len();
    if n == 0 {
        return None;
    }
    let mut lo: usize = sections[0].0;
    let mut hi: usize = sections[0].1;
    let mut i: usize = 1;
    while i < n
        invariant
            1 <= i <= n,
            n == sections@.len(),
            exists|j: int| 0 <= j < i && (#[trigger] sections@[j]).0 == lo,
            exists|j: int| 0 <= j < i && (#[trigger] sections@[j]).1 == hi,
            forall|j: int|
                0 <= j < i ==> lo <= (#[trigger] sections@[j]).0 && sections@[j].1 <= hi,
        decreases n - i,
    {
        let (s, e) = sections[i];
        if s < lo {
            lo = s;
        }
        if e > hi {
            hi = e;
        }
        i += 1;
    }
    Some((lo, hi))
}

} // verus!
