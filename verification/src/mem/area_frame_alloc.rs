//! The concrete frame allocator: walks the firmware memory map, excluding the
//! kernel image and the boot-information footprint, and hands out every usable
//! frame exactly once, in ascending order.

use vstd::prelude::*;

use super::{Frame, FrameAllocator, PAGE_SIZE};

verus! {

/// Classification of a firmware-reported memory region.
#[derive(Clone, Copy, Debug, PartialEq, Eq, Structural)]
pub enum RegionKind {
    /// Usable RAM.
    Available,
    /// Anything the firmware did not mark usable.
    Other,
}

/// One contiguous byte range of the firmware memory map.
#[derive(Clone, Copy, Debug, PartialEq, Eq, Structural)]
pub struct MemoryRegion {
    pub start: usize,
    pub size: usize,
    pub kind: RegionKind,
}

impl MemoryRegion {
    /// The region is non-empty and its last byte has a machine address.
    pub open spec fn wf(self) -> bool {
        1 <= self.size && self.start + self.size - 1 <= usize::MAX
    }

    /// Address of the last byte of the region (inclusive).
    pub open spec fn spec_last_address(self) -> int {
        self.start + self.size - 1
    }

    /// Index of the frame holding the region's first byte.
    pub open spec fn spec_first_frame(self) -> int {
        self.start as int / PAGE_SIZE as int
    }

    /// Index of the frame holding the region's last byte.
    pub open spec fn spec_last_frame(self) -> int {
        self.spec_last_address() / PAGE_SIZE as int
    }
}

/// A region can still feed the cursor: it is usable RAM and its closing frame
/// has not been passed yet.
pub open spec fn area_qualifies(r: MemoryRegion, cursor: int) -> bool {
    r.kind == RegionKind::Available && r.spec_last_frame() >= cursor
}

/// What one pass of area selection leaves behind, starting from cursor
/// `cursor0`: either no region qualifies and the cursor is untouched, or the
/// qualifying region with the smallest start address is selected and the
/// cursor is advanced to its first frame when that lies ahead.
pub open spec fn selection_post(
    areas: Seq<MemoryRegion>,
    cursor0: int,
    current: Option<MemoryRegion>,
    cursor1: int,
) -> bool {
    match current {
        None => cursor1 == cursor0 && (forall|i: int|
            0 <= i < areas.len() ==> !area_qualifies(#[trigger] areas[i], cursor0)),
        Some(a) => {
            &&& area_qualifies(a, cursor0)
            &&& exists|i: int| 0 <= i < areas.len() && #[trigger] areas[i] == a
            &&& forall|i: int|
                0 <= i < areas.len() && area_qualifies(#[trigger] areas[i], cursor0)
                    ==> a.start <= areas[i].start
            &&& cursor1 == if a.spec_first_frame() > cursor0 {
                a.spec_first_frame()
            } else {
                cursor0
            }
        },
    }
}

/// A frame index strictly above the closing frame of every region in `areas`,
/// and at least `floor`: an upper bound that the allocation cursor never
/// crosses, used for the termination argument.
spec fn frame_bound(areas: Seq<MemoryRegion>, floor: int) -> int
    decreases areas.len(),
{
    if areas.len() == 0 {
        floor
    } else {
        let rest = frame_bound(areas.drop_last(), floor);
        let last = areas.last().spec_last_frame() + 1;
        if last > rest {
            last
        } else {
            rest
        }
    }
}

/// `frame_bound` is indeed above the floor and above every region's frames.
proof fn lemma_frame_bound(areas: Seq<MemoryRegion>, floor: int)
    ensures
        floor <= frame_bound(areas, floor),
        forall|i: int|
            0 <= i < areas.len()
                ==> (#[trigger] areas[i]).spec_last_frame() + 1 <= frame_bound(areas, floor),
    decreases areas.len(),
{
    if areas.len() > 0 {
        lemma_frame_bound(areas.drop_last(), floor);
        assert forall|i: int| 0 <= i < areas.len() implies (#[trigger] areas[i]).spec_last_frame()
            + 1 <= frame_bound(areas, floor) by {
            if i < areas.len() - 1 {
                assert(areas.drop_last()[i] == areas[i]);
            }
        }
    }
}

/// A well-formed region's first frame does not lie past its last frame.
proof fn lemma_region_frames_ordered(r: MemoryRegion)
    requires
        r.wf(),
    ensures
        r.spec_first_frame() <= r.spec_last_frame(),
{
    vstd::arithmetic::div_mod::lemma_div_is_ordered(
        r.start as int,
        r.spec_last_address(),
        PAGE_SIZE as int,
    );
}

/// Frame `n` is one the allocator is meant to hand out: it lies inside a
/// region marked available and outside both exclusion ranges.
pub open spec fn frame_usable(a: AreaFrameAllocator, n: int) -> bool {
    &&& !a.in_kernel_range(n)
    &&& !a.in_multiboot_range(n)
    &&& exists|i: int|
        0 <= i < a.regions().len() && {
            let reg = #[trigger] a.regions()[i];
            &&& reg.kind == RegionKind::Available
            &&& reg.spec_first_frame() <= n <= reg.spec_last_frame()
        }
}

/// Everything one `allocate` call on an `AreaFrameAllocator` promises, as a
/// relation between the state before (`pre`), the state after (`post`) and
/// the result: the map and the exclusion bounds are untouched, the cursor
/// only moves forward, a returned frame is the least usable frame at or
/// after the old cursor, with the cursor moved just past it, and an absent
/// result means no usable frame remains at or after the old cursor.
pub open spec fn allocate_post(
    pre: AreaFrameAllocator,
    post: AreaFrameAllocator,
    r: Option<Frame>,
) -> bool {
    &&& post.regions() == pre.regions()
    &&& post.kernel_first() == pre.kernel_first()
    &&& post.kernel_last() == pre.kernel_last()
    &&& post.multiboot_first() == pre.multiboot_first()
    &&& post.multiboot_last() == pre.multiboot_last()
    &&& post.cursor() >= pre.cursor()
    &&& match r {
        Some(f) => {
            &&& f.fits()
            &&& f.number as int >= pre.cursor()
            &&& post.cursor() == f.number as int + 1
            &&& frame_usable(pre, f.number as int)
            &&& forall|n: int| pre.cursor() <= n < f.number as int ==> !frame_usable(pre, n)
        },
        None => {
            &&& post.current() is None
            &&& forall|n: int| n >= pre.cursor() ==> !frame_usable(pre, n)
        },
    }
    &&& pre.current() is None ==> r is None && post.cursor() == pre.cursor()
}

/// Successive successful allocations return strictly increasing frame
/// numbers: no frame is ever handed out twice.
pub proof fn lemma_allocations_strictly_increase(
    s0: AreaFrameAllocator,
    s1: AreaFrameAllocator,
    s2: AreaFrameAllocator,
    f1: Frame,
    f2: Frame,
)
    requires
        allocate_post(s0, s1, Some(f1)),
        allocate_post(s1, s2, Some(f2)),
    ensures
        f2.number > f1.number,
{
}

/// Once `allocate` has reported exhaustion, every later call on that
/// instance reports it too.
pub proof fn lemma_exhaustion_is_permanent(
    s0: AreaFrameAllocator,
    s1: AreaFrameAllocator,
    s2: AreaFrameAllocator,
    r: Option<Frame>,
)
    requires
        allocate_post(s0, s1, None::<Frame>),
        allocate_post(s1, s2, r),
    ensures
        r is None,
        s2.cursor() == s1.cursor(),
{
}

/// Walks the memory map once, in ascending frame order.
///
/// The cursor `next_free_frame` only ever moves forward; `current_area` is the
/// region presently being consumed, or `None` once every region is exhausted;
/// the four exclusion bounds are fixed at construction.
pub struct AreaFrameAllocator {
    pub next_free_frame: Frame,
    pub current_area: Option<MemoryRegion>,
    pub areas: Vec<MemoryRegion>,
    pub kernel_start: Frame,
    pub kernel_end: Frame,
    pub multiboot_start: Frame,
    pub multiboot_end: Frame,
}

impl AreaFrameAllocator {
    /// The part of well-formedness that does not depend on the selection
    /// state: every region of the map is well formed and the exclusion bounds
    /// fit in the frame range.
    pub open spec fn regions_wf(self) -> bool {
        &&& forall|i: int| 0 <= i < self.areas@.len() ==> (#[trigger] self.areas@[i]).wf()
        &&& self.kernel_end.fits()
        &&& self.multiboot_end.fits()
    }

    /// Full well-formedness: the map is well formed and the selection state is
    /// consistent (see the trait impl's `wf`, which equals this).
    pub open spec fn inv(self) -> bool {
        &&& self.regions_wf()
        &&& match self.current_area {
            Some(a) => {
                &&& a.wf()
                &&& a.kind == RegionKind::Available
                &&& exists|i: int| 0 <= i < self.areas@.len() && #[trigger] self.areas@[i] == a
                &&& self.cursor() >= a.spec_first_frame()
            },
            None => forall|i: int|
                0 <= i < self.areas@.len()
                    ==> !area_qualifies(#[trigger] self.areas@[i], self.cursor()),
        }
    }

    /// The allocation cursor: index of the next frame the walk considers.
    pub open spec fn cursor(self) -> int {
        self.next_free_frame.number as int
    }

    /// The full memory map the allocator was built over.
    pub open spec fn regions(self) -> Seq<MemoryRegion> {
        self.areas@
    }

    /// The region presently being consumed.
    pub open spec fn current(self) -> Option<MemoryRegion> {
        self.current_area
    }

    /// First frame of the kernel-image exclusion range (inclusive).
    pub open spec fn kernel_first(self) -> int {
        self.kernel_start.number as int
    }

    /// Last frame of the kernel-image exclusion range (inclusive).
    pub open spec fn kernel_last(self) -> int {
        self.kernel_end.number as int
    }

    /// First frame of the boot-information exclusion range (inclusive).
    pub open spec fn multiboot_first(self) -> int {
        self.multiboot_start.number as int
    }

    /// Last frame of the boot-information exclusion range (inclusive).
    pub open spec fn multiboot_last(self) -> int {
        self.multiboot_end.number as int
    }

    /// The frame index lies inside the kernel-image exclusion range.
    pub open spec fn in_kernel_range(self, n: int) -> bool {
        self.kernel_first() <= n <= self.kernel_last()
    }

    /// The frame index lies inside the boot-information exclusion range.
    pub open spec fn in_multiboot_range(self, n: int) -> bool {
        self.multiboot_first() <= n <= self.multiboot_last()
    }

    /// Construct the allocator from the two exclusion byte ranges (inclusive)
    /// and the firmware memory map, then run one initial area selection.
    pub fn new(
        kernel: (usize, usize),
        multiboot: (usize, usize),
        areas: Vec<MemoryRegion>,
    ) -> (r: AreaFrameAllocator)
        requires
            forall|i: int| 0 <= i < areas@.len() ==> (#[trigger] areas@[i]).wf(),
        ensures
            r.inv(),
            r.regions() == areas@,
            r.kernel_first() == kernel.0 as int / PAGE_SIZE as int,
            r.kernel_last() == kernel.1 as int / PAGE_SIZE as int,
            r.multiboot_first() == multiboot.0 as int / PAGE_SIZE as int,
            r.multiboot_last() == multiboot.1 as int / PAGE_SIZE as int,
            selection_post(areas@, 0, r.current(), r.cursor()),
    {
        let mut allocator = AreaFrameAllocator {
            next_free_frame: Frame::containing_address(0),
            current_area: None,
            areas,
            kernel_start: Frame::containing_address(kernel.0),
            kernel_end: Frame::containing_address(kernel.1),
            multiboot_start: Frame::containing_address(multiboot.0),
            multiboot_end: Frame::containing_address(multiboot.1),
        };
        allocator.choose_next_area();
        allocator
    }

    /// Select, among the regions whose closing frame has not been passed,
    /// the usable one with the smallest start address; advance the cursor to
    /// its first frame when that lies ahead (the only place the cursor jumps
    /// across a gap between regions).  Clear the selection when none
    /// qualifies: allocation is then permanently exhausted.
    fn choose_next_area(&mut self)
        requires
            old(self).regions_wf(),
        ensures
            final(self).inv(),
            final(self).areas@ == old(self).areas@,
            final(self).kernel_start == old(self).kernel_start,
            final(self).kernel_end == old(self).kernel_end,
            final(self).multiboot_start == old(self).multiboot_start,
            final(self).multiboot_end == old(self).multiboot_end,
            final(self).cursor() >= old(self).cursor(),
            selection_post(
                old(self).areas@,
                old(self).cursor(),
                final(self).current(),
                final(self).cursor(),
            ),
    {
        let n = self.areas.len();
        let mut best: Option<MemoryRegion> = None;
        let mut i: usize = 0;
        while i < n
            invariant
                *self == *old(self),
                old(self).regions_wf(),
                i <= n,
                n == self.areas.len(),
                best is None ==> forall|j: int|
                    0 <= j < i ==> !area_qualifies(#[trigger] self.areas@[j], self.cursor()),
                best matches Some(b) ==> {
                    &&& area_qualifies(b, self.cursor())
                    &&& exists|j: int| 0 <= j < i && #[trigger] self.areas@[j] == b
                    &&& forall|j: int|
                        0 <= j < i && area_qualifies(#[trigger] self.areas@[j], self.cursor())
                            ==> b.start <= self.areas@[j].start
                },
            decreases n - i,
        {
            let a = self.areas[i];
            if a.kind == RegionKind::Available {
                let last_address = a.start + (a.size - 1);
                let last_frame = Frame::containing_address(last_address);
                if last_frame.number >= self.next_free_frame.number {
                    best = match best {
                        Some(b) => if b.start <= a.start {
                            Some(b)
                        } else {
                            Some(a)
                        },
                        None => Some(a),
                    };
                }
            }
            i += 1;
        }
        self.current_area = best;
        if let Some(area) = best {
            let start_frame = Frame::containing_address(area.start);
            if self.next_free_frame.number < start_frame.number {
                self.next_free_frame = start_frame;
            }
        }
    }
}

impl FrameAllocator for AreaFrameAllocator {
    /// Every region is well formed; the exclusion bounds fit; the selected
    /// region, if any, is a usable region of the map whose first frame the
    /// cursor has reached; once no region is selected, none qualifies at the
    /// cursor any more.
    open spec fn wf(&self) -> bool {
        self.inv()
    }

    /// This allocator never takes frames back: nothing may call `deallocate`.
    open spec fn deallocate_supported(&self) -> bool {
        false
    }

    /// Hand out the next usable frame, or `None` when the map is exhausted.
    ///
    /// A returned frame lies at or after the old cursor, inside a usable
    /// region, outside both exclusion ranges, and the cursor moves just past
    /// it; after a `None`, no usable region remains at or after the cursor,
    /// so every later call returns `None` as well.
    fn allocate(&mut self) -> (r: Option<Frame>)
        ensures
            allocate_post(*old(self), *final(self), r),
    {
        let ghost floor = vstd::math::max(
            old(self).cursor(),
            vstd::math::max(old(self).kernel_last() + 1, old(self).multiboot_last() + 1),
        );
        let ghost bound = frame_bound(old(self).areas@, floor);
        proof {
            lemma_frame_bound(old(self).areas@, floor);
        }
        loop
            invariant
                self.inv(),
                self.areas@ == old(self).areas@,
                self.kernel_start == old(self).kernel_start,
                self.kernel_end == old(self).kernel_end,
                self.multiboot_start == old(self).multiboot_start,
                self.multiboot_end == old(self).multiboot_end,
                self.cursor() >= old(self).cursor(),
                self.cursor() <= bound,
                floor <= bound,
                old(self).kernel_last() + 1 <= bound,
                old(self).multiboot_last() + 1 <= bound,
                forall|i: int|
                    0 <= i < old(self).areas@.len()
                        ==> (#[trigger] old(self).areas@[i]).spec_last_frame() + 1 <= bound,
                forall|n: int|
                    old(self).cursor() <= n < self.cursor() ==> !frame_usable(*old(self), n),
                old(self).current() is None ==> self.current() is None && self.cursor() == old(
                    self,
                ).cursor(),
            decreases
                bound - self.cursor(),
                (match self.current_area {
                    Some(a) => if self.cursor() > a.spec_last_frame() {
                        1int
                    } else {
                        0int
                    },
                    None => 0int,
                }),
        {
            match self.current_area {
                None => {
                    proof {
                        assert forall|n: int| n >= old(self).cursor() implies !frame_usable(
                            *old(self),
                            n,
                        ) by {
                            if n < self.cursor() {
                            } else if frame_usable(*old(self), n) {
                                let xi = choose|xi: int|
                                    0 <= xi < old(self).regions().len() && {
                                        let reg = #[trigger] old(self).regions()[xi];
                                        &&& reg.kind == RegionKind::Available
                                        &&& reg.spec_first_frame() <= n <= reg.spec_last_frame()
                                    };
                                let x = old(self).regions()[xi];
                                assert(area_qualifies(x, self.cursor()));
                            }
                        }
                    }
                    return None;
                },
                Some(area) => {
                    let frame = Frame { number: self.next_free_frame.number };
                    let last_address = area.start + (area.size - 1);
                    let current_area_last_frame = Frame::containing_address(last_address);
                    if frame.number > current_area_last_frame.number {
                        let ghost cursor_here = self.cursor();
                        self.choose_next_area();
                        proof {
                            match self.current_area {
                                Some(a) => {
                                    lemma_region_frames_ordered(a);
                                    assert forall|n: int|
                                        cursor_here <= n < self.cursor() implies !frame_usable(
                                        *old(self),
                                        n,
                                    ) by {
                                        if frame_usable(*old(self), n) {
                                            let xi = choose|xi: int|
                                                0 <= xi < old(self).regions().len() && {
                                                    let reg = #[trigger] old(self).regions()[xi];
                                                    &&& reg.kind == RegionKind::Available
                                                    &&& reg.spec_first_frame() <= n
                                                        <= reg.spec_last_frame()
                                                };
                                            let x = old(self).regions()[xi];
                                            assert(area_qualifies(x, cursor_here));
                                            vstd::arithmetic::div_mod::lemma_div_is_ordered(
                                                a.start as int,
                                                x.start as int,
                                                PAGE_SIZE as int,
                                            );
                                        }
                                    }
                                },
                                None => (),
                            }
                        }
                    } else if frame.number >= self.kernel_start.number && frame.number
                        <= self.kernel_end.number {
                        self.next_free_frame = Frame { number: self.kernel_end.number + 1 };
                    } else if frame.number >= self.multiboot_start.number && frame.number
                        <= self.multiboot_end.number {
                        self.next_free_frame = Frame { number: self.multiboot_end.number + 1 };
                    } else {
                        self.next_free_frame = Frame { number: frame.number + 1 };
                        return Some(frame);
                    }
                },
            }
        }
    }

    /// Taking frames back is a capability this allocator does not have: the
    /// precondition can never be met, so a verified caller cannot reach this,
    /// and an unverified one fails loudly.
    fn deallocate(&mut self, _frame: Frame) {
        vstd::pervasive::unreached()
    }
}

} // verus!
