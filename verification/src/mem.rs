//! Physical frames and the allocation capability.

use vstd::prelude::*;

pub mod area_frame_alloc;
pub mod paging;

verus! {

/// Size of one physical page frame, in bytes.
pub const PAGE_SIZE: usize = 4096;

/// One page-aligned unit of physical memory, identified by its index.
#[derive(Clone, Copy, Debug, PartialEq, Eq, Structural, PartialOrd, Ord)]
pub struct Frame {
    pub number: usize,
}

impl Frame {
    /// The frame index is small enough that every byte of the frame has a
    /// `usize` address.
    pub open spec fn fits(self) -> bool {
        self.number <= usize::MAX as int / PAGE_SIZE as int
    }

    /// The frame whose byte range contains `address`: floor division by the
    /// page size.
    pub fn containing_address(address: usize) -> (r: Frame)
        ensures
            r.number == address as int / PAGE_SIZE as int,
            r.fits(),
    {
        proof {
            vstd::arithmetic::div_mod::lemma_div_is_ordered(
                address as int,
                usize::MAX as int,
                PAGE_SIZE as int,
            );
        }
        Frame { number: address / PAGE_SIZE }
    }

    /// Address of the first byte of the frame.
    pub fn start_address(&self) -> (r: usize)
        requires
            self.fits(),
        ensures
            r == self.number * PAGE_SIZE,
    {
        self.number * PAGE_SIZE
    }

    /// Address of the last byte of the frame (inclusive).
    pub fn end_address(&self) -> (r: usize)
        requires
            self.fits(),
        ensures
            r == (self.number + 1) * PAGE_SIZE - 1,
    {
        proof {
            vstd::arithmetic::div_mod::lemma_fundamental_div_mod(
                usize::MAX as int,
                PAGE_SIZE as int,
            );
            vstd::arithmetic::mul::lemma_mul_inequality(
                self.number as int,
                usize::MAX as int / PAGE_SIZE as int,
                PAGE_SIZE as int,
            );
            assert(usize::MAX as int % PAGE_SIZE as int == PAGE_SIZE - 1);
        }
        self.number * PAGE_SIZE + (PAGE_SIZE - 1)
    }
}

/// Mapping an address back to its frame undoes `start_address` and
/// `end_address`: both ends of a frame's byte range identify that frame.
pub proof fn lemma_frame_address_roundtrip(f: Frame)
    requires
        f.fits(),
    ensures
        (f.number * PAGE_SIZE) as int / PAGE_SIZE as int == f.number,
        ((f.number + 1) * PAGE_SIZE - 1) / PAGE_SIZE as int == f.number,
{
    let p = PAGE_SIZE as int;
    let n = f.number as int;
    vstd::arithmetic::div_mod::lemma_div_multiples_vanish_fancy(n, 0, p);
    vstd::arithmetic::div_mod::lemma_div_multiples_vanish_fancy(n, p - 1, p);
    assert(n * p == p * n) by (nonlinear_arith);
    assert((n + 1) * p - 1 == p * n + (p - 1)) by (nonlinear_arith);
}

/// A frame's start address is always page-aligned: what a frame backs (a
/// page directory, a page table) may be placed wherever alignment to the
/// page size is demanded.
pub proof fn lemma_frame_start_is_page_aligned(f: Frame)
    requires
        f.fits(),
    ensures
        (f.number * PAGE_SIZE) as int % PAGE_SIZE as int == 0,
{
    vstd::arithmetic::div_mod::lemma_mod_multiples_basic(f.number as int, PAGE_SIZE as int);
}

/// The capability to hand out and take back physical frames.
///
/// An absent result from `allocate` signals exhaustion, which is not itself an
/// error: the policy on exhaustion belongs to the caller.
pub trait FrameAllocator {
    /// The allocator's internal consistency; established by its constructor
    /// and preserved by every call.
    spec fn wf(&self) -> bool;

    /// Whether this allocator supports `deallocate` at all.  An implementation
    /// that lacks the capability defines this as `false`, so that no verified
    /// caller can ever reach its `deallocate`.
    spec fn deallocate_supported(&self) -> bool;

    fn allocate(&mut self) -> (r: Option<Frame>)
        requires
            old(self).wf(),
        ensures
            final(self).wf(),
    ;

    fn deallocate(&mut self, frame: Frame)
        requires
            old(self).wf(),
            old(self).deallocate_supported(),
        ensures
            final(self).wf(),
    ;
}

} // verus!
