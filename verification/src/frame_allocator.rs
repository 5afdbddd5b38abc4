//! A free-list physical-frame allocator and the frames it hands out.
//!
//! The allocator hands back frames from a free list first and otherwise
//! advances a bump pointer through its configured region, one page at a
//! time.  The surrounding kernel owns the single allocator instance and
//! passes it to every allocation site; `init` sets the region it bumps
//! through.  A frame models one page of physical memory: its start address
//! and its bytes.  Writing a frame's bytes through its raw kernel-space
//! pointer, and lending them out as a slice, are unverified kernel work and
//! stay outside this module.

use vstd::prelude::*;

use crate::zeroed_bytes;

verus! {

/// Size in bytes of one physical frame.
pub const PAGE_SIZE: usize = 4096;

/// A physical address.
#[derive(Clone, Copy, Debug, PartialEq, Eq, Structural)]
pub struct PhysAddr(pub usize);

/// The frame allocator: a free list of returned frames in front of a bump
/// region.
#[derive(Clone, Debug)]
pub struct FreeListAllocator {
    /// Next address the bump region would hand out.
    pub current: usize,
    /// End of the bump region.
    pub end: usize,
    /// Start addresses of returned frames, reused before the bump region
    /// advances.
    pub free_list: Vec<usize>,
}

/// Relation: `post` is `pre` after one allocation that returned the frame
/// address `pa`.  The free list is popped first; an exhausted allocator
/// (nothing on the free list, bump region used up) still answers, with
/// address zero, and is left unchanged.
pub open spec fn allocates(pre: FreeListAllocator, post: FreeListAllocator, pa: usize) -> bool {
    &&& post.end == pre.end
    &&& if pre.free_list@.len() > 0 {
        &&& pa == pre.free_list@.last()
        &&& post.free_list@ == pre.free_list@.drop_last()
        &&& post.current == pre.current
    } else if pre.current < pre.end {
        &&& pa == pre.current
        &&& post.current == pre.current + PAGE_SIZE
        &&& post.free_list@ == pre.free_list@
    } else {
        &&& pa == 0
        &&& post.current == pre.current
        &&& post.free_list@ == pre.free_list@
    }
}

impl FreeListAllocator {
    /// The bump region leaves room for one more page below the address
    /// space's end, so advancing past its last frame cannot wrap.
    pub open spec fn wf(self) -> bool {
        self.end + PAGE_SIZE <= usize::MAX
    }

    /// An empty allocator: nothing on the free list and an empty bump
    /// region; `init` gives it its region.
    pub fn new() -> (r: Self)
        ensures
            r.wf(),
            r.current == 0,
            r.end == 0,
            r.free_list@.len() == 0,
    {
        FreeListAllocator { current: 0, end: 0, free_list: Vec::new() }
    }

    /// Allocates one frame: the most recently freed frame if any, else the
    /// next frame of the bump region, else address zero.
    pub fn allocate(&mut self) -> (r: Option<usize>)
        requires
            old(self).wf(),
        ensures
            final(self).wf(),
            r is Some,
            r matches Some(pa) ==> allocates(*old(self), *final(self), pa),
    {
        let mut ret: usize = 0;
        match self.free_list.pop() {
            Some(x) => {
                ret = x;
            },
            None => {
                if self.current < self.end {
                    ret = self.current;
                    self.current = self.current + PAGE_SIZE;
                }
            },
        }
        Some(ret)
    }

    /// Returns a frame to the free list.  Freeing an address that is
    /// already on the list is a caller fault and excluded.
    pub fn dealloc(&mut self, value: usize)
        requires
            old(self).wf(),
            !old(self).free_list@.contains(value),
        ensures
            final(self).wf(),
            final(self).free_list@ == old(self).free_list@.push(value),
            final(self).current == old(self).current,
            final(self).end == old(self).end,
    {
        self.free_list.push(value);
    }
}

/// Sets the region the allocator bumps through: `size` bytes starting at
/// `start`.
pub fn init(allocator: &mut FreeListAllocator, start: usize, size: usize)
    requires
        start + size + PAGE_SIZE <= usize::MAX,
    ensures
        final(allocator).wf(),
        final(allocator).current == start,
        final(allocator).end == start + size,
        final(allocator).free_list@ == old(allocator).free_list@,
{
    allocator.current = start;
    allocator.end = start + size;
}

/// One page of physical memory: its start address and a model of its
/// bytes.
#[derive(Clone, Debug)]
pub struct PhysFrame {
    /// Physical address of the page's first byte.
    pub start_pa: usize,
    /// The page's contents.
    pub bytes: Vec<u8>,
}

impl PhysFrame {
    /// The frame holds exactly one page of bytes.
    pub open spec fn wf(self) -> bool {
        self.bytes@.len() == PAGE_SIZE
    }

    /// The physical address of the frame's first byte.
    pub fn start_pa(&self) -> (r: PhysAddr)
        ensures
            r == PhysAddr(self.start_pa),
    {
        PhysAddr(self.start_pa)
    }

    /// The physical address one past the frame's last byte.
    pub fn end_pa(&self) -> (r: PhysAddr)
        requires
            self.start_pa + PAGE_SIZE <= usize::MAX,
        ensures
            r == PhysAddr((self.start_pa + PAGE_SIZE) as usize),
    {
        PhysAddr(self.start_pa + PAGE_SIZE)
    }

    /// Allocates one frame from the allocator; its contents start zeroed in
    /// this model, though only `alloc_zero` promises that.
    pub fn allocate(allocator: &mut FreeListAllocator) -> (r: Option<Self>)
        requires
            old(allocator).wf(),
        ensures
            final(allocator).wf(),
            r is Some,
            r matches Some(f) ==> f.wf() && allocates(*old(allocator), *final(allocator), f.start_pa),
    {
        match allocator.allocate() {
            Some(pa) => Some(PhysFrame { start_pa: pa, bytes: zeroed_bytes(PAGE_SIZE) }),
            None => None,
        }
    }

    /// Returns the frame at `pa` to the allocator.
    pub fn dealloc(allocator: &mut FreeListAllocator, pa: usize)
        requires
            old(allocator).wf(),
            !old(allocator).free_list@.contains(pa),
        ensures
            final(allocator).wf(),
            final(allocator).free_list@ == old(allocator).free_list@.push(pa),
            final(allocator).current == old(allocator).current,
            final(allocator).end == old(allocator).end,
    {
        allocator.dealloc(pa)
    }

    /// Allocates one frame and zeroes it.
    pub fn alloc_zero(allocator: &mut FreeListAllocator) -> (r: Option<Self>)
        requires
            old(allocator).wf(),
        ensures
            final(allocator).wf(),
            r is Some,
            r matches Some(f) ==> {
                &&& f.wf()
                &&& allocates(*old(allocator), *final(allocator), f.start_pa)
                &&& forall|i: int| 0 <= i < PAGE_SIZE ==> f.bytes@[i] == 0u8
            },
    {
        match Self::allocate(allocator) {
            Some(mut f) => {
                f.zero();
                Some(f)
            },
            None => None,
        }
    }

    /// Zeroes the frame's bytes.
    pub fn zero(&mut self)
        requires
            old(self).wf(),
        ensures
            final(self).wf(),
            final(self).start_pa == old(self).start_pa,
            forall|i: int| 0 <= i < PAGE_SIZE ==> final(self).bytes@[i] == 0u8,
    {
        self.bytes = zeroed_bytes(PAGE_SIZE);
    }
}

} // verus!
