//! The physical frame allocator: a stack of recycled frames on top of a
//! bump pointer over a contiguous range of pages.

use vstd::prelude::*;
use crate::config::MEMORY_END;
use crate::mm::address::{PhysPageNum, page_ceil, page_floor, phys_addr_ceil, phys_addr_floor};

verus! {

/// The state of a frame allocator, as plain values.
pub struct FrameAllocView {
    /// First page never handed out yet.
    pub current: usize,
    /// End (exclusive) of the managed page range.
    pub end: usize,
    /// Pages handed back, the last one on top.
    pub recycled: Seq<usize>,
}

/// `Some(p)` becomes `Some(PhysPageNum(p))`.
pub open spec fn option_ppn(o: Option<usize>) -> Option<PhysPageNum> {
    match o {
        Some(p) => Some(PhysPageNum(p)),
        None => None,
    }
}

impl FrameAllocView {
    /// The allocator's invariant: the bump pointer stays in its range, no
    /// page is recycled twice, and every recycled page lies below the bump
    /// pointer (so it was handed out before).
    pub open spec fn wf(self) -> bool {
        &&& self.current <= self.end
        &&& self.recycled.no_duplicates()
        &&& forall|i: int| 0 <= i < self.recycled.len() ==> #[trigger] self.recycled[i] < self.current
    }

    /// The pages that an allocation may hand out.
    pub open spec fn free_frames(self) -> Set<usize> {
        Set::new(|p: usize| self.recycled.contains(p) || (self.current <= p && p < self.end))
    }

    /// Whether `ppn` may be handed back: it was handed out and is not
    /// already recycled.
    pub open spec fn can_dealloc(self, ppn: usize) -> bool {
        ppn < self.current && !self.recycled.contains(ppn)
    }

    /// What an allocation gives and the state it leaves: the most recently
    /// recycled page if there is one, else the next page of the range, else
    /// nothing.
    pub open spec fn alloc_result(self) -> (Option<usize>, FrameAllocView) {
        if self.recycled.len() > 0 {
            (
                Some(self.recycled.last()),
                FrameAllocView {
                    current: self.current,
                    end: self.end,
                    recycled: self.recycled.drop_last(),
                },
            )
        } else if self.current == self.end {
            (None, self)
        } else {
            (
                Some(self.current),
                FrameAllocView {
                    current: (self.current + 1) as usize,
                    end: self.end,
                    recycled: self.recycled,
                },
            )
        }
    }

    /// The state that handing back `ppn` leaves.
    pub open spec fn dealloc_result(self, ppn: usize) -> FrameAllocView {
        FrameAllocView { current: self.current, end: self.end, recycled: self.recycled.push(ppn) }
    }
}

/// An allocation keeps the allocator's invariant.
pub proof fn alloc_keeps_wf(s: FrameAllocView)
    requires
        s.wf(),
    ensures
        s.alloc_result().1.wf(),
{
    let t = s.alloc_result().1;
    if s.recycled.len() > 0 {
        assert forall|i: int, j: int|
            0 <= i < t.recycled.len() && 0 <= j < t.recycled.len() && i != j implies t.recycled[i]
            != t.recycled[j] by {
            assert(t.recycled[i] == s.recycled[i]);
            assert(t.recycled[j] == s.recycled[j]);
        }
        assert forall|i: int| 0 <= i < t.recycled.len() implies #[trigger] t.recycled[i]
            < t.current by {
            assert(t.recycled[i] == s.recycled[i]);
        }
    }
}

/// Allocating hands out a free page and takes exactly that page out of the
/// free set; it fails only when no page is free, and then changes nothing.
pub proof fn alloc_takes_a_free_frame(s: FrameAllocView)
    requires
        s.wf(),
    ensures
        match s.alloc_result() {
            (Some(p), t) => s.free_frames().contains(p) && t.free_frames() == s.free_frames().remove(p),
            (None, t) => s.free_frames().is_empty() && t == s,
        },
{
    let (r, t) = s.alloc_result();
    if s.recycled.len() > 0 {
        let n = s.recycled.len() - 1;
        let p = s.recycled[n];
        assert(s.recycled.contains(p));
        assert forall|q: usize| t.free_frames().contains(q) implies s.free_frames().remove(p).contains(q) by {
            if t.recycled.contains(q) {
                let k = choose|k: int| 0 <= k < t.recycled.len() && t.recycled[k] == q;
                assert(s.recycled[k] == q);
                assert(k != n);
            }
        }
        assert forall|q: usize| s.free_frames().remove(p).contains(q) implies t.free_frames().contains(q) by {
            if s.recycled.contains(q) {
                let k = choose|k: int| 0 <= k < s.recycled.len() && s.recycled[k] == q;
                assert(k != n);
                assert(t.recycled[k] == q);
            }
        }
        assert(t.free_frames() =~= s.free_frames().remove(p));
    } else if s.current == s.end {
        assert(s.free_frames() =~= Set::empty());
    } else {
        assert(t.free_frames() =~= s.free_frames().remove(s.current));
    }
}

/// With no page recycled, allocation hands out the lowest free page, so the
/// range is handed out in ascending order; with pages recycled, it hands
/// out the one handed back last.
pub proof fn alloc_order(s: FrameAllocView)
    requires
        s.wf(),
    ensures
        s.recycled.len() == 0 && s.alloc_result().0 is Some ==> {
            let p = s.alloc_result().0.unwrap();
            &&& p == s.current
            &&& forall|q: usize| #[trigger] s.free_frames().contains(q) ==> p <= q
        },
        s.recycled.len() > 0 ==> s.alloc_result().0 == Some(s.recycled[s.recycled.len() - 1]),
{
}

/// Handing back a page that was handed out keeps the invariant and puts
/// exactly that page back into the free set.
pub proof fn dealloc_frees_the_frame(s: FrameAllocView, ppn: usize)
    requires
        s.wf(),
        s.can_dealloc(ppn),
    ensures
        !s.free_frames().contains(ppn),
        s.dealloc_result(ppn).wf(),
        s.dealloc_result(ppn).free_frames() == s.free_frames().insert(ppn),
{
    let t = s.dealloc_result(ppn);
    assert forall|i: int| 0 <= i < t.recycled.len() implies #[trigger] t.recycled[i] < t.current by {
        if i < s.recycled.len() {
            assert(t.recycled[i] == s.recycled[i]);
        }
    }
    assert forall|i: int, j: int|
        0 <= i < t.recycled.len() && 0 <= j < t.recycled.len() && i != j implies t.recycled[i]
        != t.recycled[j] by {
        if i < s.recycled.len() && j < s.recycled.len() {
        } else if i < s.recycled.len() {
            assert(s.recycled.contains(s.recycled[i]));
        } else {
            assert(s.recycled.contains(s.recycled[j]));
        }
    }
    assert forall|q: usize| t.free_frames().contains(q) implies s.free_frames().insert(ppn).contains(q) by {
        if t.recycled.contains(q) {
            let k = choose|k: int| 0 <= k < t.recycled.len() && t.recycled[k] == q;
            if k < s.recycled.len() {
                assert(s.recycled[k] == q);
            }
        }
    }
    assert forall|q: usize| s.free_frames().insert(ppn).contains(q) implies t.free_frames().contains(q) by {
        if q == ppn {
            assert(t.recycled[s.recycled.len() as int] == ppn);
        } else if s.recycled.contains(q) {
            let k = choose|k: int| 0 <= k < s.recycled.len() && s.recycled[k] == q;
            assert(t.recycled[k] == q);
        }
    }
    assert(t.free_frames() =~= s.free_frames().insert(ppn));
}

/// Handing a page back and allocating again gives that same page back and
/// restores the allocator's state.
pub proof fn dealloc_then_alloc(s: FrameAllocView, ppn: usize)
    requires
        s.wf(),
        s.can_dealloc(ppn),
    ensures
        s.dealloc_result(ppn).alloc_result() == (Some(ppn), s),
{
    assert(s.recycled.push(ppn).drop_last() =~= s.recycled);
}

/// Two allocations in a row never hand out the same page.
pub proof fn consecutive_allocs_distinct(s: FrameAllocView)
    requires
        s.wf(),
    ensures
        ({
            let (a, t) = s.alloc_result();
            let (b, u) = t.alloc_result();
            a is Some && b is Some ==> a != b
        }),
{
    alloc_keeps_wf(s);
    alloc_takes_a_free_frame(s);
    let t = s.alloc_result().1;
    alloc_takes_a_free_frame(t);
}

/// The state after `k` allocations in a row.
pub open spec fn after_allocs(s: FrameAllocView, k: nat) -> FrameAllocView
    decreases k,
{
    if k == 0 {
        s
    } else {
        after_allocs(s, (k - 1) as nat).alloc_result().1
    }
}

/// Allocations keep the invariant and only ever shrink the free set.
pub proof fn allocs_shrink_free_set(s: FrameAllocView, k: nat)
    requires
        s.wf(),
    ensures
        after_allocs(s, k).wf(),
        after_allocs(s, k).free_frames().subset_of(s.free_frames()),
    decreases k,
{
    if k > 0 {
        let prev = after_allocs(s, (k - 1) as nat);
        allocs_shrink_free_set(s, (k - 1) as nat);
        alloc_keeps_wf(prev);
        alloc_takes_a_free_frame(prev);
    }
}

/// A page, once handed out, is never handed out again until it is handed
/// back: however many allocations follow, none of them returns it.
pub proof fn allocated_frame_not_reissued(s: FrameAllocView, k: nat)
    requires
        s.wf(),
        s.alloc_result().0 is Some,
    ensures
        after_allocs(s.alloc_result().1, k).alloc_result().0 != s.alloc_result().0,
{
    let p = s.alloc_result().0.unwrap();
    let t = s.alloc_result().1;
    alloc_keeps_wf(s);
    alloc_takes_a_free_frame(s);
    allocs_shrink_free_set(t, k);
    let u = after_allocs(t, k);
    alloc_takes_a_free_frame(u);
    assert(!t.free_frames().contains(p));
}

/// A frame allocator over a contiguous range of physical pages; freed pages
/// are reused first, most recently freed first.
pub struct StackFrameAllocator {
    current: usize,
    end: usize,
    recycled: Vec<usize>,
}

impl View for StackFrameAllocator {
    type V = FrameAllocView;

    closed spec fn view(&self) -> FrameAllocView {
        FrameAllocView { current: self.current, end: self.end, recycled: self.recycled@ }
    }
}

impl StackFrameAllocator {
    /// An allocator over the empty range.
    pub fn new() -> (r: Self)
        ensures
            r@.current == 0,
            r@.end == 0,
            r@.recycled == Seq::<usize>::empty(),
            r@.wf(),
    {
        StackFrameAllocator { current: 0, end: 0, recycled: Vec::new() }
    }

    /// Sets the managed range to the pages `start` up to `end` (exclusive);
    /// recycled pages stay. The invariant holds afterwards where the range
    /// is not reversed and every recycled page lies below `start` (as on a
    /// fresh allocator).
    pub fn init(&mut self, start: PhysPageNum, end: PhysPageNum)
        ensures
            final(self)@.current == start.0,
            final(self)@.end == end.0,
            final(self)@.recycled == old(self)@.recycled,
            start.0 <= end.0 && old(self)@.recycled.no_duplicates() && (forall|i: int|
                0 <= i < old(self)@.recycled.len() ==> #[trigger] old(self)@.recycled[i]
                    < start.0) ==> final(self)@.wf(),
    {
        self.current = start.0;
        self.end = end.0;
    }

    /// Hands out a page: the most recently freed one if any, else the next
    /// page of the range, else `None`.
    pub fn alloc_frame(&mut self) -> (r: Option<PhysPageNum>)
        requires
            old(self)@.wf(),
        ensures
            r == option_ppn(old(self)@.alloc_result().0),
            final(self)@ == old(self)@.alloc_result().1,
            final(self)@.wf(),
    {
        proof {
            alloc_keeps_wf(self@);
        }
        if let Some(ppn) = self.recycled.pop() {
            assert(self.recycled@ =~= old(self)@.recycled.drop_last());
            Some(PhysPageNum(ppn))
        } else if self.current == self.end {
            None
        } else {
            self.current += 1;
            Some(PhysPageNum(self.current - 1))
        }
    }

    /// Hands page `ppn` back to the allocator.
    pub fn dealloc(&mut self, ppn: PhysPageNum)
        requires
            old(self)@.wf(),
            old(self)@.can_dealloc(ppn.0),
        ensures
            final(self)@ == old(self)@.dealloc_result(ppn.0),
            final(self)@.wf(),
    {
        proof {
            dealloc_frees_the_frame(self@, ppn.0);
        }
        self.recycled.push(ppn.0);
    }
    /// Whether page `ppn` may be handed back: it lies below the bump
    /// pointer and is not recycled already.
    pub fn can_dealloc(&self, ppn: PhysPageNum) -> (r: bool)
        ensures
            r == self@.can_dealloc(ppn.0),
    {
        if ppn.0 >= self.current {
            return false;
        }
        let mut i: usize = 0;
        while i < self.recycled.len()
            invariant
                i <= self.recycled@.len(),
                forall|k: int| 0 <= k < i ==> #[trigger] self.recycled@[k] != ppn.0,
            decreases self.recycled@.len() - i,
        {
            if self.recycled[i] == ppn.0 {
                assert(self.recycled@[i as int] == ppn.0);
                return false;
            }
            i += 1;
        }
        true
    }
}

/// An allocated physical page. The page's bytes are cleared by whoever
/// owns the physical memory when the tracker is made.
pub struct FrameTracker {
    pub ppn: PhysPageNum,
}

impl FrameTracker {
    /// Tracks page `ppn`.
    pub fn new(ppn: PhysPageNum) -> (r: Self)
        ensures
            r.ppn == ppn,
    {
        FrameTracker { ppn }
    }

    /// The tracked page.
    pub fn ppn(&self) -> (r: PhysPageNum)
        ensures
            r == self.ppn,
    {
        self.ppn
    }
}

/// The page range that the frame allocator manages: from the first page
/// above the kernel's image up to the end of physical memory.
pub open spec fn frame_range(kernel_end: usize) -> (int, int) {
    (page_ceil(kernel_end as int), page_floor(MEMORY_END as int))
}

/// Points `allocator` at the pages between the end of the kernel's image,
/// `kernel_end`, and the end of physical memory. The invariant holds
/// afterwards where the image ends within memory and every recycled page
/// lies below the first page above it (as on a fresh allocator).
pub fn init_frame_allocator(allocator: &mut StackFrameAllocator, kernel_end: usize)
    ensures
        final(allocator)@.current == frame_range(kernel_end).0,
        final(allocator)@.end == frame_range(kernel_end).1,
        final(allocator)@.recycled == old(allocator)@.recycled,
        kernel_end <= MEMORY_END && old(allocator)@.recycled.no_duplicates() && (forall|i: int|
            0 <= i < old(allocator)@.recycled.len() ==> #[trigger] old(allocator)@.recycled[i]
                < page_ceil(kernel_end as int)) ==> final(allocator)@.wf(),
{
    let start = phys_addr_ceil(kernel_end);
    let end = phys_addr_floor(MEMORY_END);
    if kernel_end <= MEMORY_END {
        assert(start.0 <= end.0) by (nonlinear_arith)
            requires
                start.0 == (kernel_end + 4095) / 4096,
                end.0 == 0x8800_0000int / 4096,
                kernel_end <= 0x8800_0000,
        ;
    }
    allocator.init(start, end);
}

/// Allocates a page and tracks it.
pub fn frame_alloc(allocator: &mut StackFrameAllocator) -> (r: Option<FrameTracker>)
    requires
        old(allocator)@.wf(),
    ensures
        final(allocator)@ == old(allocator)@.alloc_result().1,
        final(allocator)@.wf(),
        match r {
            Some(t) => option_ppn(old(allocator)@.alloc_result().0) == Some(t.ppn),
            None => old(allocator)@.alloc_result().0 is None,
        },
{
    match allocator.alloc_frame() {
        Some(ppn) => Some(FrameTracker::new(ppn)),
        None => None,
    }
}

/// Hands page `ppn` back.
pub fn frame_dealloc(allocator: &mut StackFrameAllocator, ppn: PhysPageNum)
    requires
        old(allocator)@.wf(),
        old(allocator)@.can_dealloc(ppn.0),
    ensures
        final(allocator)@ == old(allocator)@.dealloc_result(ppn.0),
        final(allocator)@.wf(),
{
    allocator.dealloc(ppn);
}

} // verus!
