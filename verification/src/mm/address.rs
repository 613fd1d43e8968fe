//! Physical page numbers and the rounding of physical addresses to pages.

use vstd::prelude::*;
use crate::config::PAGE_SIZE;

verus! {

/// Number of a physical page: its address divided by the page size.
#[derive(Clone, Copy, Debug, PartialEq, Eq, Structural)]
pub struct PhysPageNum(pub usize);

/// The page that holds address `addr`.
pub open spec fn page_floor(addr: int) -> int {
    addr / (PAGE_SIZE as int)
}

/// The first page that starts at or above address `addr`.
pub open spec fn page_ceil(addr: int) -> int {
    (addr + PAGE_SIZE - 1) / (PAGE_SIZE as int)
}

/// Rounds a physical address down to the page that holds it.
pub fn phys_addr_floor(addr: usize) -> (r: PhysPageNum)
    ensures
        r.0 == page_floor(addr as int),
{
    PhysPageNum(addr / PAGE_SIZE)
}

/// Rounds a physical address up to the first page boundary at or above it.
pub fn phys_addr_ceil(addr: usize) -> (r: PhysPageNum)
    ensures
        r.0 == page_ceil(addr as int),
{
    if addr == 0 {
        PhysPageNum(0)
    } else {
        let q = (addr - 1) / PAGE_SIZE;
        assert(q + 1 == (addr + 4095) / 4096) by (nonlinear_arith)
            requires
                q == (addr - 1) / 4096,
                addr >= 1,
        ;
        assert(q + 1 <= usize::MAX) by (nonlinear_arith)
            requires
                q == (addr - 1) / 4096,
                addr >= 1,
                addr <= usize::MAX,
        ;
        PhysPageNum(q + 1)
    }
}

/// Rounding to pages: the page that holds `addr` starts at or below it and
/// ends above it, and the page rounded up to starts at or above `addr` and
/// no more than a page above it.
pub proof fn page_rounding_bounds(addr: int)
    requires
        addr >= 0,
    ensures
        4096 * page_floor(addr) <= addr < 4096 * (page_floor(addr) + 1),
        addr <= 4096 * page_ceil(addr) < addr + 4096,
        page_floor(addr) <= page_ceil(addr) <= page_floor(addr) + 1,
{
}

} // verus!
