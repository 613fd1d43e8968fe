//! Layout constants of the kernel and the position of each kernel stack.

use vstd::prelude::*;

verus! {

/// Size of a user stack.
pub const USER_STACK_SIZE: usize = 4096 * 2;

/// Size of a kernel stack.
pub const KERNEL_STACK_SIZE: usize = 4096 * 2;

/// At most sixteen applications are supported.
pub const MAX_APP_NUM: usize = 16;

/// Base address at which a batch application is loaded.
pub const APP_BASE_ADDRESS: usize = 0x80400000;

/// Size limit of each batch application.
pub const APP_SIZE_LIMIT: usize = 0x20000;

/// Size of the kernel heap.
pub const KERNEL_HEAP_SIZE: usize = 0x30_0000;

/// Size of a page.
pub const PAGE_SIZE: usize = 0x1000;

/// Number of bits of an offset inside a page.
pub const PAGE_SIZE_BITS: usize = 0xc;

/// Start of the trampoline page: the highest page of the address space.
pub const TRAMPOLINE: usize = usize::MAX - PAGE_SIZE + 1;

/// Start of the page that holds an application's trap context.
pub const TRAP_CONTEXT: usize = TRAMPOLINE - PAGE_SIZE;

/// Clock frequency of the board.
pub const CLOCK_FREQ: usize = 1250000;

/// End of physical memory on the board.
pub const MEMORY_END: usize = 0x8800_0000;

/// Top of the kernel stack of application `app_id`: stacks grow down from
/// the trampoline, each followed by a guard page.
pub open spec fn kernel_stack_top(app_id: int) -> int {
    TRAMPOLINE - app_id * (KERNEL_STACK_SIZE + PAGE_SIZE)
}

/// Bottom of the kernel stack of application `app_id`.
pub open spec fn kernel_stack_bottom(app_id: int) -> int {
    kernel_stack_top(app_id) - KERNEL_STACK_SIZE
}

/// Whether the kernel stack of `app_id` lies inside the address space.
pub open spec fn kernel_stack_fits(app_id: int) -> bool {
    0 <= app_id && kernel_stack_bottom(app_id) >= 0
}

/// Returns the bottom and the top of the kernel stack of `app_id`.
pub fn kernel_stack_position(app_id: usize) -> (r: (usize, usize))
    requires
        kernel_stack_fits(app_id as int),
    ensures
        r.0 == kernel_stack_bottom(app_id as int),
        r.1 == kernel_stack_top(app_id as int),
{
    let top = TRAMPOLINE - app_id * (KERNEL_STACK_SIZE + PAGE_SIZE);
    let bottom = top - KERNEL_STACK_SIZE;
    (bottom, top)
}

/// Each kernel stack is exactly `KERNEL_STACK_SIZE` bytes, and the stacks of
/// two distinct applications never overlap: between them lies at least one
/// unmapped guard page.
pub proof fn kernel_stacks_disjoint(a: int, b: int)
    requires
        kernel_stack_fits(a),
        kernel_stack_fits(b),
        a < b,
    ensures
        kernel_stack_top(a) - kernel_stack_bottom(a) == KERNEL_STACK_SIZE,
        kernel_stack_top(b) + PAGE_SIZE <= kernel_stack_bottom(a),
{
}

/// The first kernel stack tops at the trampoline, each next one tops a
/// stack and a guard page (0x3000 bytes) lower, and each is 0x2000 bytes.
pub proof fn kernel_stack_layout(app_id: int)
    ensures
        kernel_stack_top(0) == TRAMPOLINE,
        kernel_stack_top(app_id) - kernel_stack_top(app_id + 1) == 0x3000,
        kernel_stack_top(app_id) - kernel_stack_bottom(app_id) == 0x2000,
        kernel_stack_top(app_id) == TRAMPOLINE - 0x3000 * app_id,
{
}

} // verus!
