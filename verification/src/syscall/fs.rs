//! File-system system calls.

use vstd::prelude::*;

verus! {

/// The file number of standard output.
pub const FD_STDOUT: usize = 1;

/// The value of writing `len` bytes to standard output: all of them are
/// taken, and `len` is returned. Any other file stops the kernel, so it is
/// left out here.
pub fn sys_write(fd: usize, len: usize) -> (r: isize)
    requires
        fd == FD_STDOUT,
    ensures
        r == len as isize,
{
    len as isize
}

} // verus!
