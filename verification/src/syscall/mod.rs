//! System calls: decoding a request from the registers of a trap.

pub mod fs;
pub mod process;

use vstd::prelude::*;

verus! {

/// Number of the `write` system call.
pub const SYS_WRITE: usize = 64;

/// Number of the `exit` system call.
pub const SYS_EXIT: usize = 93;

/// Number of the `yield` system call.
pub const SYS_YIELD: usize = 124;

/// Number of the `get_time` system call.
pub const SYS_GET_TIME: usize = 169;

/// A decoded system call.
#[derive(Clone, Copy, Debug, PartialEq, Eq, Structural)]
pub enum SyscallRequest {
    /// Write `len` bytes at user address `buf` to file `fd`.
    Write { fd: usize, buf: usize, len: usize },
    /// End the calling application with `exit_code`.
    Exit { exit_code: i32 },
    /// Give up the processor; the call returns 0.
    Yield,
    /// Read the time in milliseconds.
    GetTime,
}

/// Whether the kernel serves system call `syscall_id`.
pub open spec fn is_supported_syscall(syscall_id: usize) -> bool {
    syscall_id == SYS_WRITE || syscall_id == SYS_EXIT || syscall_id == SYS_YIELD || syscall_id
        == SYS_GET_TIME
}

/// The request that system call `syscall_id` with arguments `args` makes.
pub open spec fn syscall_request(syscall_id: usize, args: Seq<usize>) -> SyscallRequest
    recommends
        is_supported_syscall(syscall_id),
{
    if syscall_id == SYS_WRITE {
        SyscallRequest::Write { fd: args[0], buf: args[1], len: args[2] }
    } else if syscall_id == SYS_EXIT {
        SyscallRequest::Exit { exit_code: args[0] as i32 }
    } else if syscall_id == SYS_YIELD {
        SyscallRequest::Yield
    } else {
        SyscallRequest::GetTime
    }
}

/// Whether the kernel serves system call `syscall_id`.
pub fn syscall_supported(syscall_id: usize) -> (r: bool)
    ensures
        r == is_supported_syscall(syscall_id),
{
    syscall_id == SYS_WRITE || syscall_id == SYS_EXIT || syscall_id == SYS_YIELD || syscall_id
        == SYS_GET_TIME
}

/// Decodes system call `syscall_id` with arguments `args`; the exit code is
/// the low 32 bits of the first argument. Any other number stops the
/// kernel, so it is left out here.
pub fn syscall(syscall_id: usize, args: [usize; 3]) -> (r: SyscallRequest)
    requires
        is_supported_syscall(syscall_id),
    ensures
        r == syscall_request(syscall_id, args@),
{
    if syscall_id == SYS_WRITE {
        SyscallRequest::Write { fd: args[0], buf: args[1], len: args[2] }
    } else if syscall_id == SYS_EXIT {
        SyscallRequest::Exit { exit_code: args[0] as i32 }
    } else if syscall_id == SYS_YIELD {
        SyscallRequest::Yield
    } else {
        SyscallRequest::GetTime
    }
}

/// The served numbers are exactly 64 (write), 93 (exit), 124 (yield) and
/// 169 (get_time), and decoding passes the arguments through unchanged:
/// write takes its file, buffer and length from `a0`, `a1` and `a2` in that
/// order, exit takes its code from the low 32 bits of `a0` (so a code that
/// fits is kept as it is), and yield and get_time take none.
pub proof fn syscall_decoding(syscall_id: usize, a0: usize, a1: usize, a2: usize)
    ensures
        is_supported_syscall(syscall_id) <==> (syscall_id == 64 || syscall_id == 93 || syscall_id
            == 124 || syscall_id == 169),
        syscall_id == 64 ==> syscall_request(syscall_id, seq![a0, a1, a2]) == (SyscallRequest::Write {
            fd: a0,
            buf: a1,
            len: a2,
        }),
        syscall_id == 93 ==> syscall_request(syscall_id, seq![a0, a1, a2]) == (SyscallRequest::Exit {
            exit_code: a0 as i32,
        }),
        syscall_id == 93 && a0 <= i32::MAX ==> syscall_request(syscall_id, seq![a0, a1, a2])
            == (SyscallRequest::Exit { exit_code: a0 as i32 }) && (a0 as i32) as int == a0 as int,
        syscall_id == 124 ==> syscall_request(syscall_id, seq![a0, a1, a2]) == SyscallRequest::Yield,
        syscall_id == 169 ==> syscall_request(syscall_id, seq![a0, a1, a2]) == SyscallRequest::GetTime,
{
}

} // verus!
