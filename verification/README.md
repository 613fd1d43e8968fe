# os

The verified core of a small RISC-V teaching kernel, written in Verus.

- `src/` is the library: every function there carries a contract that
  Verus proves.
  - `config`: layout constants and the position of each kernel stack (with
    the proof that kernel stacks never overlap).
  - `mm`: physical page numbers and the stack-based frame allocator (free
    set, hand-out and hand-back, and the proofs that no page is handed out
    twice).
  - `task`: task contexts, control blocks with their program break, and the
    round-robin scheduler (next-task choice, at most one running task,
    fairness).
  - `trap`, `syscall`, `timer`: what the kernel does for each trap cause and
    system call, and the timer arithmetic.
  - `batch`, `loader`: where each application's image lies and which one
    runs next.
- `app/` is the kernel around it: boot, SBI calls, control registers, the
  task switch, the trap entry, and the global state. It hands the library
  plain values and carries out the switches and actions the library
  decides.
- `tests/` exercise the library on concrete values.
