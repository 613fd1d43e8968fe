//! The registers saved when a trap enters the kernel from user mode.

use vstd::prelude::*;

verus! {

/// Saved user state: the general registers, the `sstatus` register as raw
/// bits, and the address to resume at.
#[derive(Clone, Copy)]
pub struct TrapContext {
    /// General registers `x0`..`x31`.
    pub x: [usize; 32],
    /// The `sstatus` register, as raw bits.
    pub sstatus: usize,
    /// The `sepc` register: where user code resumes.
    pub sepc: usize,
}

/// Bit of `sstatus` that holds the previous privilege mode (SPP); clear
/// means user mode.
pub const SSTATUS_SPP: usize = 0x100;

/// Bits of `sstatus` that the register holds: those of 32-bit RISC-V where
/// `usize` has 32 bits (the crate defines this mask for riscv32 only, and
/// its 64-bit mask does not fit a 32-bit `usize`), else those of 64-bit
/// RISC-V.
pub open spec fn sstatus_mask() -> u64 {
    if usize::BITS == 32 {
        0x800d_e762
    } else {
        0x8000_0003_000d_e762
    }
}

/// The `sstatus` value with previous privilege mode user, made from the
/// register's bits `bits`: the legal bits kept, SPP cleared.
pub open spec fn user_mode_sstatus(bits: usize) -> usize {
    ((bits as u64) & !0x100u64 & sstatus_mask()) as usize
}

/// Turns raw `sstatus` bits into the value whose previous privilege mode is
/// user, through `riscv::register::sstatus::Sstatus::set_spp`, which only
/// edits the in-memory value: the crate keeps the legal bits of the
/// register (`Sstatus::from_bits`, `Sstatus::bits`, which mask with the
/// width's legal bits) and clears SPP (bit 8).
#[verifier::external_body]
fn sstatus_with_user_spp(bits: usize) -> (r: usize)
    ensures
        r == user_mode_sstatus(bits),
{
    let mut s = riscv::register::sstatus::Sstatus::from_bits(bits);
    s.set_spp(riscv::register::sstatus::SPP::User);
    s.bits()
}

impl TrapContext {
    /// Sets the user stack pointer (`x2`).
    pub fn set_sp(&mut self, sp: usize)
        ensures
            final(self).x@ == old(self).x@.update(2, sp),
            final(self).sstatus == old(self).sstatus,
            final(self).sepc == old(self).sepc,
    {
        self.x[2] = sp;
    }

    /// The context in which an application starts: every register zero but
    /// the stack pointer `sp`, resuming at `entry` in user mode. `sstatus`
    /// is the register's current value, which gives every field but the
    /// previous privilege mode, which becomes user.
    pub fn app_init_context(entry: usize, sp: usize, sstatus: usize) -> (r: Self)
        ensures
            r.x[2] == sp,
            forall|i: int| 0 <= i < 32 && i != 2 ==> #[trigger] r.x[i] == 0,
            r.sepc == entry,
            r.sstatus == user_mode_sstatus(sstatus),
            r.sstatus & SSTATUS_SPP == 0,
    {
        let ghost raw = sstatus;
        let sstatus = sstatus_with_user_spp(sstatus);
        let ghost m = sstatus_mask();
        assert(((raw as u64) & !0x100u64 & m) as usize & 0x100usize == 0usize) by (bit_vector);
        let mut cx = TrapContext {
            x: [
                0, 0, 0, 0, 0, 0, 0, 0, 0, 0, 0, 0, 0, 0, 0, 0,
                0, 0, 0, 0, 0, 0, 0, 0, 0, 0, 0, 0, 0, 0, 0, 0,
            ],
            sstatus,
            sepc: entry,
        };
        cx.set_sp(sp);
        cx
    }
}

/// Setting user mode clears SPP (bit 8) and sets no bit that was not set;
/// on a 64-bit target it keeps every legal bit (SIE, SPIE, UBE, VS, FS, XS,
/// SUM, MXR, UXL and SD) as it was.
pub proof fn user_mode_sstatus_bits(bits: usize)
    ensures
        user_mode_sstatus(bits) & 0x100 == 0,
        user_mode_sstatus(bits) & !bits == 0,
        usize::BITS == 64 ==> user_mode_sstatus(bits) as u64 == (bits as u64) & 0x8000_0003_000d_e662u64,
{
    let b = bits as u64;
    let m = sstatus_mask();
    assert((((b & !0x100u64 & m) as usize) & 0x100usize) == 0usize) by (bit_vector);
    assert((((b & !0x100u64 & m) as usize) & !((b as usize))) == 0usize) by (bit_vector);
    assert(bits as u64 as usize == bits);
    if usize::BITS == 64 {
        assert(m == 0x8000_0003_000d_e762u64);
        assert(((b & !0x100u64 & 0x8000_0003_000d_e762u64) as usize) as u64 == b & !0x100u64 & 0x8000_0003_000d_e762u64) by (bit_vector)
            requires usize::BITS == 64;
        assert(b & !0x100u64 & 0x8000_0003_000d_e762u64 == b & 0x8000_0003_000d_e662u64) by (bit_vector);
    }
}

} // verus!
