//! The guest register file and cache-exit protocol shared by the translator,
//! the trampolines, and the run loop.
//!
//! The one place Linux and Windows hosts diverge is which segment register
//! carries the [`ThreadState`] pointer. On Linux the context is reached through
//! `gs` and the guest's `fs` base is virtualized; on Windows `gs` is the
//! thread's TEB and cannot be repurposed, so the context is reached through
//! `fs` and the guest's `gs` base is virtualized instead. The `*_fs_base` and
//! `fs_is_guest` slots name the virtualized-segment state generically: they
//! hold the guest's `gs` values on a Windows host.

use vstd::prelude::*;

use crate::bytes::le32;

verus! {

/// A block exited the cache at an ordinary basic-block boundary.
pub const EXIT_KIND_BLOCK: u64 = 0;

/// A block exited on a guest `syscall`: the run loop invokes the embedder's
/// handler before re-entering.
pub const EXIT_KIND_SYSCALL: u64 = 1;

/// A guest breakpoint (`int3`) exited the cache.
pub const EXIT_KIND_TRAP: u64 = 2;

/// Size of the XSAVE area in [`ThreadState::fpstate`]. The standard (non-
/// compacted) XSAVE layout for x87+SSE+AVX+AVX-512 ends at architecturally
/// fixed offsets totaling ~2688 bytes; this leaves comfortable margin.
pub const XSAVE_AREA_SIZE: usize = 4096;

/// `rax`'s index in [`ThreadState::regs`].
pub const RAX: usize = 0;

/// `rdx`'s index in [`ThreadState::regs`].
pub const RDX: usize = 3;

/// `rsp`'s index in [`ThreadState::regs`].
pub const RSP: usize = 7;

/// `r8`'s index in [`ThreadState::regs`].
pub const R8: usize = 8;

/// `r9`'s index in [`ThreadState::regs`].
pub const R9: usize = 9;

/// `r10`'s index in [`ThreadState::regs`].
pub const R10: usize = 10;

/// The `rflags` of a fresh thread: the reserved bit (0x2) and the interrupt
/// flag (0x200).
pub const FRESH_RFLAGS: u64 = 0x202;

/// Where `MXCSR` starts in the XSAVE area.
pub const MXCSR_OFFSET: usize = 24;

/// The ABI-default `MXCSR`: all SSE exceptions masked.
pub const DEFAULT_MXCSR: u32 = 0x1f80;

/// Guest register file plus a few bookkeeping slots.
#[derive(Debug)]
pub struct ThreadState {
    /// Guest GPRs: rax, rbx, rcx, rdx, rsi, rdi, rbp, rsp, r8..r15.
    pub regs: [u64; 16],
    /// Guest program counter; set on exit, read on entry.
    pub rip: u64,
    /// Guest rflags; set on exit, read on entry.
    pub rflags: u64,
    /// The runtime's stack pointer, saved on entry and restored on exit.
    pub chimera_rsp: u64,
    /// Host PC for the next entry.
    pub host_pc_target: u64,
    /// Why the last exit happened. Read by the run loop after every entry,
    /// reset to [`EXIT_KIND_BLOCK`] before each entry.
    pub exit_kind: u64,
    /// Guest's virtualized-segment base (`fs` on Linux, `gs` on Windows).
    pub guest_fs_base: u64,
    /// The runtime's own base for the virtualized segment, captured on the
    /// host thread immediately before guest execution starts.
    pub chimera_fs_base: u64,
    /// Host address of the shared inline indirect-branch lookup routine in the
    /// code cache; set once per run before the loop.
    pub ib_lookup: u64,
    /// Scratch slots used only by the inline indirect-branch lookup routine:
    /// the guest's flags, the branch target, the borrowed rcx/rdx, and the
    /// resolved host PC.
    pub ib_flags: u64,
    pub ib_target: u64,
    pub ib_rcx: u64,
    pub ib_rdx: u64,
    pub ib_host: u64,
    /// Asynchronous-exit flag polled by translated code at loop-closing edges.
    pub exit_requested: u32,
    /// Whether the physical FP/SIMD registers currently hold this thread's
    /// guest state; only 0 and 1 are ever stored.
    pub fp_in_regs: u32,
    /// Scratch slot the block prologue uses to park the guest's status flags.
    pub fp_flags: u64,
    /// Scratch slot the block prologue uses to park the guest's rdx.
    pub fp_scratch: u64,
    /// XSAVE area for the guest's extended FP/SIMD state (x87, SSE, AVX,
    /// AVX-512). The canonical copy whenever no translated code is running.
    pub fpstate: [u8; XSAVE_AREA_SIZE],
    /// Whether the virtualized-segment base currently holds the guest's base.
    pub fs_is_guest: u64,
    /// Address of this thread's pending-signal set.
    pub pending_set: u64,
    /// The kernel TID of the host thread backing this guest thread.
    pub tid: i32,
    /// Save slot for the register a far-RIP-relative rewrite borrows.
    pub riprel_scratch: u64,
}

/// The FP save area of a fresh thread: zero but for the default `MXCSR`,
/// little-endian in its place.
pub open spec fn fresh_fpstate() -> Seq<u8> {
    Seq::new(
        XSAVE_AREA_SIZE as nat,
        |i: int|
            if i == MXCSR_OFFSET {
                0x80
            } else if i == MXCSR_OFFSET + 1 {
                0x1f
            } else {
                0
            },
    )
}

/// Whether `ts` is a register file for a guest entering at `rip` with stack
/// pointer `rsp` and virtualized-segment base `seg_base`, and everything else
/// as a fresh thread has it.
pub open spec fn is_fresh(ts: ThreadState, rip: u64, rsp: u64, seg_base: u64) -> bool {
    &&& ts.regs@ == Seq::new(
        16,
        |i: int|
            if i == RSP {
                rsp
            } else {
                0
            },
    )
    &&& ts.fpstate@ == fresh_fpstate()
    &&& ts == (ThreadState {
        regs: ts.regs,
        rip,
        rflags: FRESH_RFLAGS,
        chimera_rsp: 0,
        host_pc_target: 0,
        exit_kind: EXIT_KIND_BLOCK,
        guest_fs_base: seg_base,
        chimera_fs_base: 0,
        ib_lookup: 0,
        ib_flags: 0,
        ib_target: 0,
        ib_rcx: 0,
        ib_rdx: 0,
        ib_host: 0,
        exit_requested: 0,
        fp_in_regs: 0,
        fp_flags: 0,
        fp_scratch: 0,
        fpstate: ts.fpstate,
        fs_is_guest: 0,
        pending_set: 0,
        tid: 0,
        riprel_scratch: 0,
    })
}

impl ThreadState {
    /// A fresh register file for a guest entering at `rip` with stack pointer
    /// `rsp` and virtualized-segment base `seg_base` (the guest's `fs` base on
    /// Linux, `gs`/TEB base on Windows). Every other register is zero, the
    /// flags carry the reserved bit and interrupt flag a fresh thread has, and
    /// the FP save area is seeded so the first `XRSTOR` loads the ABI-default
    /// `MXCSR` (all SSE exceptions masked) rather than an all-zero word that
    /// would fault ordinary float math.
    pub fn fresh(rip: u64, rsp: u64, seg_base: u64) -> (ts: Box<Self>)
        ensures
            is_fresh(*ts, rip, rsp, seg_base),
            le32(ts.fpstate@, MXCSR_OFFSET as int) == DEFAULT_MXCSR,
    {
        let mut regs: [u64; 16] = [0u64; 16];
        regs[RSP] = rsp;
        let mut fpstate: [u8; XSAVE_AREA_SIZE] = [0u8; XSAVE_AREA_SIZE];
        fpstate[MXCSR_OFFSET] = (DEFAULT_MXCSR % 0x100) as u8;
        fpstate[MXCSR_OFFSET + 1] = (DEFAULT_MXCSR / 0x100 % 0x100) as u8;
        fpstate[MXCSR_OFFSET + 2] = (DEFAULT_MXCSR / 0x1_0000 % 0x100) as u8;
        fpstate[MXCSR_OFFSET + 3] = (DEFAULT_MXCSR / 0x100_0000) as u8;
        assert(fpstate@ =~= fresh_fpstate());
        assert(regs@ =~= Seq::new(16, |i: int| if i == RSP { rsp } else { 0 }));
        Box::new(
            ThreadState {
                regs,
                rip,
                rflags: FRESH_RFLAGS,
                chimera_rsp: 0,
                host_pc_target: 0,
                exit_kind: EXIT_KIND_BLOCK,
                guest_fs_base: seg_base,
                chimera_fs_base: 0,
                ib_lookup: 0,
                ib_flags: 0,
                ib_target: 0,
                ib_rcx: 0,
                ib_rdx: 0,
                ib_host: 0,
                exit_requested: 0,
                fp_in_regs: 0,
                fp_flags: 0,
                fp_scratch: 0,
                fpstate,
                fs_is_guest: 0,
                pending_set: 0,
                tid: 0,
                riprel_scratch: 0,
            },
        )
    }
}

} // verus!
