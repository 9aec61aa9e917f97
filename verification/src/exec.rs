//! Guest run entry: the initial thread state of a mapped PE image.
//!
//! A stack whose top holds a null return address (so a top-level `ret` is the
//! clean-exit sentinel the run loop recognizes), a zeroed TEB the guest's `gs`
//! is virtualized onto, and a [`Guest`] with `syscall` interception routed to
//! the embedder.

use vstd::prelude::*;

use crate::image::MappedImage;
use crate::run::{exit_status, proceeds, Action, Guest, Phase, EXIT_SENTINEL};
use crate::space::{AddressSpace, Region};
use crate::state::{is_fresh, RAX};
use crate::syscall::{HookCall, SystemCall};
use crate::vault::Invocation;
use crate::vm::{map_anon, map_anon_call, map_anon_context, Backend, Prot, Request};

verus! {

/// Guest stack size: 8 MiB.
pub const STACK_SIZE: usize = 0x80_0000;

/// Size of the synthetic TEB the guest's `gs` is virtualized onto.
pub const TEB_SIZE: usize = 0x1000;

/// The request that maps the guest's stack.
pub fn map_stack(backend: &Backend) -> (r: Request)
    ensures
        r.spec_call() == map_anon_call(*backend, STACK_SIZE, Prot::ReadWrite),
        r.context() == map_anon_context(*backend),
{
    map_anon(backend, STACK_SIZE, Prot::ReadWrite)
}

/// The request that maps the guest's TEB.
pub fn map_teb(backend: &Backend) -> (r: Request)
    ensures
        r.spec_call() == map_anon_call(*backend, TEB_SIZE, Prot::ReadWrite),
        r.context() == map_anon_context(*backend),
{
    map_anon(backend, TEB_SIZE, Prot::ReadWrite)
}

/// The top of a guest's stack at entry: its stack pointer, and the return
/// address to store there.
#[derive(Clone, Copy, PartialEq, Eq, Debug, Structural)]
pub struct EntryFrame {
    pub rsp: u64,
    pub return_address: u64,
}

/// The entry frame of the stack mapped at `stack`.
pub open spec fn entry_frame_at(stack: u64) -> EntryFrame {
    EntryFrame {
        rsp: ((stack + STACK_SIZE - 16) / 16 * 16) as u64,
        return_address: EXIT_SENTINEL,
    }
}

/// Where the stack mapped at `stack` starts: 16-byte aligned near its top,
/// with the exit sentinel as the top-level return address, so a `ret` with an
/// empty call stack exits cleanly.
pub fn entry_frame(stack: u64) -> (frame: EntryFrame)
    requires
        stack + STACK_SIZE <= u64::MAX,
    ensures
        frame == entry_frame_at(stack),
        frame.rsp % 16 == 0,
        stack <= frame.rsp,
        frame.rsp + 8 <= stack + STACK_SIZE,
{
    let top: u64 = stack + STACK_SIZE as u64 - 16;
    assert(top & !15u64 == top / 16 * 16) by (bit_vector);
    EntryFrame { rsp: top & !15u64, return_address: EXIT_SENTINEL }
}

/// The guest that runs `image` on the stack at `stack` with the TEB at `teb`.
/// Its address space holds those three.
pub fn entry_guest<H>(
    handler: H,
    image: &MappedImage,
    stack: u64,
    teb: u64,
    code_cache_size: usize,
) -> (guest: Guest<H>)
    requires
        stack + STACK_SIZE <= u64::MAX,
    ensures
        is_fresh(*guest.state, image.entry, entry_frame_at(stack).rsp, teb),
        guest.hooks.handler() == handler,
        guest.hooks.calls() == Seq::<HookCall>::empty(),
        guest.hooks.invocations() == Seq::<Invocation<H, SystemCall>>::empty(),
        guest.addr.code_cache_size == code_cache_size,
        guest.addr.regions@ == seq![
            Region { base: image.base, len: image.size },
            Region { base: stack, len: STACK_SIZE },
            Region { base: teb, len: TEB_SIZE },
        ],
        !guest.running,
        guest.exit_code == 0,
        guest.phase == Phase::Idle,
{
    let mut addr = AddressSpace::new(code_cache_size);
    addr.add_region(image.base, image.size);
    addr.add_region(stack, STACK_SIZE);
    addr.add_region(teb, TEB_SIZE);
    assert(addr.regions@ =~= seq![
        Region { base: image.base, len: image.size },
        Region { base: stack, len: STACK_SIZE },
        Region { base: teb, len: TEB_SIZE },
    ]);
    let frame = entry_frame(stack);
    Guest::new(handler, addr, image.entry, frame.rsp, teb)
}

/// A guest that returns to the address its entry frame holds exits cleanly,
/// with `rax` as its status.
pub proof fn law_top_level_return_exits<H>(
    stack: u64,
    before: Guest<H>,
    after: Guest<H>,
    action: Action,
)
    requires
        before.running,
        before.state.rip == entry_frame_at(stack).return_address,
        proceeds(before, after, action),
    ensures
        action == Action::Finish(Ok(after.exit_code)),
        after.exit_code == exit_status(before.state.regs[RAX as int]),
{
}

} // verus!
