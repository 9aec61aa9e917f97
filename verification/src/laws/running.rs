//! Running a guest, register by register.

use vstd::prelude::*;

use crate::error::ErrorView;
use crate::exec::entry_frame_at;
use crate::fault::{recovery, Exception, GuardedCode};
use crate::run::{answers, law_every_run_is_orderly, may_run, may_step, proceeds, services};
use crate::run::{Action, Event, Guest, Phase};
use crate::state::{is_fresh, ThreadState};
use crate::syscall::{HookCall, Hooks, SyscallResult, SystemCall, SystemCalls};

verus! {

/// A guest that reaches address zero with a 32-bit status in `rax`, whatever
/// extends it to 64 bits there, finishes with exactly that status.
pub proof fn law_the_status_is_the_one_in_rax<H>(
    before: Guest<H>,
    after: Guest<H>,
    action: Action,
    status: i32,
    high: int,
)
    requires
        before.running,
        before.state.rip == 0,
        before.state.regs[0] == status + 0x1_0000_0000 * high,
        proceeds(before, after, action),
    ensures
        action == Action::Finish(Ok(status)),
        after.exit_code == status,
        after.state == before.state,
{
}

/// Two guests that reach address zero finish with the same status exactly when
/// the low halves of their `rax` agree.
pub proof fn law_statuses_differ_with_rax<H>(
    before: Guest<H>,
    after: Guest<H>,
    action: Action,
    other_before: Guest<H>,
    other_after: Guest<H>,
    other_action: Action,
)
    requires
        before.running && before.state.rip == 0,
        other_before.running && other_before.state.rip == 0,
        proceeds(before, after, action),
        proceeds(other_before, other_after, other_action),
    ensures
        action == other_action <==> before.state.regs[0] % 0x1_0000_0000
            == other_before.state.regs[0] % 0x1_0000_0000,
        before.state.regs[0] < 0x8000_0000 ==> after.exit_code == before.state.regs[0],
{
}

/// In every run, a status that the guest finishes with is what `rax` holds,
/// modulo 2^32, and the guest is at address zero.
pub proof fn law_every_run_returns_rax<H: SystemCalls>(
    guests: Seq<Guest<H>>,
    events: Seq<Event>,
    actions: Seq<Action>,
    n: int,
    status: i32,
)
    requires
        may_run(guests, events, actions),
        0 <= n < actions.len(),
        actions[n] == Action::Finish(Ok(status)),
    ensures
        guests[n + 1].state.rip == 0,
        (guests[n + 1].state.regs[0] - status) % 0x1_0000_0000 == 0,
{
    law_every_run_is_orderly(guests, events, actions, n);
}

/// From the top of the loop a running guest that is not at address zero has the
/// block at its own address translated, and nothing of it changes.
pub proof fn law_the_guests_own_address_is_resolved<H>(
    before: Guest<H>,
    after: Guest<H>,
    action: Action,
)
    requires
        before.running,
        before.state.rip != 0,
        proceeds(before, after, action),
    ensures
        action == (Action::Resolve { rip: before.state.rip }),
        after == (Guest { phase: Phase::Resolving, ..before }),
{
}

/// A run starts by installing the fault handler, publishing the address space,
/// binding the context and reading the segment base, in this order, and changes
/// nothing of the guest meanwhile.
pub proof fn law_runs_start_the_same_way<H: SystemCalls>(
    before: Guest<H>,
    event: Event,
    after: Guest<H>,
    action: Action,
)
    requires
        answers(event, before.phase),
        may_step(before, event, after, action),
        before.phase is Idle || before.phase is Finished || before.phase is Installing
            || before.phase is Publishing || before.phase is Binding,
    ensures
        before.phase is Idle || before.phase is Finished ==> action is InstallFaultHandler
            && after.phase is Installing,
        before.phase is Installing ==> action is PublishAddressSpace && after.phase is Publishing,
        before.phase is Publishing ==> action is BindContext && after.phase is Binding,
        before.phase is Binding ==> action is ReadSegmentBase && after.phase is ReadingSegment,
        after.state == before.state,
        after.addr == before.addr,
        after.hooks == before.hooks,
        after.running == before.running,
        after.exit_code == before.exit_code,
{
}

/// What the host answers reaches the guest unchanged: the segment base and the
/// lookup routine in their slots, a resolved block as the place to enter, the
/// register file that the cache was left with, and an error as the end of the
/// run.
pub proof fn law_answers_reach_the_guest<H: SystemCalls>(
    before: Guest<H>,
    event: Event,
    after: Guest<H>,
    action: Action,
)
    requires
        answers(event, before.phase),
        may_step(before, event, after, action),
    ensures
        event matches Event::SegmentBase(base) ==> {
            &&& *after.state == (ThreadState { chimera_fs_base: base, ..*before.state })
            &&& after.running
            &&& action is EnsureIbLookup
        },
        event matches Event::Linked(Ok(ib_lookup)) ==> {
            &&& *after.state == (ThreadState { ib_lookup, ..*before.state })
            &&& before.running && before.state.rip != 0 ==> action == (Action::Resolve {
                rip: before.state.rip,
            })
        },
        event matches Event::Resolved(Ok(host_pc)) ==> {
            &&& *after.state == (ThreadState { exit_kind: 0, ..*before.state })
            &&& after.phase == (Phase::DenyingWrites { host_pc })
            &&& action is DenyCodeWrites
        },
        before.phase matches Phase::DenyingWrites { host_pc } ==> {
            &&& action == (Action::Dispatch { host_pc })
            &&& after.state == before.state
        },
        event matches Event::Exited(state) ==> after.state == state && action is AllowCodeWrites,
        event matches Event::Linked(Err(e)) ==> action == Action::Finish(Err(e)) && after.state
            == before.state,
        event matches Event::Resolved(Err(e)) ==> action == Action::Finish(Err(e)) && after.state
            == before.state,
        after.addr == before.addr,
{
}

/// How the cache was left decides what follows: after 1 the guest's call is
/// serviced, after 2 the run ends with a breakpoint, and after anything else the
/// guest just goes on.
pub proof fn law_the_exit_kind_decides<H: SystemCalls>(
    before: Guest<H>,
    after: Guest<H>,
    action: Action,
)
    requires
        before.phase is AllowingWrites,
        may_step(before, Event::Done, after, action),
    ensures
        before.state.exit_kind == 1 ==> {
            &&& exists|asked: SystemCall, done: SystemCall|
                #[trigger] services(before, *after.state, after.hooks, asked, done)
            &&& after.state.rip == before.state.rip
            &&& before.running && before.state.rip != 0 ==> action == (Action::Resolve {
                rip: before.state.rip,
            })
        },
        before.state.exit_kind == 2 ==> {
            &&& action matches Action::Finish(Err(e))
            &&& e@ == ErrorView::Unsupported("guest breakpoint (int3)"@)
            &&& after.phase is Finished
            &&& after.state == before.state
            &&& after.hooks == before.hooks
        },
        before.state.exit_kind != 1 && before.state.exit_kind != 2 ==> {
            &&& proceeds(before, after, action)
            &&& after.state == before.state
            &&& after.hooks == before.hooks
        },
{
}

/// In every run the cache is entered where the host said the block at the
/// guest's own address stands, with the register file that the guest had then,
/// but for the exit kind.
pub proof fn law_entries_are_resolved<H: SystemCalls>(
    guests: Seq<Guest<H>>,
    events: Seq<Event>,
    actions: Seq<Action>,
    n: int,
    host_pc: u64,
)
    requires
        may_run(guests, events, actions),
        0 <= n < actions.len(),
        actions[n] == (Action::Dispatch { host_pc }),
    ensures
        n >= 2,
        events[n - 1] == Event::Resolved(Ok(host_pc)),
        actions[n - 2] == (Action::Resolve { rip: guests[n - 1].state.rip }),
        *guests[n + 1].state == (ThreadState { exit_kind: 0, ..*guests[n - 1].state }),
{
    assert(answers(events[n], guests[n].phase));
    lemma_one_step(guests[n], events[n], guests[n + 1], actions[n]);
    assert(answers(events[n - 1], guests[n - 1].phase));
    lemma_one_step(guests[n - 1], events[n - 1], guests[n], actions[n - 1]);
    assert(answers(events[n - 2], guests[n - 2].phase));
    lemma_one_step(guests[n - 2], events[n - 2], guests[n - 1], actions[n - 2]);
}

proof fn lemma_one_step<H: SystemCalls>(
    before: Guest<H>,
    event: Event,
    after: Guest<H>,
    action: Action,
)
    requires
        answers(event, before.phase),
        may_step(before, event, after, action),
    ensures
        action matches Action::Dispatch { host_pc } ==> before.phase == (Phase::DenyingWrites {
            host_pc,
        }) && after.state == before.state,
        after.phase matches Phase::DenyingWrites { host_pc } ==> {
            &&& before.phase is Resolving
            &&& event == Event::Resolved(Ok(host_pc))
            &&& *after.state == (ThreadState { exit_kind: 0, ..*before.state })
        },
        after.phase is Resolving ==> action == (Action::Resolve { rip: after.state.rip }),
{
}

/// A serviced call is handed over as the guest's registers have it: the number
/// from `rax`, the arguments from `r10`, `rdx`, `r8` and `r9`, whole, and two
/// zeros. Its value comes back in `rax`, or its error negated, modulo 2^64; no
/// other register changes, and nothing does if the handler gave no result.
pub proof fn law_system_calls_are_the_registers<H: SystemCalls>(
    guest: Guest<H>,
    state: ThreadState,
    hooks: Hooks<H>,
    asked: SystemCall,
    done: SystemCall,
)
    requires
        services(guest, state, hooks, asked, done),
    ensures
        asked.number == guest.state.regs[0],
        asked.args[0] == guest.state.regs[10],
        asked.args[1] == guest.state.regs[3],
        asked.args[2] == guest.state.regs[8],
        asked.args[3] == guest.state.regs[9],
        asked.args[4] == 0,
        asked.args[5] == 0,
        asked.result is None,
        done.result matches Some(SyscallResult::Value(value)) ==> (state.regs[0] - value)
            % 0x1_0000_0000_0000_0000 == 0,
        done.result matches Some(SyscallResult::Error(errno)) ==> (state.regs[0] + errno)
            % 0x1_0000_0000_0000_0000 == 0,
        done.result is None ==> state.regs[0] == guest.state.regs[0],
        forall|i: int| 1 <= i < 16 ==> #[trigger] state.regs[i] == guest.state.regs[i],
        state == (ThreadState { regs: state.regs, ..*guest.state }),
{
    assert(guest.state.regs@.len() == 16 && state.regs@.len() == 16);
    assert(asked.args@[0] == guest.state.regs[10]);
    if done.result is Some {
        lemma_word_of(
            match done.result->0 {
                SyscallResult::Value(value) => value,
                SyscallResult::Error(errno) => (-errno) as i64,
            },
        );
    }
}

proof fn lemma_word_of(value: i64)
    ensures
        ((value as u64) - value) % 0x1_0000_0000_0000_0000 == 0,
{
    assert(value as u64 == (value as int) % 0x1_0000_0000_0000_0000) by (bit_vector);
}

/// The hooks that a serviced call reaches are, in order: before it, with the
/// call as the guest made it; the one that performs it; and after it, with the
/// call as that left it. The handler really got three calls, and is the same.
pub proof fn law_three_hooks_per_call<H: SystemCalls>(
    guest: Guest<H>,
    state: ThreadState,
    hooks: Hooks<H>,
    asked: SystemCall,
    done: SystemCall,
)
    requires
        services(guest, state, hooks, asked, done),
    ensures
        ({
            let n = guest.hooks.calls().len() as int;
            &&& hooks.calls().len() == n + 3
            &&& hooks.calls().take(n) == guest.hooks.calls()
            &&& hooks.calls()[n] == HookCall::Pre(asked)
            &&& hooks.calls()[n + 1] == (HookCall::Do { before: asked, after: done })
            &&& hooks.calls()[n + 2] == HookCall::Post(done)
        }),
        hooks.invocations().len() == guest.hooks.invocations().len() + 3,
        hooks.invocations().take(guest.hooks.invocations().len() as int)
            == guest.hooks.invocations(),
        hooks.handler() == guest.hooks.handler(),
{
    let n = guest.hooks.calls().len() as int;
    assert(hooks.calls().take(n) =~= guest.hooks.calls());
    assert(hooks.invocations().take(guest.hooks.invocations().len() as int)
        =~= guest.hooks.invocations());
}

/// A fresh register file enters where it is told, with the stack pointer in the
/// eighth register and zero in the others, flags 0x202, the segment base in its
/// slot, an FP area of zeros but for 0x1F80 at 24, and zero in every other
/// slot.
pub proof fn law_fresh_registers(ts: ThreadState, rip: u64, rsp: u64, seg_base: u64)
    requires
        is_fresh(ts, rip, rsp, seg_base),
    ensures
        ts.rip == rip,
        ts.regs[7] == rsp,
        forall|i: int| 0 <= i < 16 && i != 7 ==> #[trigger] ts.regs[i] == 0,
        ts.rflags == 0x202,
        ts.guest_fs_base == seg_base,
        ts.fpstate@.len() == 4096,
        ts.fpstate[24] == 0x80,
        ts.fpstate[25] == 0x1F,
        forall|i: int| 0 <= i < 4096 && i != 24 && i != 25 ==> #[trigger] ts.fpstate[i] == 0,
        ts.chimera_rsp == 0 && ts.host_pc_target == 0 && ts.exit_kind == 0 && ts.chimera_fs_base
            == 0,
        ts.ib_lookup == 0 && ts.ib_flags == 0 && ts.ib_target == 0 && ts.ib_rcx == 0 && ts.ib_rdx
            == 0 && ts.ib_host == 0,
        ts.exit_requested == 0 && ts.fp_in_regs == 0 && ts.fp_flags == 0 && ts.fp_scratch == 0,
        ts.fs_is_guest == 0 && ts.pending_set == 0 && ts.tid == 0 && ts.riprel_scratch == 0,
{
    assert(ts.regs@.len() == 16);
    assert(ts.regs@[7] == rsp);
}

/// A guest enters with its stack pointer on a multiple of 16, 16 to 31 bytes
/// below the end of its 8 MiB stack, and with zero to return to.
pub proof fn law_entry_frame(stack: u64)
    requires
        stack + 0x80_0000 <= u64::MAX,
    ensures
        entry_frame_at(stack).rsp % 16 == 0,
        entry_frame_at(stack).rsp + 16 <= stack + 0x80_0000,
        entry_frame_at(stack).rsp + 32 > stack + 0x80_0000,
        entry_frame_at(stack).return_address == 0,
{
}

/// A fault is recovered exactly when it is an access violation or an in-page
/// error that the fetch copy or the guarded copy raised, and then at the fixup
/// of the one that raised it.
pub proof fn law_recovered_faults(e: Exception, code: GuardedCode, in_guarded_copy: bool)
    ensures
        ({
            let bad_access = e.code + 0x1_0000_0000 == 0xC000_0005 || e.code + 0x1_0000_0000
                == 0xC000_0006;
            let fetching = e.rip >= code.fetch_start && e.rip < code.fetch_fixup;
            &&& !bad_access ==> recovery(e, code, in_guarded_copy) is None
            &&& bad_access && fetching ==> recovery(e, code, in_guarded_copy) == Some(
                code.fetch_fixup,
            )
            &&& bad_access && !fetching && in_guarded_copy ==> recovery(e, code, in_guarded_copy)
                == Some(code.copy_fixup)
            &&& bad_access && !fetching && !in_guarded_copy ==> recovery(
                e,
                code,
                in_guarded_copy,
            ) is None
        }),
{
}

} // verus!
