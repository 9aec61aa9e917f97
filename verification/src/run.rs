//! The guest run loop: the translate-execute-intercept cycle for a PE guest.
//!
//! Binds the context segment, translates the next block, enters the cache
//! through the trampoline, and on a cache exit either services a guest
//! `syscall` through the embedder or resumes. The host does the binding,
//! translating and entering: [`Guest::step`] says what it is to do next, and
//! takes what came of it.
//!
//! A guest that returns to program counter zero, a top-level `ret` whose return
//! address the loader seeded to null, is a clean exit, with the guest's `rax`
//! as the status.

use vstd::prelude::*;

use crate::error::{Error, ErrorView};
use crate::space::AddressSpace;
use crate::state::{is_fresh, ThreadState, R10, R8, R9, RAX, RDX};
use crate::state::{EXIT_KIND_BLOCK, EXIT_KIND_SYSCALL, EXIT_KIND_TRAP};
use crate::syscall::{return_word, HookCall, Hooks, SystemCall, SystemCalls};
use crate::vault::Invocation;

verus! {

/// The program counter that a guest exits at: the null return address.
pub const EXIT_SENTINEL: u64 = 0;

/// What the run loop waits for the host to do.
#[derive(Clone, Copy, PartialEq, Eq, Debug, Structural)]
pub enum Phase {
    /// Nothing: no run has started.
    Idle,
    /// Install the fault handler.
    Installing,
    /// Publish the address space to the fault handler.
    Publishing,
    /// Bind the context segment to the register file.
    Binding,
    /// Read the runtime's own base of the virtualized segment.
    ReadingSegment,
    /// Place the indirect-branch lookup routine in the code cache.
    Linking,
    /// Translate the block at the guest's program counter.
    Resolving,
    /// Deny writes to the code cache, to enter it at `host_pc`.
    DenyingWrites { host_pc: u64 },
    /// Run guest code in the cache.
    Dispatching,
    /// Allow writes to the code cache again.
    AllowingWrites,
    /// Nothing: the run has ended.
    Finished,
}

/// What the host is to do next.
#[derive(Debug)]
pub enum Action {
    /// Install the fault handler; then [`Event::Done`].
    InstallFaultHandler,
    /// Let the fault handler reach the guest's address space; then
    /// [`Event::Done`].
    PublishAddressSpace,
    /// Bind the context segment to the guest's register file; then
    /// [`Event::Done`].
    BindContext,
    /// Read the runtime's own base of the virtualized segment; then
    /// [`Event::SegmentBase`].
    ReadSegmentBase,
    /// Place the indirect-branch lookup routine in the code cache; then
    /// [`Event::Linked`].
    EnsureIbLookup,
    /// Translate the block at `rip`; then [`Event::Resolved`].
    Resolve { rip: u64 },
    /// Deny writes to the code cache; then [`Event::Done`].
    DenyCodeWrites,
    /// Enter the code cache at `host_pc` with the guest's register file; then
    /// [`Event::Exited`].
    Dispatch { host_pc: u64 },
    /// Allow writes to the code cache; then [`Event::Done`].
    AllowCodeWrites,
    /// The run has ended: with the guest's exit status, or with an error.
    Finish(Result<i32, Error>),
}

/// What came of an action, or the wish to run.
#[derive(Debug)]
pub enum Event {
    /// Run the guest.
    Start,
    /// The action is done.
    Done,
    /// The runtime's own base of the virtualized segment.
    SegmentBase(u64),
    /// Where the indirect-branch lookup routine stands.
    Linked(Result<u64, Error>),
    /// Where the translated block stands.
    Resolved(Result<u64, Error>),
    /// The cache was left, with this register file.
    Exited(Box<ThreadState>),
}

/// A running guest: its register file, the address space it translates from, and
/// the embedder syscall handler. One guest, one host thread.
#[verifier::reject_recursive_types(H)]
pub struct Guest<H> {
    pub state: Box<ThreadState>,
    pub addr: AddressSpace,
    pub hooks: Hooks<H>,
    pub running: bool,
    pub exit_code: i32,
    pub phase: Phase,
}

/// Whether `event` is an outcome of what a phase waits for.
pub open spec fn answers(event: Event, phase: Phase) -> bool {
    match phase {
        Phase::Idle | Phase::Finished => event is Start,
        Phase::ReadingSegment => event is SegmentBase,
        Phase::Linking => event is Linked,
        Phase::Resolving => event is Resolved,
        Phase::Dispatching => event is Exited,
        _ => event is Done,
    }
}

/// Whether `call` is what `state` requests at a `syscall` instruction, with no
/// result yet: the number in `rax`, then `r10, rdx, r8, r9`.
pub open spec fn is_request(call: SystemCall, state: ThreadState) -> bool {
    &&& call.number == state.regs[RAX as int]
    &&& call.args@ == seq![
        state.regs[R10 as int],
        state.regs[RDX as int],
        state.regs[R8 as int],
        state.regs[R9 as int],
        0,
        0,
    ]
    &&& call.result is None
}

/// Whether `next` is `state` with the result of `call` in `rax`, if it has one.
pub open spec fn has_result(next: ThreadState, state: ThreadState, call: SystemCall) -> bool {
    &&& next.regs@ == (match call.result {
        Some(result) => state.regs@.update(RAX as int, (return_word(result) as i64) as u64),
        None => state.regs@,
    })
    &&& next == (ThreadState { regs: next.regs, ..state })
}

/// The hook calls that servicing one system call makes: each hook once, in this
/// order, the call as `asked` and then as the handler left it.
pub open spec fn serviced(asked: SystemCall, done: SystemCall) -> Seq<HookCall> {
    seq![
        HookCall::Pre(asked),
        HookCall::Do { before: asked, after: done },
        HookCall::Post(done),
    ]
}

/// The calls that `H` really gets while one system call is serviced: each of its
/// three functions once, in this order.
pub open spec fn invoked<H: SystemCalls>(asked: SystemCall, done: SystemCall) -> Seq<
    Invocation<H, SystemCall>,
> {
    seq![
        Invocation::Read {
            sees: |h: H, c: SystemCall| call_ensures(H::pre_syscall, (&h, &c), ()),
            seen: asked,
        },
        Invocation::Write {
            does: |h: H, c: &'static mut SystemCall| call_ensures(H::do_syscall, (&h, c), ()),
            before: asked,
            after: done,
        },
        Invocation::Read {
            sees: |h: H, c: SystemCall| call_ensures(H::post_syscall, (&h, &c), ()),
            seen: done,
        },
    ]
}

/// The exit status that a word in `rax` is: its low 32 bits, signed.
pub open spec fn exit_status(rax: u64) -> int {
    let low = rax % 0x1_0000_0000;
    if low < 0x8000_0000 {
        low as int
    } else {
        low - 0x1_0000_0000
    }
}

/// How the loop goes on from the top: it ends at the exit sentinel with `rax`
/// as the status, and else has the block at the program counter translated.
pub open spec fn proceeds<H>(
    before: Guest<H>,
    after: Guest<H>,
    action: Action,
) -> bool {
    if !before.running {
        &&& after == (Guest { phase: Phase::Finished, ..before })
        &&& action == Action::Finish(Ok(before.exit_code))
    } else if before.state.rip == EXIT_SENTINEL {
        &&& after.exit_code == exit_status(before.state.regs[RAX as int])
        &&& after == (Guest { phase: Phase::Finished, exit_code: after.exit_code, ..before })
        &&& action == Action::Finish(Ok(after.exit_code))
    } else {
        &&& after == (Guest { phase: Phase::Resolving, ..before })
        &&& action == (Action::Resolve { rip: before.state.rip })
    }
}

/// Whether the guest left the cache on a `syscall` that is to be handled next.
pub open spec fn handles_syscall<H>(guest: Guest<H>) -> bool {
    guest.phase == Phase::AllowingWrites && guest.state.exit_kind == EXIT_KIND_SYSCALL
}

/// Whether servicing the call that `guest` requests, `asked`, leaves it with
/// `state` and `hooks` if the handler makes `done` of the call: the hooks were
/// called for it and for nothing else, and the guest has its result.
pub open spec fn services<H: SystemCalls>(
    guest: Guest<H>,
    state: ThreadState,
    hooks: Hooks<H>,
    asked: SystemCall,
    done: SystemCall,
) -> bool {
    &&& is_request(asked, *guest.state)
    &&& has_result(state, *guest.state, done)
    &&& hooks.calls() == guest.hooks.calls() + serviced(asked, done)
    &&& hooks.invocations() == guest.hooks.invocations() + invoked::<H>(asked, done)
    &&& hooks.handler() == guest.hooks.handler()
}

/// A step that involves no handler.
pub open spec fn plain_step<H>(
    before: Guest<H>,
    event: Event,
    after: Guest<H>,
    action: Action,
) -> bool {
    match (before.phase, event) {
        (Phase::Idle, Event::Start) | (Phase::Finished, Event::Start) => {
            &&& after == (Guest { phase: Phase::Installing, ..before })
            &&& action == Action::InstallFaultHandler
        },
        (Phase::Installing, Event::Done) => {
            &&& after == (Guest { phase: Phase::Publishing, ..before })
            &&& action == Action::PublishAddressSpace
        },
        (Phase::Publishing, Event::Done) => {
            &&& after == (Guest { phase: Phase::Binding, ..before })
            &&& action == Action::BindContext
        },
        (Phase::Binding, Event::Done) => {
            &&& after == (Guest { phase: Phase::ReadingSegment, ..before })
            &&& action == Action::ReadSegmentBase
        },
        (Phase::ReadingSegment, Event::SegmentBase(base)) => {
            &&& *after.state == (ThreadState { chimera_fs_base: base, ..*before.state })
            &&& after == (Guest {
                state: after.state,
                running: true,
                phase: Phase::Linking,
                ..before
            })
            &&& action == Action::EnsureIbLookup
        },
        (Phase::Linking, Event::Linked(Ok(ib_lookup))) => {
            &&& *after.state == (ThreadState { ib_lookup, ..*before.state })
            &&& proceeds(Guest { state: after.state, ..before }, after, action)
        },
        (Phase::Resolving, Event::Resolved(Ok(host_pc))) => {
            &&& *after.state == (ThreadState { exit_kind: EXIT_KIND_BLOCK, ..*before.state })
            &&& after == (Guest {
                state: after.state,
                phase: Phase::DenyingWrites { host_pc },
                ..before
            })
            &&& action == Action::DenyCodeWrites
        },
        (Phase::Linking, Event::Linked(Err(e))) | (Phase::Resolving, Event::Resolved(Err(e))) => {
            &&& after == (Guest { phase: Phase::Finished, ..before })
            &&& action == Action::Finish(Err(e))
        },
        (Phase::DenyingWrites { host_pc }, Event::Done) => {
            &&& after == (Guest { phase: Phase::Dispatching, ..before })
            &&& action == (Action::Dispatch { host_pc })
        },
        (Phase::Dispatching, Event::Exited(state)) => {
            &&& after == (Guest { state, phase: Phase::AllowingWrites, ..before })
            &&& action == Action::AllowCodeWrites
        },
        (Phase::AllowingWrites, Event::Done) => if before.state.exit_kind == EXIT_KIND_TRAP {
            &&& after == (Guest { phase: Phase::Finished, ..before })
            &&& action matches Action::Finish(Err(e))
            &&& e@ == ErrorView::Unsupported("guest breakpoint (int3)"@)
        } else {
            proceeds(before, after, action)
        },
        _ => false,
    }
}

// What follows asks nothing of the handler's type, so it cannot call a hook.
impl<H> Guest<H> {
    /// Create a guest with a fresh register file entering at `rip`, stack
    /// pointer `rsp`, and guest TEB base `teb_base` (the `gs` base the guest's
    /// own code reads). The caller has already mapped the guest's code and stack
    /// and, if it tracks them, added them to `addr` as regions.
    pub fn new(handler: H, addr: AddressSpace, rip: u64, rsp: u64, teb_base: u64) -> (guest: Self)
        ensures
            is_fresh(*guest.state, rip, rsp, teb_base),
            guest.addr == addr,
            guest.hooks.handler() == handler,
            guest.hooks.calls() == Seq::<HookCall>::empty(),
            guest.hooks.invocations() == Seq::<Invocation<H, SystemCall>>::empty(),
            !guest.running,
            guest.exit_code == 0,
            guest.phase == Phase::Idle,
    {
        Guest {
            state: ThreadState::fresh(rip, rsp, teb_base),
            addr,
            hooks: Hooks::new(handler),
            running: false,
            exit_code: 0,
            phase: Phase::Idle,
        }
    }

    /// The system call that the guest requests. Arguments follow the NT
    /// convention the `Nt`/`Zw` stubs use at the `syscall` instruction: the
    /// number in `rax`, then `r10, rdx, r8, r9` (arguments past the fourth live
    /// on the stack and are not passed).
    pub fn request(&self) -> (call: SystemCall)
        ensures
            is_request(call, *self.state),
    {
        let r = &self.state.regs;
        let args: [u64; 6] = [r[R10], r[RDX], r[R8], r[R9], 0, 0];
        assert(args@ =~= seq![r[R10 as int], r[RDX as int], r[R8 as int], r[R9 as int], 0, 0]);
        SystemCall::new(r[RAX], args)
    }

    /// Hand the guest what `call` came to: its result in `rax`, if it has one.
    pub fn deliver(&mut self, call: &SystemCall)
        ensures
            has_result(*final(self).state, *old(self).state, *call),
            *final(self) == (Guest { state: final(self).state, ..*old(self) }),
    {
        if call.result().is_some() {
            self.state.regs[RAX] = call.return_value() as u64;
        }
    }

    /// Go on from the top of the loop.
    fn proceed(&mut self) -> (action: Action)
        ensures
            proceeds(*old(self), *final(self), action),
    {
        if !self.running {
            self.phase = Phase::Finished;
            return Action::Finish(Ok(self.exit_code));
        }
        // The clean-exit sentinel: a top-level `ret` to a null return address.

        if self.state.rip == EXIT_SENTINEL {
            let rax: u64 = self.state.regs[RAX];
            assert(rax as i32 == (if rax % 0x1_0000_0000 < 0x8000_0000 {
                (rax % 0x1_0000_0000) as int
            } else {
                rax % 0x1_0000_0000 - 0x1_0000_0000
            })) by (bit_vector);
            self.exit_code = rax as i32;
            self.phase = Phase::Finished;
            return Action::Finish(Ok(self.exit_code));
        }
        self.phase = Phase::Resolving;
        Action::Resolve { rip: self.state.rip }
    }
}

impl<H: SystemCalls> Guest<H> {
    /// Package the guest register file into a [`SystemCall`], run it through the
    /// embedder hooks, and write the result back. Each hook is called once: before,
    /// to perform the call, and after.
    pub fn handle_syscall(&mut self)
        ensures
            exists|call: &mut SystemCall|
                #![trigger call_ensures(H::do_syscall, (&old(self).hooks.handler(), call), ())]
                {
                    &&& call_ensures(H::pre_syscall, (&old(self).hooks.handler(), &*call), ())
                    &&& call_ensures(H::do_syscall, (&old(self).hooks.handler(), call), ())
                    &&& call_ensures(
                        H::post_syscall,
                        (&old(self).hooks.handler(), &*final(call)),
                        (),
                    )
                    &&& services(
                        *old(self),
                        *final(self).state,
                        final(self).hooks,
                        *call,
                        *final(call),
                    )
                },
            *final(self) == (Guest {
                state: final(self).state,
                hooks: final(self).hooks,
                ..*old(self)
            }),
    {
        let mut call = self.request();
        let ghost asked = call;
        self.hooks.pre_syscall(&call);
        self.hooks.do_syscall(&mut call);
        self.hooks.post_syscall(&call);
        self.deliver(&call);
        assert(self.hooks.calls() =~= old(self).hooks.calls() + serviced(asked, call));
        assert(self.hooks.invocations() =~= old(self).hooks.invocations() + invoked::<H>(
            asked,
            call,
        ));
    }

    /// Take what came of the last action, and say what the host is to do next.
    /// Starting a guest and answering each action until [`Action::Finish`] runs
    /// it to termination.
    pub fn step(&mut self, event: Event) -> (action: Action)
        requires
            answers(event, old(self).phase),
        ensures
            !handles_syscall(*old(self)) ==> plain_step(*old(self), event, *final(self), action),
            handles_syscall(*old(self)) ==> exists|call: &mut SystemCall|
                #![trigger call_ensures(H::do_syscall, (&old(self).hooks.handler(), call), ())]
                {
                    &&& call_ensures(H::pre_syscall, (&old(self).hooks.handler(), &*call), ())
                    &&& call_ensures(H::do_syscall, (&old(self).hooks.handler(), call), ())
                    &&& call_ensures(
                        H::post_syscall,
                        (&old(self).hooks.handler(), &*final(call)),
                        (),
                    )
                    &&& services(
                        *old(self),
                        *final(self).state,
                        final(self).hooks,
                        *call,
                        *final(call),
                    )
                    &&& proceeds(
                        Guest { state: final(self).state, hooks: final(self).hooks, ..*old(self) },
                        *final(self),
                        action,
                    )
                },
            may_step(*old(self), event, *final(self), action),
    {
        match (self.phase, event) {
            (Phase::Installing, Event::Done) => {
                self.phase = Phase::Publishing;
                Action::PublishAddressSpace
            },
            (Phase::Publishing, Event::Done) => {
                self.phase = Phase::Binding;
                Action::BindContext
            },
            (Phase::Binding, Event::Done) => {
                self.phase = Phase::ReadingSegment;
                Action::ReadSegmentBase
            },
            (Phase::ReadingSegment, Event::SegmentBase(base)) => {
                self.state.chimera_fs_base = base;
                self.running = true;
                self.phase = Phase::Linking;
                Action::EnsureIbLookup
            },
            (Phase::Linking, Event::Linked(Ok(ib_lookup))) => {
                self.state.ib_lookup = ib_lookup;
                self.proceed()
            },
            (Phase::Resolving, Event::Resolved(Ok(host_pc))) => {
                self.state.exit_kind = EXIT_KIND_BLOCK;
                self.phase = Phase::DenyingWrites { host_pc };
                Action::DenyCodeWrites
            },
            (Phase::Linking, Event::Linked(Err(e))) | (
                Phase::Resolving,
                Event::Resolved(Err(e)),
            ) => {
                self.phase = Phase::Finished;
                Action::Finish(Err(e))
            },
            (Phase::DenyingWrites { host_pc }, Event::Done) => {
                self.phase = Phase::Dispatching;
                Action::Dispatch { host_pc }
            },
            (Phase::Dispatching, Event::Exited(state)) => {
                self.state = state;
                self.phase = Phase::AllowingWrites;
                Action::AllowCodeWrites
            },
            (Phase::AllowingWrites, Event::Done) => {
                if self.state.exit_kind == EXIT_KIND_SYSCALL {
                    self.handle_syscall();
                } else if self.state.exit_kind == EXIT_KIND_TRAP {
                    // A guest `int3`. Guest exception delivery is not modeled;
                    // surface it rather than silently resuming.
                    self.phase = Phase::Finished;
                    return Action::Finish(
                        Err(Error::Unsupported("guest breakpoint (int3)".to_owned())),
                    );
                }
                self.proceed()
            },
            // Idle or finished: a run starts.
            _ => {
                self.phase = Phase::Installing;
                Action::InstallFaultHandler
            },
        }
    }
}

/// Whether a step may lead from `before` to `after`, whatever the embedder's
/// handler answers.
pub open spec fn may_step<H: SystemCalls>(
    before: Guest<H>,
    event: Event,
    after: Guest<H>,
    action: Action,
) -> bool {
    if handles_syscall(before) {
        &&& exists|asked: SystemCall, done: SystemCall|
            #[trigger] services(before, *after.state, after.hooks, asked, done)
        &&& proceeds(
            Guest { state: after.state, hooks: after.hooks, ..before },
            after,
            action,
        )
    } else {
        plain_step(before, event, after, action)
    }
}

/// Whether writes to the code cache are denied once the host has done what a
/// phase waits for.
pub open spec fn denies_writes(phase: Phase) -> bool {
    phase is DenyingWrites || phase is Dispatching
}

/// Whether writes to the code cache are denied after `action`, if `denied`
/// says whether they were before.
pub open spec fn denied_after(denied: bool, action: Action) -> bool {
    match action {
        Action::DenyCodeWrites => true,
        Action::AllowCodeWrites => false,
        _ => denied,
    }
}

/// Guest code runs only while writes to the code cache are denied, and they are
/// allowed whenever the host links or translates or the run ends.
pub proof fn law_code_is_denied_writes_while_it_runs<H: SystemCalls>(
    before: Guest<H>,
    event: Event,
    after: Guest<H>,
    action: Action,
)
    requires
        answers(event, before.phase),
        may_step(before, event, after, action),
    ensures
        denied_after(denies_writes(before.phase), action) == denies_writes(after.phase),
        action is Dispatch ==> denies_writes(before.phase),
        action is EnsureIbLookup || action is Resolve || action is Finish ==> !denies_writes(
            before.phase,
        ),
{
}

/// What holds of a guest between steps: a run that has read the segment base
/// is running, and the cache is entered with the exit kind of a plain block.
pub open spec fn run_invariant<H>(guest: Guest<H>) -> bool {
    &&& match guest.phase {
        Phase::Linking
        | Phase::Resolving
        | Phase::DenyingWrites { .. }
        | Phase::Dispatching
        | Phase::AllowingWrites => guest.running,
        _ => true,
    }
    &&& denies_writes(guest.phase) ==> guest.state.exit_kind == EXIT_KIND_BLOCK
}

/// Every step keeps the run invariant, and a fresh guest has it. So every entry
/// into the cache starts with the exit kind of a plain block, and a run that
/// ends well ends at the exit sentinel with `rax` as its status.
pub proof fn law_run_invariant_holds<H: SystemCalls>(
    before: Guest<H>,
    event: Event,
    after: Guest<H>,
    action: Action,
)
    requires
        answers(event, before.phase),
        may_step(before, event, after, action),
    ensures
        before.phase == Phase::Idle ==> run_invariant(before),
        run_invariant(before) ==> run_invariant(after),
        run_invariant(before) && action is Dispatch ==> after.state.exit_kind == EXIT_KIND_BLOCK,
        run_invariant(before) ==> (action matches Action::Finish(Ok(status)) ==> {
            &&& after.state.rip == EXIT_SENTINEL
            &&& status == exit_status(after.state.regs[RAX as int])
            &&& status == after.exit_code
        }),
{
}

/// Whether a fresh guest, told `events` in turn, may ask for `actions` in turn:
/// `guests` are the guest before, between and after its steps.
pub open spec fn may_run<H: SystemCalls>(
    guests: Seq<Guest<H>>,
    events: Seq<Event>,
    actions: Seq<Action>,
) -> bool {
    &&& guests.len() == events.len() + 1
    &&& actions.len() == events.len()
    &&& guests[0].phase == Phase::Idle
    &&& forall|i: int| #![trigger events[i]]
        0 <= i < events.len() ==> answers(events[i], guests[i].phase) && may_step(
            guests[i],
            events[i],
            guests[i + 1],
            actions[i],
        )
}

/// Whether writes to the code cache are denied once the host has done the
/// first `n` of `actions`.
pub open spec fn writes_denied(actions: Seq<Action>, n: int) -> bool
    decreases n,
{
    n > 0 && denied_after(writes_denied(actions, n - 1), actions[n - 1])
}

/// In every run, however long and whatever the handler answers: the cache is
/// entered only while the host denies writes to it and with the exit kind of a
/// plain block, the host links and translates only while it allows them, and a
/// run ends with writes allowed, and if it ends well then at the exit sentinel
/// with `rax` as its status.
pub proof fn law_every_run_is_orderly<H: SystemCalls>(
    guests: Seq<Guest<H>>,
    events: Seq<Event>,
    actions: Seq<Action>,
    n: int,
)
    requires
        may_run(guests, events, actions),
        0 <= n < actions.len(),
    ensures
        actions[n] is Dispatch ==> writes_denied(actions, n) && guests[n + 1].state.exit_kind
            == EXIT_KIND_BLOCK,
        actions[n] is EnsureIbLookup || actions[n] is Resolve || actions[n] is Finish
            ==> !writes_denied(actions, n),
        actions[n] matches Action::Finish(Ok(status)) ==> {
            &&& guests[n + 1].state.rip == EXIT_SENTINEL
            &&& status == exit_status(guests[n + 1].state.regs[RAX as int])
        },
{
    lemma_run_keeps_invariant(guests, events, actions, n);
    let (before, event, after) = (guests[n], events[n], guests[n + 1]);
    law_code_is_denied_writes_while_it_runs(before, event, after, actions[n]);
    law_run_invariant_holds(before, event, after, actions[n]);
}

proof fn lemma_run_keeps_invariant<H: SystemCalls>(
    guests: Seq<Guest<H>>,
    events: Seq<Event>,
    actions: Seq<Action>,
    n: int,
)
    requires
        may_run(guests, events, actions),
        0 <= n <= actions.len(),
    ensures
        run_invariant(guests[n]),
        writes_denied(actions, n) == denies_writes(guests[n].phase),
    decreases n,
{
    if n > 0 {
        lemma_run_keeps_invariant(guests, events, actions, n - 1);
        let (before, event, after) = (guests[n - 1], events[n - 1], guests[n]);
        law_code_is_denied_writes_while_it_runs(before, event, after, actions[n - 1]);
        law_run_invariant_holds(before, event, after, actions[n - 1]);
    }
}

/// How many of the first `n` steps of a run service a system call.
pub open spec fn syscall_exits<H>(guests: Seq<Guest<H>>, n: int) -> nat
    decreases n,
{
    if n <= 0 {
        0
    } else if handles_syscall(guests[n - 1]) {
        syscall_exits(guests, n - 1) + 1
    } else {
        syscall_exits(guests, n - 1)
    }
}

/// Whether `calls` is what servicing some system calls, one after the other,
/// makes.
pub open spec fn in_order(calls: Seq<HookCall>) -> bool
    decreases calls.len(),
{
    calls.len() == 0 || {
        &&& calls.len() >= 3
        &&& in_order(calls.take(calls.len() - 3))
        &&& exists|asked: SystemCall, done: SystemCall|
            calls.skip(calls.len() - 3) == #[trigger] serviced(asked, done)
    }
}

/// Whether `invocation`, a call that the handler really got, is the hook call
/// `call`.
pub open spec fn same_call<H: SystemCalls>(
    invocation: Invocation<H, SystemCall>,
    call: HookCall,
) -> bool {
    invocation == (match call {
        HookCall::Pre(seen) => Invocation::Read {
            sees: |h: H, c: SystemCall| call_ensures(H::pre_syscall, (&h, &c), ()),
            seen,
        },
        HookCall::Do { before, after } => Invocation::Write {
            does: |h: H, c: &'static mut SystemCall| call_ensures(H::do_syscall, (&h, c), ()),
            before,
            after,
        },
        HookCall::Post(seen) => Invocation::Read {
            sees: |h: H, c: SystemCall| call_ensures(H::post_syscall, (&h, &c), ()),
            seen,
        },
    })
}

/// A step that services a system call has each hook called once, in order, on
/// the call that the guest requests, and no other step has any called.
pub proof fn law_hooks_run_for_system_calls_alone<H: SystemCalls>(
    before: Guest<H>,
    event: Event,
    after: Guest<H>,
    action: Action,
)
    requires
        answers(event, before.phase),
        may_step(before, event, after, action),
    ensures
        handles_syscall(before) ==> exists|asked: SystemCall, done: SystemCall|
            {
                &&& is_request(asked, *before.state)
                &&& after.hooks.calls() == before.hooks.calls() + #[trigger] serviced(asked, done)
                &&& after.hooks.invocations() == before.hooks.invocations() + invoked::<H>(
                    asked,
                    done,
                )
            },
        !handles_syscall(before) ==> after.hooks == before.hooks,
        after.hooks.handler() == before.hooks.handler(),
{
    if handles_syscall(before) {
        let (asked, done) = choose|asked: SystemCall, done: SystemCall|
            #[trigger] services(before, *after.state, after.hooks, asked, done);
        assert(after.hooks.calls() == before.hooks.calls() + serviced(asked, done));
    }
}

/// In every run of a guest whose hooks have not been called before, the hooks
/// are called in order and once each for every `syscall` exit, and not besides.
pub proof fn law_every_system_call_is_serviced_once<H: SystemCalls>(
    guests: Seq<Guest<H>>,
    events: Seq<Event>,
    actions: Seq<Action>,
    n: int,
)
    requires
        may_run(guests, events, actions),
        guests[0].hooks.calls() == Seq::<HookCall>::empty(),
        guests[0].hooks.invocations() == Seq::<Invocation<H, SystemCall>>::empty(),
        0 <= n <= actions.len(),
    ensures
        in_order(guests[n].hooks.calls()),
        guests[n].hooks.calls().len() == 3 * syscall_exits(guests, n),
        guests[n].hooks.invocations().len() == 3 * syscall_exits(guests, n),
        forall|i: int| #![trigger guests[n].hooks.invocations()[i]]
            0 <= i < guests[n].hooks.invocations().len() ==> same_call(
                guests[n].hooks.invocations()[i],
                guests[n].hooks.calls()[i],
            ),
        guests[n].hooks.handler() == guests[0].hooks.handler(),
    decreases n,
{
    if n > 0 {
        law_every_system_call_is_serviced_once(guests, events, actions, n - 1);
        let (before, event, after) = (guests[n - 1], events[n - 1], guests[n]);
        law_hooks_run_for_system_calls_alone(before, event, after, actions[n - 1]);
        if handles_syscall(before) {
            let (earlier, calls) = (before.hooks.calls(), after.hooks.calls());
            let (asked, done) = choose|asked: SystemCall, done: SystemCall|
                {
                    &&& is_request(asked, *before.state)
                    &&& calls == earlier + #[trigger] serviced(asked, done)
                    &&& after.hooks.invocations() == before.hooks.invocations() + invoked::<H>(
                        asked,
                        done,
                    )
                };
            assert(calls.take(calls.len() - 3) =~= earlier);
            assert(calls.skip(calls.len() - 3) =~= serviced(asked, done));
        }
    }
}

/// A guest whose run ended well at step `n` and that is run again, with the
/// lookup routine linked again, ends with the same status. The second run
/// resolves and enters nothing, calls no hook, and keeps the registers and the
/// program counter.
pub proof fn law_a_finished_guest_finishes_again<H: SystemCalls>(
    guests: Seq<Guest<H>>,
    events: Seq<Event>,
    actions: Seq<Action>,
    n: int,
    status: i32,
)
    requires
        may_run(guests, events, actions),
        0 <= n,
        n + 6 < actions.len(),
        actions[n] == Action::Finish(Ok(status)),
        events[n + 6] matches Event::Linked(Ok(_)),
    ensures
        actions[n + 1] is InstallFaultHandler,
        actions[n + 2] is PublishAddressSpace,
        actions[n + 3] is BindContext,
        actions[n + 4] is ReadSegmentBase,
        actions[n + 5] is EnsureIbLookup,
        actions[n + 6] == Action::Finish(Ok(status)),
        guests[n + 7].state.regs == guests[n + 1].state.regs,
        guests[n + 7].state.rip == guests[n + 1].state.rip,
        guests[n + 7].hooks == guests[n + 1].hooks,
{
    lemma_run_keeps_invariant(guests, events, actions, n);
    law_run_invariant_holds(guests[n], events[n], guests[n + 1], actions[n]);
    assert(guests[n + 1].phase == Phase::Finished);
    assert(events[n + 1] is Start);
    assert(guests[n + 2].phase == Phase::Installing);
    assert(events[n + 2] is Done);
    assert(guests[n + 3].phase == Phase::Publishing);
    assert(events[n + 3] is Done);
    assert(guests[n + 4].phase == Phase::Binding);
    assert(events[n + 4] is Done);
    assert(guests[n + 5].phase == Phase::ReadingSegment);
    assert(events[n + 5] is SegmentBase);
    assert(guests[n + 6].phase == Phase::Linking);
}

/// The result of a system call reaches the guest in `rax` and touches nothing
/// else of its register file.
pub proof fn law_syscall_changes_only_rax(
    next: ThreadState,
    state: ThreadState,
    call: SystemCall,
)
    requires
        has_result(next, state, call),
    ensures
        forall|i: int| 0 <= i < 16 && i != RAX ==> next.regs[i] == state.regs[i],
        next == (ThreadState { regs: next.regs, ..state }),
        call.result is None ==> next.regs@ == state.regs@,
{
    assert(next.regs@.len() == 16);
}

} // verus!
