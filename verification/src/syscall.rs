//! Guest system calls and the embedder's hooks into them.
//!
//! Windows NT syscall numbers are an implementation detail that shifts between
//! builds, so a forwarded call has nowhere to go yet: [`host_syscall`] reports
//! every one as unimplemented, and a handler that relies on the default forward
//! gets a clean error rather than a wild kernel entry.

use vstd::prelude::*;

use crate::vault::{Invocation, Vault};

verus! {

/// The errno of a call that is not implemented.
pub const ENOSYS: i32 = 38;

/// How a system call ended: with a value, or with an errno.
#[derive(Clone, Copy, PartialEq, Eq, Debug, Structural)]
pub enum SyscallResult {
    Value(i64),
    Error(i32),
}

/// A guest system call: its number, its arguments, and its result once it has
/// one.
#[derive(Clone, Copy, PartialEq, Eq, Debug)]
pub struct SystemCall {
    pub number: u64,
    pub args: [u64; 6],
    pub result: Option<SyscallResult>,
}

/// The word that a result puts in the guest's return register: the value, or
/// the negated errno.
pub open spec fn return_word(result: SyscallResult) -> int {
    match result {
        SyscallResult::Value(value) => value as int,
        SyscallResult::Error(errno) => -errno,
    }
}

impl SystemCall {
    /// A call that has no result yet.
    pub fn new(number: u64, args: [u64; 6]) -> (call: SystemCall)
        ensures
            call == (SystemCall { number, args, result: None }),
    {
        SystemCall { number, args, result: None }
    }

    /// Give the call its result.
    pub fn set_result(&mut self, result: SyscallResult)
        ensures
            *final(self) == (SystemCall { result: Some(result), ..*old(self) }),
    {
        self.result = Some(result);
    }

    /// The call's result, if it has one.
    pub fn result(&self) -> (r: Option<SyscallResult>)
        ensures
            r == self.result,
    {
        self.result
    }

    /// The word that the call returns to the guest.
    pub fn return_value(&self) -> (value: i64)
        requires
            self.result is Some,
        ensures
            value == return_word(self.result->0),
    {
        match self.result {
            Some(SyscallResult::Value(value)) => value,
            Some(SyscallResult::Error(errno)) => -(errno as i64),
            None => 0,
        }
    }
}

/// Forward a guest call to the host kernel. The forwarding path is not wired
/// on a Windows host: every call is reported as unimplemented.
pub fn host_syscall(_call: &SystemCall) -> (r: SyscallResult)
    ensures
        r == SyscallResult::Error(ENOSYS),
{
    SyscallResult::Error(ENOSYS)
}

/// The embedder's hooks into the guest's system calls.
pub trait SystemCalls {
    /// Called before a system call is performed.
    fn pre_syscall(&self, call: &SystemCall) {
    }

    /// Perform a system call. Unless overridden, the call is forwarded to the
    /// host.
    fn do_syscall(&self, call: &mut SystemCall)
        default_ensures
            *final(call) == (SystemCall {
                result: Some(SyscallResult::Error(ENOSYS)),
                ..*old(call)
            }),
    {
        let result = host_syscall(call);
        call.set_result(result);
    }

    /// Called after a system call was performed.
    fn post_syscall(&self, call: &SystemCall) {
    }
}

/// A boxed handler is the handler in the box.
impl<T: SystemCalls + ?Sized> SystemCalls for Box<T> {
    fn pre_syscall(&self, call: &SystemCall)
        ensures
            call_ensures(T::pre_syscall, (&**self, call), ()),
    {
        (**self).pre_syscall(call)
    }

    fn do_syscall(&self, call: &mut SystemCall)
        ensures
            exists|c: &mut SystemCall|
                #![trigger call_ensures(T::do_syscall, (&**self, c), ())]
                {
                    &&& *c == *old(call)
                    &&& *final(c) == *final(call)
                    &&& call_ensures(T::do_syscall, (&**self, c), ())
                },
    {
        (**self).do_syscall(call)
    }

    fn post_syscall(&self, call: &SystemCall)
        ensures
            call_ensures(T::post_syscall, (&**self, call), ()),
    {
        (**self).post_syscall(call)
    }
}

/// A call of one of the embedder's hooks, with what it was handed and what it
/// left.
pub enum HookCall {
    Pre(SystemCall),
    Do { before: SystemCall, after: SystemCall },
    Post(SystemCall),
}

/// The embedder's handler in its [`Vault`], and a record of the calls that its
/// hooks got. The handler is reached through the three methods below and in no
/// other way.
#[verifier::reject_recursive_types(H)]
pub struct Hooks<H> {
    vault: Vault<H, SystemCall>,
    calls: Ghost<Seq<HookCall>>,
}

impl<H> Hooks<H> {
    /// The embedder's handler.
    pub closed spec fn handler(self) -> H {
        self.vault.handler()
    }

    /// The hook calls so far, in their order.
    pub closed spec fn calls(self) -> Seq<HookCall> {
        self.calls@
    }

    /// The calls that the handler really got, as the vault counts them.
    pub closed spec fn invocations(self) -> Seq<Invocation<H, SystemCall>> {
        self.vault.record()
    }

    /// A handler whose hooks have not been called.
    pub fn new(handler: H) -> (hooks: Self)
        ensures
            hooks.handler() == handler,
            hooks.calls() == Seq::<HookCall>::empty(),
            hooks.invocations() == Seq::<Invocation<H, SystemCall>>::empty(),
    {
        Hooks { vault: Vault::new(handler), calls: Ghost(Seq::empty()) }
    }
}

impl<H: SystemCalls> Hooks<H> {
    /// Call the hook that runs before a system call.
    pub fn pre_syscall(&mut self, call: &SystemCall)
        ensures
            call_ensures(H::pre_syscall, (&old(self).handler(), call), ()),
            final(self).handler() == old(self).handler(),
            final(self).calls() == old(self).calls().push(HookCall::Pre(*call)),
            final(self).invocations() == old(self).invocations().push(
                (Invocation::Read {
                    sees: |h: H, c: SystemCall| call_ensures(H::pre_syscall, (&h, &c), ()),
                    seen: *call,
                }),
            ),
    {
        self.vault.read(H::pre_syscall, call);
        self.calls = Ghost(self.calls@.push(HookCall::Pre(*call)));
    }

    /// Call the hook that performs a system call.
    pub fn do_syscall(&mut self, call: &mut SystemCall)
        ensures
            exists|c: &mut SystemCall|
                #![trigger call_ensures(H::do_syscall, (&old(self).handler(), c), ())]
                {
                    &&& *c == *old(call)
                    &&& *final(c) == *final(call)
                    &&& call_ensures(H::do_syscall, (&old(self).handler(), c), ())
                },
            final(self).handler() == old(self).handler(),
            final(self).calls() == old(self).calls().push(
                (HookCall::Do { before: *old(call), after: *final(call) }),
            ),
            final(self).invocations() == old(self).invocations().push(
                (Invocation::Write {
                    does: |h: H, c: &'static mut SystemCall|
                        call_ensures(H::do_syscall, (&h, c), ()),
                    before: *old(call),
                    after: *final(call),
                }),
            ),
    {
        let ghost before = *call;
        self.vault.write(H::do_syscall, call);
        assert(self.vault.handler() == old(self).handler());
        self.calls = Ghost(self.calls@.push(HookCall::Do { before, after: *call }));
    }

    /// Call the hook that runs after a system call.
    pub fn post_syscall(&mut self, call: &SystemCall)
        ensures
            call_ensures(H::post_syscall, (&old(self).handler(), call), ()),
            final(self).handler() == old(self).handler(),
            final(self).calls() == old(self).calls().push(HookCall::Post(*call)),
            final(self).invocations() == old(self).invocations().push(
                (Invocation::Read {
                    sees: |h: H, c: SystemCall| call_ensures(H::post_syscall, (&h, &c), ()),
                    seen: *call,
                }),
            ),
    {
        self.vault.read(H::post_syscall, call);
        self.calls = Ghost(self.calls@.push(HookCall::Post(*call)));
    }
}

} // verus!
