//! Linux backend for the virtual-memory layer: `mmap`/`mprotect`/`munmap` and
//! the self-targeted `process_vm_writev` behind guest copies.

use vstd::prelude::*;

use crate::error::{Error, ErrorView};
use crate::vm::{Answer, Prot, Reply};

verus! {

/// `PROT_NONE`: no access.
pub const PROT_NONE: i32 = 0;

/// `PROT_READ`.
pub const PROT_READ: i32 = 1;

/// `PROT_WRITE`.
pub const PROT_WRITE: i32 = 2;

/// `PROT_EXEC`.
pub const PROT_EXEC: i32 = 4;

/// `MAP_PRIVATE`: a mapping that no other process shares.
pub const MAP_PRIVATE: i32 = 0x2;

/// `MAP_ANONYMOUS` on x86-64: a mapping that no file backs.
pub const MAP_ANONYMOUS: i32 = 0x20;

/// `MAP_NORESERVE` on x86-64: a mapping that no swap is set aside for.
pub const MAP_NORESERVE: i32 = 0x4000;

/// `MAP_FAILED`, the all-ones address, as a signed word.
pub const MAP_FAILED: i64 = -1;

/// `_SC_PAGESIZE`: the `sysconf` name of the page size.
pub const SC_PAGESIZE: i32 = 30;

/// What a reservation asks of `mmap`: private (0x2), anonymous (0x20) memory
/// that no swap is set aside for (0x4000).
pub const RESERVE_FLAGS: i32 = 0x4022;

/// What an anonymous mapping asks of `mmap`: private (0x2), anonymous (0x20)
/// memory.
pub const ANON_FLAGS: i32 = 0x22;

/// The file descriptor of a mapping that no file backs.
pub const NO_FILE: i32 = -1;

/// A call into the C library, with its arguments.
#[derive(Clone, Copy, PartialEq, Eq, Debug, Structural)]
pub enum Call {
    /// `sysconf(name)`.
    Sysconf { name: i32 },
    /// `mmap(addr, len, prot, flags, fd, offset)`.
    Mmap { addr: u64, len: usize, prot: i32, flags: i32, fd: i32, offset: i64 },
    /// `mprotect(addr, len, prot)`.
    Mprotect { addr: u64, len: usize, prot: i32 },
    /// `munmap(addr, len)`.
    Munmap { addr: u64, len: usize },
    /// `getpid()`.
    Getpid,
    /// `process_vm_writev` of one `len`-byte buffer to `addr` in process `pid`.
    ProcessVmWritev { pid: i32, addr: u64, len: usize },
    /// `pthread_atfork` with a child hook that runs [`reset_after_fork`].
    PthreadAtfork,
}

/// A call whose failure is reported, and the words it is reported with.
#[derive(Clone, Copy, Debug)]
pub struct Request {
    pub call: Call,
    pub context: &'static str,
}

/// What the backend remembers between calls.
#[derive(Clone, Copy, PartialEq, Eq, Debug, Structural)]
pub struct State {
    /// The host page size, once queried.
    pub page_size: Option<usize>,
    /// The runtime's pid, cached for the self-targeted copies; 0 when not
    /// known. A fork invalidates it: a stale pid would aim the copies at the
    /// parent's address space.
    pub pid: i32,
    /// What registering the fork hook returned, once it was tried.
    pub atfork: Option<i32>,
}

impl State {
    /// Whether a cached page size is one a host can have.
    pub open spec fn wf(self) -> bool {
        self.page_size matches Some(size) ==> size > 0
    }

    /// A backend that has asked the host nothing yet.
    pub fn new() -> (state: State)
        ensures
            state == (State { page_size: None, pid: 0, atfork: None }),
            state.wf(),
    {
        State { page_size: None, pid: 0, atfork: None }
    }
}

/// The `PROT_*` bits of a protection: read, write and execute are 1, 2 and 4.
pub open spec fn bits_of(prot: Prot) -> i32 {
    match prot {
        Prot::Read => 1,
        Prot::ReadWrite => 3,
        Prot::ReadWriteExec => 7,
    }
}

/// The `PROT_*` bits that `mmap` and `mprotect` take for a protection.
pub fn prot_bits(prot: Prot) -> (bits: i32)
    ensures
        bits == bits_of(prot),
{
    assert(1i32 | 2i32 == 3i32 && 3i32 | 4i32 == 7i32) by (bit_vector);
    match prot {
        Prot::Read => PROT_READ,
        Prot::ReadWrite => PROT_READ | PROT_WRITE,
        Prot::ReadWriteExec => PROT_READ | PROT_WRITE | PROT_EXEC,
    }
}

/// The host page size, or the call that finds it.
pub fn page_size(state: &State) -> (r: Answer<Call, usize>)
    ensures
        r == (match state.page_size {
            Some(size) => Answer::Ready(size),
            None => Answer::Ask(Call::Sysconf { name: SC_PAGESIZE }),
        }),
{
    match state.page_size {
        Some(size) => Answer::Ready(size),
        None => Answer::Ask(Call::Sysconf { name: SC_PAGESIZE }),
    }
}

/// The host said that its page size is `value`: remember it, unless one is
/// known already. A host that reports no page size cannot be run on.
pub fn page_size_is(state: &mut State, value: i64) -> (size: usize)
    requires
        0 < value <= usize::MAX,
        old(state).wf(),
    ensures
        size == (match old(state).page_size {
            Some(known) => known,
            None => value as usize,
        }),
        *final(state) == (State { page_size: Some(size), ..*old(state) }),
        final(state).wf(),
{
    match state.page_size {
        Some(known) => known,
        None => {
            let size: usize = value as usize;
            state.page_size = Some(size);
            size
        },
    }
}

/// Reserve `len` bytes of address space, private, anonymous and with no access.
pub fn reserve(len: usize) -> (r: Request)
    ensures
        r.call == (Call::Mmap { addr: 0, len, prot: PROT_NONE, flags: RESERVE_FLAGS, fd: NO_FILE, offset: 0 }),
        r.context@ == "mmap reservation"@,
{
    assert(0x2i32 | 0x20i32 == 0x22i32 && 0x22i32 | 0x4000i32 == 0x4022i32) by (bit_vector);
    Request {
        call: Call::Mmap {
            addr: 0,
            len,
            prot: PROT_NONE,
            flags: MAP_PRIVATE | MAP_ANONYMOUS | MAP_NORESERVE,
            fd: NO_FILE,
            offset: 0,
        },
        context: "mmap reservation",
    }
}

/// Open part of a reservation to `prot`. The reservation already backs the
/// address space, so this is an `mprotect`; the pages fault in on first touch.
pub fn commit(addr: u64, len: usize, prot: Prot) -> (r: Request)
    ensures
        r.call == (Call::Mprotect { addr, len, prot: bits_of(prot) }),
        r.context@ == "mprotect commit"@,
{
    Request { call: Call::Mprotect { addr, len, prot: prot_bits(prot) }, context: "mprotect commit" }
}

/// Map `len` private anonymous bytes at `prot`.
pub fn map_anon(len: usize, prot: Prot) -> (r: Request)
    ensures
        r.call == (Call::Mmap {
            addr: 0,
            len,
            prot: bits_of(prot),
            flags: ANON_FLAGS,
            fd: NO_FILE,
            offset: 0,
        }),
        r.context@ == "mmap anon"@,
{
    assert(0x2i32 | 0x20i32 == 0x22i32) by (bit_vector);
    Request {
        call: Call::Mmap {
            addr: 0,
            len,
            prot: prot_bits(prot),
            flags: MAP_PRIVATE | MAP_ANONYMOUS,
            fd: NO_FILE,
            offset: 0,
        },
        context: "mmap anon",
    }
}

/// Change the protection of committed pages.
pub fn protect(addr: u64, len: usize, prot: Prot) -> (r: Request)
    ensures
        r.call == (Call::Mprotect { addr, len, prot: bits_of(prot) }),
        r.context@ == "mprotect"@,
{
    Request { call: Call::Mprotect { addr, len, prot: prot_bits(prot) }, context: "mprotect" }
}

/// Release a whole reservation.
pub fn release(addr: u64, len: usize) -> (r: Request)
    ensures
        r.call == (Call::Munmap { addr, len }),
        r.context@ == "munmap"@,
{
    Request { call: Call::Munmap { addr, len }, context: "munmap" }
}

/// Unmap a mapping, or a page-aligned part of one.
pub fn unmap(addr: u64, len: usize) -> (r: Request)
    ensures
        r.call == (Call::Munmap { addr, len }),
        r.context@ == "munmap"@,
{
    Request { call: Call::Munmap { addr, len }, context: "munmap" }
}

/// Whether a call that returned `value` failed: a mapping is the all-ones
/// address then, anything else is non-zero.
pub open spec fn failed(call: Call, value: i64) -> bool {
    if call is Mmap {
        value == MAP_FAILED
    } else {
        value != 0
    }
}

/// What the reply to a request means: the word it returned, or the host's
/// error.
pub fn complete(request: &Request, reply: Reply) -> (r: Result<u64, Error>)
    ensures
        match r {
            Ok(word) => !failed(request.call, reply.value) && word == reply.value as u64,
            Err(e) => failed(request.call, reply.value) && e@ == (ErrorView::Io {
                context: request.context@,
                code: reply.os_error,
            }),
        },
{
    let is_failure = match request.call {
        Call::Mmap { .. } => reply.value == MAP_FAILED,
        _ => reply.value != 0,
    };
    if is_failure {
        Err(Error::io(request.context, reply.os_error))
    } else {
        Ok(reply.value as u64)
    }
}

/// The runtime's pid, or the call that finds it.
pub fn own_pid(state: &State) -> (r: Answer<Call, i32>)
    ensures
        r == (if state.pid != 0 {
            Answer::Ready(state.pid)
        } else {
            Answer::Ask(Call::Getpid)
        }),
{
    if state.pid != 0 {
        Answer::Ready(state.pid)
    } else {
        Answer::Ask(Call::Getpid)
    }
}

/// The host said that the runtime's pid is `pid`: remember it.
pub fn own_pid_is(state: &mut State, pid: i32)
    ensures
        *final(state) == (State { pid, ..*old(state) }),
{
    state.pid = pid;
}

/// The call that copies `buf` to `addr` in process `pid`.
pub fn store_as(pid: i32, addr: u64, buf: &[u8]) -> (call: Call)
    ensures
        call == (Call::ProcessVmWritev { pid, addr, len: buf@.len() as usize }),
{
    Call::ProcessVmWritev { pid, addr, len: buf.len() }
}

/// The call that copies `buf` to `addr` in the runtime's own process, or the
/// call that finds which process that is.
pub fn copy_to_guest(state: &State, addr: u64, buf: &[u8]) -> (r: Answer<Call, Call>)
    ensures
        r == (if state.pid != 0 {
            Answer::Ready(
                Call::ProcessVmWritev { pid: state.pid, addr, len: buf@.len() as usize },
            )
        } else {
            Answer::Ask(Call::Getpid)
        }),
{
    match own_pid(state) {
        Answer::Ready(pid) => Answer::Ready(store_as(pid, addr, buf)),
        Answer::Ask(call) => Answer::Ask(call),
    }
}

/// Whether the copy of `len` bytes that returned `copied` reached all of them.
pub fn copied_all(len: usize, copied: i64) -> (r: bool)
    ensures
        r == (copied == len),
{
    copied >= 0 && copied as u64 == len as u64
}

/// What registering the fork hook, which returned `ret`, comes to.
pub open spec fn init_outcome(r: Result<(), Error>, ret: i32) -> bool {
    match r {
        Ok(()) => ret == 0,
        Err(e) => ret != 0 && e@ == (ErrorView::Io { context: "pthread_atfork"@, code: ret }),
    }
}

fn init_result(ret: i32) -> (r: Result<(), Error>)
    ensures
        init_outcome(r, ret),
{
    if ret == 0 {
        Ok(())
    } else {
        Err(Error::io("pthread_atfork", ret))
    }
}

/// One-time process setup: a fork hook that drops the pid cache in the child.
/// Its outcome is kept, so the hook is registered once.
pub fn init(state: &State) -> (r: Answer<Call, Result<(), Error>>)
    ensures
        match r {
            Answer::Ready(outcome) => state.atfork is Some && init_outcome(
                outcome,
                state.atfork->0,
            ),
            Answer::Ask(call) => state.atfork is None && call == Call::PthreadAtfork,
        },
{
    match state.atfork {
        Some(ret) => Answer::Ready(init_result(ret)),
        None => Answer::Ask(Call::PthreadAtfork),
    }
}

/// Registering the fork hook returned `ret`: keep that, unless an outcome is
/// known already.
pub fn init_is(state: &mut State, ret: i32) -> (r: Result<(), Error>)
    ensures
        ({
            let kept = match old(state).atfork {
                Some(known) => known,
                None => ret,
            };
            &&& *final(state) == (State { atfork: Some(kept), ..*old(state) })
            &&& init_outcome(r, kept)
        }),
{
    match state.atfork {
        Some(known) => init_result(known),
        None => {
            state.atfork = Some(ret);
            init_result(ret)
        },
    }
}

/// Drop the cached pid after a fork.
pub fn reset_after_fork(state: &mut State)
    ensures
        *final(state) == (State { pid: 0, ..*old(state) }),
{
    state.pid = 0;
}

} // verus!
