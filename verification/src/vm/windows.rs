//! Windows backend for the virtual-memory layer:
//! `VirtualAlloc`/`VirtualProtect`/`VirtualFree`.
//!
//! Windows separates reserving address space from committing pages to it more
//! sharply than Linux does. [`reserve`] takes a `MEM_RESERVE` range with
//! `PAGE_NOACCESS`; [`commit`] backs a sub-range with `MEM_COMMIT` at the
//! requested protection. A reservation is freed as a unit with `MEM_RELEASE`,
//! so [`release`] and [`unmap`] pass the base with a zero length.

use vstd::prelude::*;

use crate::error::{Error, ErrorView};
use crate::vm::{Answer, Prot, Reply};

verus! {

/// `MEM_COMMIT`: back a reservation with pages.
pub const MEM_COMMIT: u32 = 0x1000;

/// `MEM_RESERVE`: take address space.
pub const MEM_RESERVE: u32 = 0x2000;

/// `MEM_RELEASE`: free a whole reservation.
pub const MEM_RELEASE: u32 = 0x8000;

/// `PAGE_NOACCESS`.
pub const PAGE_NOACCESS: u32 = 0x1;

/// `PAGE_READONLY`.
pub const PAGE_READONLY: u32 = 0x2;

/// `PAGE_READWRITE`.
pub const PAGE_READWRITE: u32 = 0x4;

/// `PAGE_EXECUTE_READWRITE`.
pub const PAGE_EXECUTE_READWRITE: u32 = 0x40;

/// What reserving (0x2000) and backing (0x1000) in one call asks of
/// `VirtualAlloc`.
pub const RESERVE_AND_COMMIT: u32 = 0x3000;

/// A call into the Windows API, with its arguments.
#[derive(Clone, Copy, PartialEq, Eq, Debug, Structural)]
pub enum Call {
    /// `GetSystemInfo`, for its page size.
    GetSystemInfo,
    /// `VirtualAlloc(addr, len, kind, protect)`.
    VirtualAlloc { addr: u64, len: usize, kind: u32, protect: u32 },
    /// `VirtualProtect(addr, len, protect)`.
    VirtualProtect { addr: u64, len: usize, protect: u32 },
    /// `VirtualFree(addr, len, kind)`.
    VirtualFree { addr: u64, len: usize, kind: u32 },
    /// The fault-guarded copy of a `len`-byte buffer to `addr`.
    GuardedCopy { addr: u64, len: usize },
}

/// A call whose failure is reported, and the words it is reported with.
#[derive(Clone, Copy, Debug)]
pub struct Request {
    pub call: Call,
    pub context: &'static str,
}

/// What the backend remembers between calls.
#[derive(Clone, Copy, PartialEq, Eq, Debug, Structural)]
pub struct State {
    /// The host page size, once queried.
    pub page_size: Option<usize>,
}

impl State {
    /// Whether a cached page size is one a host can have.
    pub open spec fn wf(self) -> bool {
        self.page_size matches Some(size) ==> size > 0
    }

    /// A backend that has asked the host nothing yet.
    pub fn new() -> (state: State)
        ensures
            state == (State { page_size: None }),
            state.wf(),
    {
        State { page_size: None }
    }
}

/// The `PAGE_*` protection of a [`Prot`].
pub open spec fn flags_of(prot: Prot) -> u32 {
    match prot {
        Prot::Read => PAGE_READONLY,
        Prot::ReadWrite => PAGE_READWRITE,
        Prot::ReadWriteExec => PAGE_EXECUTE_READWRITE,
    }
}

/// The `PAGE_*` protection that `VirtualAlloc` and `VirtualProtect` take.
pub fn prot_flags(prot: Prot) -> (flags: u32)
    ensures
        flags == flags_of(prot),
{
    match prot {
        Prot::Read => PAGE_READONLY,
        Prot::ReadWrite => PAGE_READWRITE,
        Prot::ReadWriteExec => PAGE_EXECUTE_READWRITE,
    }
}

/// The host page size, or the call that finds it.
pub fn page_size(state: &State) -> (r: Answer<Call, usize>)
    ensures
        r == (match state.page_size {
            Some(size) => Answer::Ready(size),
            None => Answer::Ask(Call::GetSystemInfo),
        }),
{
    match state.page_size {
        Some(size) => Answer::Ready(size),
        None => Answer::Ask(Call::GetSystemInfo),
    }
}

/// The host said that its page size is `value`: remember it, unless one is
/// known already. A host that reports no page size cannot be run on.
pub fn page_size_is(state: &mut State, value: i64) -> (size: usize)
    requires
        0 < value <= usize::MAX,
        old(state).wf(),
    ensures
        size == (match old(state).page_size {
            Some(known) => known,
            None => value as usize,
        }),
        *final(state) == (State { page_size: Some(size) }),
        final(state).wf(),
{
    match state.page_size {
        Some(known) => known,
        None => {
            let size: usize = value as usize;
            state.page_size = Some(size);
            size
        },
    }
}

/// Reserve `len` bytes of address space with no access.
pub fn reserve(len: usize) -> (r: Request)
    ensures
        r.call == (Call::VirtualAlloc { addr: 0, len, kind: MEM_RESERVE, protect: PAGE_NOACCESS }),
        r.context@ == "VirtualAlloc reserve"@,
{
    Request {
        call: Call::VirtualAlloc { addr: 0, len, kind: MEM_RESERVE, protect: PAGE_NOACCESS },
        context: "VirtualAlloc reserve",
    }
}

/// Commit part of a reservation at `prot`, leaving the rest of it intact.
pub fn commit(addr: u64, len: usize, prot: Prot) -> (r: Request)
    ensures
        r.call == (Call::VirtualAlloc { addr, len, kind: MEM_COMMIT, protect: flags_of(prot) }),
        r.context@ == "VirtualAlloc commit"@,
{
    Request {
        call: Call::VirtualAlloc { addr, len, kind: MEM_COMMIT, protect: prot_flags(prot) },
        context: "VirtualAlloc commit",
    }
}

/// Reserve and commit `len` bytes at `prot`.
pub fn map_anon(len: usize, prot: Prot) -> (r: Request)
    ensures
        r.call == (Call::VirtualAlloc { addr: 0, len, kind: RESERVE_AND_COMMIT, protect: flags_of(prot) }),
        r.context@ == "VirtualAlloc"@,
{
    assert(0x2000u32 | 0x1000u32 == 0x3000u32) by (bit_vector);
    Request {
        call: Call::VirtualAlloc {
            addr: 0,
            len,
            kind: MEM_RESERVE | MEM_COMMIT,
            protect: prot_flags(prot),
        },
        context: "VirtualAlloc",
    }
}

/// Change the protection of committed pages.
pub fn protect(addr: u64, len: usize, prot: Prot) -> (r: Request)
    ensures
        r.call == (Call::VirtualProtect { addr, len, protect: flags_of(prot) }),
        r.context@ == "VirtualProtect"@,
{
    Request {
        call: Call::VirtualProtect { addr, len, protect: prot_flags(prot) },
        context: "VirtualProtect",
    }
}

/// Release a whole reservation. `MEM_RELEASE` frees it as a unit and must pass
/// a zero length, whatever `_len` is.
pub fn release(addr: u64, _len: usize) -> (r: Request)
    ensures
        r.call == (Call::VirtualFree { addr, len: 0, kind: MEM_RELEASE }),
        r.context@ == "VirtualFree release"@,
{
    Request {
        call: Call::VirtualFree { addr, len: 0, kind: MEM_RELEASE },
        context: "VirtualFree release",
    }
}

/// Unmap a mapping: the whole reservation goes.
pub fn unmap(addr: u64, _len: usize) -> (r: Request)
    ensures
        r.call == (Call::VirtualFree { addr, len: 0, kind: MEM_RELEASE }),
        r.context@ == "VirtualFree"@,
{
    Request { call: Call::VirtualFree { addr, len: 0, kind: MEM_RELEASE }, context: "VirtualFree" }
}

/// What the reply to a request means: the word it returned, or, where that is
/// null, the host's error.
pub fn complete(request: &Request, reply: Reply) -> (r: Result<u64, Error>)
    ensures
        match r {
            Ok(word) => reply.value != 0 && word == reply.value as u64,
            Err(e) => reply.value == 0 && e@ == (ErrorView::Io {
                context: request.context@,
                code: reply.os_error,
            }),
        },
{
    if reply.value == 0 {
        Err(Error::io(request.context, reply.os_error))
    } else {
        Ok(reply.value as u64)
    }
}

/// The guarded copy of `buf` to `addr`. The runtime and the guest share one
/// address space, so a copy is a store that tolerates a fault.
pub fn copy_to_guest(addr: u64, buf: &[u8]) -> (call: Call)
    ensures
        call == (Call::GuardedCopy { addr, len: buf@.len() as usize }),
{
    Call::GuardedCopy { addr, len: buf.len() }
}

/// One-time process setup: none is needed.
pub fn init() -> (r: Result<(), Error>)
    ensures
        r == Ok::<(), Error>(()),
{
    Ok(())
}

/// Nothing that a fork would invalidate is cached.
pub fn reset_after_fork(state: &mut State)
    ensures
        *final(state) == *old(state),
{
}

} // verus!
