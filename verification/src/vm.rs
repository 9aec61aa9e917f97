//! Host virtual-memory primitives, abstracted over the host OS.
//!
//! The translator core reserves and protects three kinds of host memory it
//! does not reach through the guest's own syscalls: the translated-code cache
//! (a large reservation whose middle is opened read-write-execute), the inline
//! indirect-branch table, and the per-page write-protection armed to trap
//! self-modifying code. Each of those is one `mmap`/`mprotect` shape on Linux
//! and one `VirtualAlloc`/`VirtualProtect` shape on Windows; this module is
//! the single seam between the two.
//!
//! The API is small and reservation-first: [`reserve`] takes address space
//! with no access, [`commit`] backs a sub-range of a prior reservation with
//! pages at a protection, and [`release`] returns a whole reservation.
//! [`map_anon`] is the one-shot reserve-and-commit.
//!
//! A function here says which host call to make; [`complete`] says what the
//! host's reply means.

use vstd::prelude::*;

use crate::error::{Error, ErrorView};

pub mod linux;
pub mod windows;

verus! {

/// Page protection for a committed host mapping. The core needs only these
/// three combinations; a reservation has no access until [`commit`] gives it
/// one.
#[derive(Clone, Copy, PartialEq, Eq, Debug, Structural)]
pub enum Prot {
    /// Read only.
    Read,
    /// Read and write.
    ReadWrite,
    /// Read, write, and execute: the translated-code cache.
    ReadWriteExec,
}

/// What a host call returned, and the host's error number after it.
#[derive(Clone, Copy, PartialEq, Eq, Debug, Structural)]
pub struct Reply {
    pub value: i64,
    pub os_error: i32,
}

/// A result that is known, or the host call to ask for it.
#[derive(PartialEq, Eq, Debug)]
pub enum Answer<C, T> {
    Ready(T),
    Ask(C),
}

/// The host that the runtime runs on, and what is remembered of it.
#[derive(Clone, Copy, PartialEq, Eq, Debug, Structural)]
pub enum Backend {
    Linux(linux::State),
    Windows(windows::State),
}

/// A call to the host.
#[derive(Clone, Copy, PartialEq, Eq, Debug, Structural)]
pub enum HostCall {
    Linux(linux::Call),
    Windows(windows::Call),
}

/// A host call whose failure is reported.
#[derive(Clone, Copy, Debug)]
pub enum Request {
    Linux(linux::Request),
    Windows(windows::Request),
}

impl Backend {
    /// Whether what is remembered of the host can be true of one.
    pub open spec fn wf(self) -> bool {
        match self {
            Backend::Linux(state) => state.wf(),
            Backend::Windows(state) => state.wf(),
        }
    }

    /// The cached page size.
    pub open spec fn known_page_size(self) -> Option<usize> {
        match self {
            Backend::Linux(state) => state.page_size,
            Backend::Windows(state) => state.page_size,
        }
    }

    /// The backend with `pid` for its cached pid, where it caches one; 0 stands
    /// for none.
    pub open spec fn with_pid(self, pid: i32) -> Backend {
        match self {
            Backend::Linux(state) => Backend::Linux(linux::State { pid, ..state }),
            Backend::Windows(state) => Backend::Windows(state),
        }
    }

    /// What the one-time setup returned, if it is known or none is needed.
    pub open spec fn setup(self) -> Option<i32> {
        match self {
            Backend::Linux(state) => state.atfork,
            Backend::Windows(_) => Some(0),
        }
    }

    /// The backend with `ret` for what its setup returned, where it has one.
    pub open spec fn with_setup(self, ret: i32) -> Backend {
        match self {
            Backend::Linux(state) => Backend::Linux(linux::State { atfork: Some(ret), ..state }),
            Backend::Windows(state) => Backend::Windows(state),
        }
    }

    /// The backend with its page size cached as `size`.
    pub open spec fn with_page_size(self, size: usize) -> Backend {
        match self {
            Backend::Linux(state) => Backend::Linux(
                linux::State { page_size: Some(size), ..state },
            ),
            Backend::Windows(state) => Backend::Windows(windows::State { page_size: Some(size) }),
        }
    }
}

impl Request {
    /// The host call to make.
    pub open spec fn spec_call(self) -> HostCall {
        match self {
            Request::Linux(r) => HostCall::Linux(r.call),
            Request::Windows(r) => HostCall::Windows(r.call),
        }
    }

    /// The words that a failure is reported with.
    pub open spec fn context(self) -> Seq<char> {
        match self {
            Request::Linux(r) => r.context@,
            Request::Windows(r) => r.context@,
        }
    }

    /// The host call to make.
    pub fn call(&self) -> (call: HostCall)
        ensures
            call == self.spec_call(),
    {
        match self {
            Request::Linux(r) => HostCall::Linux(r.call),
            Request::Windows(r) => HostCall::Windows(r.call),
        }
    }
}

/// The cached page size, or the host call that finds it.
pub open spec fn page_size_answer(backend: Backend) -> Answer<HostCall, usize> {
    match backend.known_page_size() {
        Some(size) => Answer::Ready(size),
        None => Answer::Ask(
            match backend {
                Backend::Linux(_) => HostCall::Linux(
                    linux::Call::Sysconf { name: linux::SC_PAGESIZE },
                ),
                Backend::Windows(_) => HostCall::Windows(windows::Call::GetSystemInfo),
            },
        ),
    }
}

/// Host page size, cached after the first query: the size, or the call that
/// finds it.
pub fn page_size(backend: &Backend) -> (r: Answer<HostCall, usize>)
    ensures
        r == page_size_answer(*backend),
        backend.wf() ==> (r matches Answer::Ready(size) ==> size > 0),
{
    match backend {
        Backend::Linux(state) => match linux::page_size(state) {
            Answer::Ready(size) => Answer::Ready(size),
            Answer::Ask(call) => Answer::Ask(HostCall::Linux(call)),
        },
        Backend::Windows(state) => match windows::page_size(state) {
            Answer::Ready(size) => Answer::Ready(size),
            Answer::Ask(call) => Answer::Ask(HostCall::Windows(call)),
        },
    }
}

/// The host answered that its page size is `value`.
pub fn page_size_is(backend: &mut Backend, value: i64) -> (size: usize)
    requires
        0 < value <= usize::MAX,
        old(backend).wf(),
    ensures
        size == (match old(backend).known_page_size() {
            Some(known) => known,
            None => value as usize,
        }),
        *final(backend) == old(backend).with_page_size(size),
        final(backend).wf(),
{
    match backend {
        Backend::Linux(state) => linux::page_size_is(state, value),
        Backend::Windows(state) => windows::page_size_is(state, value),
    }
}

/// The host call that reserves `len` bytes.
pub open spec fn reserve_call(backend: Backend, len: usize) -> HostCall {
    match backend {
        Backend::Linux(_) => HostCall::Linux(
            linux::Call::Mmap { addr: 0, len, prot: linux::PROT_NONE, flags: linux::RESERVE_FLAGS, fd: linux::NO_FILE, offset: 0 },
        ),
        Backend::Windows(_) => HostCall::Windows(
            windows::Call::VirtualAlloc { addr: 0, len, kind: windows::MEM_RESERVE, protect: windows::PAGE_NOACCESS },
        ),
    }
}

/// Reserve `len` bytes of address space with no access and no committed pages,
/// at an address of the host's choosing. The reservation costs virtual address
/// space only; [`commit`] backs part of it with pages before use, and
/// [`release`] returns the whole thing.
pub fn reserve(backend: &Backend, len: usize) -> (r: Request)
    ensures
        r.spec_call() == reserve_call(*backend, len),
        r.context() == (match *backend {
            Backend::Linux(_) => "mmap reservation"@,
            Backend::Windows(_) => "VirtualAlloc reserve"@,
        }),
{
    match backend {
        Backend::Linux(_) => Request::Linux(linux::reserve(len)),
        Backend::Windows(_) => Request::Windows(windows::reserve(len)),
    }
}

/// The host call that backs `len` bytes at `addr` with pages at `prot`.
pub open spec fn commit_call(backend: Backend, addr: u64, len: usize, prot: Prot) -> HostCall {
    match backend {
        Backend::Linux(_) => HostCall::Linux(
            linux::Call::Mprotect { addr, len, prot: linux::bits_of(prot) },
        ),
        Backend::Windows(_) => HostCall::Windows(
            windows::Call::VirtualAlloc {
                addr,
                len,
                kind: windows::MEM_COMMIT,
                protect: windows::flags_of(prot),
            },
        ),
    }
}

/// Back `[addr, addr+len)`, a sub-range of a prior [`reserve`], with pages at
/// `prot`. On Linux this is an `mprotect` over already-reserved address space;
/// on Windows a `MEM_COMMIT` `VirtualAlloc`.
pub fn commit(backend: &Backend, addr: u64, len: usize, prot: Prot) -> (r: Request)
    ensures
        r.spec_call() == commit_call(*backend, addr, len, prot),
        r.context() == (match *backend {
            Backend::Linux(_) => "mprotect commit"@,
            Backend::Windows(_) => "VirtualAlloc commit"@,
        }),
{
    match backend {
        Backend::Linux(_) => Request::Linux(linux::commit(addr, len, prot)),
        Backend::Windows(_) => Request::Windows(windows::commit(addr, len, prot)),
    }
}

/// The host call that maps `len` anonymous bytes at `prot`.
pub open spec fn map_anon_call(backend: Backend, len: usize, prot: Prot) -> HostCall {
    match backend {
        Backend::Linux(_) => HostCall::Linux(
            linux::Call::Mmap {
                addr: 0,
                len,
                prot: linux::bits_of(prot),
                flags: linux::ANON_FLAGS,
                fd: linux::NO_FILE,
                offset: 0,
            },
        ),
        Backend::Windows(_) => HostCall::Windows(
            windows::Call::VirtualAlloc {
                addr: 0,
                len,
                kind: windows::RESERVE_AND_COMMIT,
                protect: windows::flags_of(prot),
            },
        ),
    }
}

/// The words that a failed anonymous mapping is reported with.
pub open spec fn map_anon_context(backend: Backend) -> Seq<char> {
    match backend {
        Backend::Linux(_) => "mmap anon"@,
        Backend::Windows(_) => "VirtualAlloc"@,
    }
}

/// Reserve and commit `len` bytes at `prot` in one call, at an address of the
/// host's choosing. The ordinary anonymous-mapping path (the indirect-branch
/// table, a guest stack).
pub fn map_anon(backend: &Backend, len: usize, prot: Prot) -> (r: Request)
    ensures
        r.spec_call() == map_anon_call(*backend, len, prot),
        r.context() == map_anon_context(*backend),
{
    match backend {
        Backend::Linux(_) => Request::Linux(linux::map_anon(len, prot)),
        Backend::Windows(_) => Request::Windows(windows::map_anon(len, prot)),
    }
}

/// The host call that changes the protection of `len` bytes at `addr`.
pub open spec fn protect_call(backend: Backend, addr: u64, len: usize, prot: Prot) -> HostCall {
    match backend {
        Backend::Linux(_) => HostCall::Linux(
            linux::Call::Mprotect { addr, len, prot: linux::bits_of(prot) },
        ),
        Backend::Windows(_) => HostCall::Windows(
            windows::Call::VirtualProtect { addr, len, protect: windows::flags_of(prot) },
        ),
    }
}

/// Change the protection of already-committed pages `[addr, addr+len)`. Used to
/// arm a code page read-only for self-modifying-code detection and to restore
/// it read-write after the trap fires.
pub fn protect(backend: &Backend, addr: u64, len: usize, prot: Prot) -> (r: Request)
    ensures
        r.spec_call() == protect_call(*backend, addr, len, prot),
        r.context() == (match *backend {
            Backend::Linux(_) => "mprotect"@,
            Backend::Windows(_) => "VirtualProtect"@,
        }),
{
    match backend {
        Backend::Linux(_) => Request::Linux(linux::protect(addr, len, prot)),
        Backend::Windows(_) => Request::Windows(windows::protect(addr, len, prot)),
    }
}

/// The host call that releases the `len` bytes reserved at `addr`.
pub open spec fn release_call(backend: Backend, addr: u64, len: usize) -> HostCall {
    match backend {
        Backend::Linux(_) => HostCall::Linux(linux::Call::Munmap { addr, len }),
        Backend::Windows(_) => HostCall::Windows(
            windows::Call::VirtualFree { addr, len: 0, kind: windows::MEM_RELEASE },
        ),
    }
}

/// Release a whole reservation returned by [`reserve`] or [`map_anon`]. On
/// Windows a reservation is freed as a unit (`MEM_RELEASE`), so `addr` must be
/// the base a reserve/map call returned; `len` is advisory and used only by the
/// Linux `munmap`.
pub fn release(backend: &Backend, addr: u64, len: usize) -> (r: Request)
    ensures
        r.spec_call() == release_call(*backend, addr, len),
        r.context() == (match *backend {
            Backend::Linux(_) => "munmap"@,
            Backend::Windows(_) => "VirtualFree release"@,
        }),
{
    match backend {
        Backend::Linux(_) => Request::Linux(linux::release(addr, len)),
        Backend::Windows(_) => Request::Windows(windows::release(addr, len)),
    }
}

/// The host call that unmaps `len` bytes at `addr`.
pub open spec fn unmap_call(backend: Backend, addr: u64, len: usize) -> HostCall {
    match backend {
        Backend::Linux(_) => HostCall::Linux(linux::Call::Munmap { addr, len }),
        Backend::Windows(_) => HostCall::Windows(
            windows::Call::VirtualFree { addr, len: 0, kind: windows::MEM_RELEASE },
        ),
    }
}

/// Unmap a mapping (or a page-aligned sub-range of guest mappings) the guest
/// owns. On Linux a plain `munmap`, which may split a mapping; on Windows a
/// whole-reservation `MEM_RELEASE`.
pub fn unmap(backend: &Backend, addr: u64, len: usize) -> (r: Request)
    ensures
        r.spec_call() == unmap_call(*backend, addr, len),
        r.context() == (match *backend {
            Backend::Linux(_) => "munmap"@,
            Backend::Windows(_) => "VirtualFree"@,
        }),
{
    match backend {
        Backend::Linux(_) => Request::Linux(linux::unmap(addr, len)),
        Backend::Windows(_) => Request::Windows(windows::unmap(addr, len)),
    }
}

/// Whether the host failed a call by returning `value`.
pub open spec fn failed(call: HostCall, value: i64) -> bool {
    match call {
        HostCall::Linux(call) => linux::failed(call, value),
        HostCall::Windows(_) => value == 0,
    }
}

/// What the host's reply to a request means: the word it returned (an address,
/// where the request maps memory), or the host's error.
pub fn complete(request: &Request, reply: Reply) -> (r: Result<u64, Error>)
    ensures
        match r {
            Ok(word) => !failed(request.spec_call(), reply.value) && word == reply.value as u64,
            Err(e) => failed(request.spec_call(), reply.value) && e@ == (ErrorView::Io {
                context: request.context(),
                code: reply.os_error,
            }),
        },
{
    match request {
        Request::Linux(request) => linux::complete(request, reply),
        Request::Windows(request) => windows::complete(request, reply),
    }
}

/// The next move of a guest copy.
#[derive(Clone, Copy, PartialEq, Eq, Debug, Structural)]
pub enum CopyStep {
    /// The copy is settled: it succeeded or failed.
    Done(bool),
    /// Ask the host which process this is, and make the store that
    /// [`identified`] names for the answer.
    Identify(HostCall),
    /// Make the store, and hand its reply to [`stored`].
    Store(HostCall),
}

/// The host call that stores `buf` at `addr` if the runtime's process is `pid`,
/// which only Linux needs to know.
pub open spec fn store_call(backend: Backend, pid: i32, addr: u64, buf: Seq<u8>) -> HostCall {
    let len = buf.len() as usize;
    match backend {
        Backend::Linux(_) => HostCall::Linux(linux::Call::ProcessVmWritev { pid, addr, len }),
        Backend::Windows(_) => HostCall::Windows(windows::Call::GuardedCopy { addr, len }),
    }
}

/// The next move of a copy of `buf` to `addr`: an empty copy succeeds and a
/// copy to null fails without the host. Else the host stores, on Linux once it
/// is known which process to store to.
pub open spec fn copy_step(backend: Backend, addr: u64, buf: Seq<u8>) -> CopyStep {
    if buf.len() == 0 {
        CopyStep::Done(true)
    } else if addr == 0 {
        CopyStep::Done(false)
    } else {
        match backend {
            Backend::Linux(state) => if state.pid == 0 {
                CopyStep::Identify(HostCall::Linux(linux::Call::Getpid))
            } else {
                CopyStep::Store(store_call(backend, state.pid, addr, buf))
            },
            Backend::Windows(_) => CopyStep::Store(store_call(backend, 0, addr, buf)),
        }
    }
}

/// Copy `buf` into guest memory at `addr`, tolerating an unmapped or read-only
/// destination the way the kernel's `copy_to_user` does: a failed or short copy
/// counts as failed rather than faulting the runtime. An empty copy succeeds
/// and a copy to null fails without asking the host.
pub fn copy_to_guest(backend: &Backend, addr: u64, buf: &[u8]) -> (step: CopyStep)
    ensures
        step == copy_step(*backend, addr, buf@),
{
    if buf.is_empty() {
        return CopyStep::Done(true);
    }
    if addr == 0 {
        return CopyStep::Done(false);
    }
    match backend {
        Backend::Linux(state) => match linux::copy_to_guest(state, addr, buf) {
            Answer::Ready(call) => CopyStep::Store(HostCall::Linux(call)),
            Answer::Ask(call) => CopyStep::Identify(HostCall::Linux(call)),
        },
        Backend::Windows(_) => CopyStep::Store(
            HostCall::Windows(windows::copy_to_guest(addr, buf)),
        ),
    }
}

/// The host answered that the runtime's process is `pid`: remember that, and
/// store `buf` at `addr` there, whatever the answer was.
pub fn identified(backend: &mut Backend, pid: i32, addr: u64, buf: &[u8]) -> (call: HostCall)
    ensures
        *final(backend) == old(backend).with_pid(pid),
        call == store_call(*old(backend), pid, addr, buf@),
{
    match backend {
        Backend::Linux(state) => {
            linux::own_pid_is(state, pid);
            HostCall::Linux(linux::store_as(pid, addr, buf))
        },
        Backend::Windows(_) => HostCall::Windows(windows::copy_to_guest(addr, buf)),
    }
}

/// Whether the store that `call` made, which returned `value`, reached all of
/// its destination.
pub open spec fn store_succeeded(call: HostCall, value: i64) -> bool {
    match call {
        HostCall::Linux(linux::Call::ProcessVmWritev { len, .. }) => value == len,
        HostCall::Windows(windows::Call::GuardedCopy { .. }) => value != 0,
        _ => false,
    }
}

/// Whether the store that `call` made, which returned `value`, reached all of
/// its destination. A short copy did not, and no other call is a store.
pub fn stored(call: HostCall, value: i64) -> (r: bool)
    ensures
        r == store_succeeded(call, value),
{
    match call {
        HostCall::Linux(linux::Call::ProcessVmWritev { len, .. }) => linux::copied_all(len, value),
        HostCall::Windows(windows::Call::GuardedCopy { .. }) => value != 0,
        _ => false,
    }
}

/// One-time process setup the memory layer needs (on Linux, a `pthread_atfork`
/// hook that drops a pid cache in the child). Idempotent: once its outcome is
/// known, the host is not asked again.
pub fn init(backend: &Backend) -> (r: Answer<HostCall, Result<(), Error>>)
    ensures
        match r {
            Answer::Ready(outcome) => backend.setup() is Some && linux::init_outcome(
                outcome,
                backend.setup()->0,
            ),
            Answer::Ask(call) => backend.setup() is None && call == HostCall::Linux(
                linux::Call::PthreadAtfork,
            ),
        },
{
    match backend {
        Backend::Linux(state) => match linux::init(state) {
            Answer::Ready(outcome) => Answer::Ready(outcome),
            Answer::Ask(call) => Answer::Ask(HostCall::Linux(call)),
        },
        Backend::Windows(_) => Answer::Ready(windows::init()),
    }
}

/// The setup call returned `ret`.
pub fn init_is(backend: &mut Backend, ret: i32) -> (r: Result<(), Error>)
    ensures
        ({
            let kept = match old(backend).setup() {
                Some(known) => known,
                None => ret,
            };
            &&& *final(backend) == old(backend).with_setup(kept)
            &&& linux::init_outcome(r, kept)
        }),
{
    match backend {
        Backend::Linux(state) => linux::init_is(state, ret),
        Backend::Windows(_) => windows::init(),
    }
}

/// Drop any cached process identity after a raw-`clone` fork the C library's
/// fork handlers never saw. A no-op where the memory layer caches nothing.
pub fn reset_after_fork(backend: &mut Backend)
    ensures
        *final(backend) == old(backend).with_pid(0),
{
    match backend {
        Backend::Linux(state) => linux::reset_after_fork(state),
        Backend::Windows(state) => windows::reset_after_fork(state),
    }
}

/// Once the page size is known the host is not asked again, whatever else is
/// learnt or forgotten.
pub proof fn law_page_size_is_asked_once(backend: Backend, size: usize, pid: i32, ret: i32)
    ensures
        page_size_answer(backend.with_page_size(size)) == Answer::<HostCall, usize>::Ready(size),
        page_size_answer(backend.with_page_size(size).with_pid(pid).with_setup(ret))
            == Answer::<HostCall, usize>::Ready(size),
{
}

/// Once the setup is tried its outcome stays, whatever else is learnt or
/// forgotten.
pub proof fn law_setup_is_tried_once(backend: Backend, size: usize, pid: i32, ret: i32)
    requires
        backend.setup() == Some(ret),
    ensures
        backend.with_setup(ret) == backend,
        backend.with_page_size(size).with_pid(pid).setup() == Some(ret),
{
}

/// After a fork no copy is aimed at a process before the host is asked again
/// which one this is; the copy that asked goes to the process that the host
/// answered, and so do later ones, unless the answer was 0, which is not kept.
pub proof fn law_fork_forgets_the_process(backend: Backend, addr: u64, buf: Seq<u8>, pid: i32)
    requires
        backend is Linux,
        addr != 0,
        buf.len() > 0,
    ensures
        copy_step(backend.with_pid(0), addr, buf) == CopyStep::Identify(
            HostCall::Linux(linux::Call::Getpid),
        ),
        store_call(backend.with_pid(0), pid, addr, buf) == HostCall::Linux(
            linux::Call::ProcessVmWritev { pid, addr, len: buf.len() as usize },
        ),
        copy_step(backend.with_pid(0).with_pid(pid), addr, buf) == (if pid == 0 {
            CopyStep::Identify(HostCall::Linux(linux::Call::Getpid))
        } else {
            CopyStep::Store(store_call(backend, pid, addr, buf))
        }),
{
}

/// Every protection grants reads, only a read-only one withholds writes, only
/// the code cache's grants execution, and no two are the same to the host. The
/// read, write and execute bits are worth 1, 2 and 4.
pub proof fn law_protections_grant_what_they_say(prot: Prot, other: Prot)
    ensures
        linux::bits_of(prot) % 2 == 1,
        linux::bits_of(prot) / 2 % 2 == 1 <==> prot != Prot::Read,
        linux::bits_of(prot) / 4 == 1 <==> prot == Prot::ReadWriteExec,
        linux::bits_of(prot) == linux::bits_of(other) <==> prot == other,
        windows::flags_of(prot) == windows::flags_of(other) <==> prot == other,
        windows::flags_of(prot) != windows::PAGE_NOACCESS,
{
}

} // verus!
