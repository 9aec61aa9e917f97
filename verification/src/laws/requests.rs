//! Host calls, argument by argument.

use vstd::prelude::*;

use crate::error::{Error, ErrorView};
use crate::vm::linux;
use crate::vm::linux::{bits_of, init_outcome};
use crate::vm::windows;
use crate::vm::windows::flags_of;
use crate::vm::{commit_call, copy_step, failed, map_anon_call, page_size_answer, protect_call};
use crate::vm::{release_call, reserve_call, store_call, store_succeeded, unmap_call};
use crate::vm::{Answer, Backend, CopyStep, HostCall, Prot, Request};

verus! {

/// The `PROT_*` bits and the `PAGE_*` flags of each protection.
pub proof fn law_protections_by_number()
    ensures
        bits_of(Prot::Read) == 1,
        bits_of(Prot::ReadWrite) == 3,
        bits_of(Prot::ReadWriteExec) == 7,
        flags_of(Prot::Read) == 0x02,
        flags_of(Prot::ReadWrite) == 0x04,
        flags_of(Prot::ReadWriteExec) == 0x40,
{
}

/// On Linux address space is reserved, opened, mapped, protected and unmapped
/// as asked, to the byte: inaccessible, private and anonymous without swap for
/// a reservation, at the protection that was asked for else.
pub proof fn law_linux_requests(state: linux::State, addr: u64, len: usize, prot: Prot)
    ensures
        ({
            let host = Backend::Linux(state);
            let opened = HostCall::Linux(linux::Call::Mprotect { addr, len, prot: bits_of(prot) });
            let gone = HostCall::Linux(linux::Call::Munmap { addr, len });
            &&& reserve_call(host, len) matches HostCall::Linux(linux::Call::Mmap {
                addr: at,
                len: size,
                prot: access,
                flags,
                fd,
                offset,
            })
            &&& at == 0 && size == len && access == 0 && flags == 0x4022 && fd == -1 && offset == 0
            &&& map_anon_call(host, len, prot) matches HostCall::Linux(linux::Call::Mmap {
                addr: at,
                len: size,
                prot: access,
                flags,
                fd,
                offset,
            })
            &&& at == 0 && size == len && access == bits_of(prot) && flags == 0x22 && fd == -1
                && offset == 0
            &&& commit_call(host, addr, len, prot) == opened
            &&& protect_call(host, addr, len, prot) == opened
            &&& release_call(host, addr, len) == gone
            &&& unmap_call(host, addr, len) == gone
        }),
{
}

/// On Windows address space is reserved, committed, mapped and protected as
/// asked, to the byte, and freed as a whole, whatever length is given.
pub proof fn law_windows_requests(state: windows::State, addr: u64, len: usize, prot: Prot)
    ensures
        ({
            let host = Backend::Windows(state);
            let gone = HostCall::Windows(
                windows::Call::VirtualFree { addr, len: 0, kind: 0x8000 },
            );
            &&& reserve_call(host, len) == HostCall::Windows(
                windows::Call::VirtualAlloc { addr: 0, len, kind: 0x2000, protect: 0x1 },
            )
            &&& commit_call(host, addr, len, prot) == HostCall::Windows(
                windows::Call::VirtualAlloc { addr, len, kind: 0x1000, protect: flags_of(prot) },
            )
            &&& map_anon_call(host, len, prot) == HostCall::Windows(
                windows::Call::VirtualAlloc { addr: 0, len, kind: 0x3000, protect: flags_of(prot) },
            )
            &&& protect_call(host, addr, len, prot) == HostCall::Windows(
                windows::Call::VirtualProtect { addr, len, protect: flags_of(prot) },
            )
            &&& release_call(host, addr, len) == gone
            &&& unmap_call(host, addr, len) == gone
        }),
{
}

/// A mapping failed on Linux exactly when its address is all ones, any other
/// Linux call exactly when it did not return zero, and a Windows call exactly
/// when it returned zero.
pub proof fn law_failures(call: HostCall, value: i64)
    ensures
        call matches HostCall::Linux(c) ==> (c is Mmap ==> (failed(call, value) <==> value == -1)),
        call matches HostCall::Linux(c) ==> (!(c is Mmap) ==> (failed(call, value) <==> value
            != 0)),
        call is Windows ==> (failed(call, value) <==> value == 0),
{
}

/// A copy needs no host exactly when it is empty or to null, and succeeds then
/// exactly when it is empty. Else it stores at its own address and in its own
/// length: on Linux in the process that is known, which 0 is not.
pub proof fn law_copies(backend: Backend, addr: u64, buf: Seq<u8>)
    requires
        buf.len() <= usize::MAX,
    ensures
        buf.len() == 0 ==> copy_step(backend, addr, buf) == CopyStep::Done(true),
        buf.len() > 0 && addr == 0 ==> copy_step(backend, addr, buf) == CopyStep::Done(false),
        buf.len() > 0 && addr != 0 ==> match (backend, copy_step(backend, addr, buf)) {
            (Backend::Linux(state), CopyStep::Identify(call)) => state.pid == 0 && call
                == HostCall::Linux(linux::Call::Getpid),
            (
                Backend::Linux(state),
                CopyStep::Store(HostCall::Linux(linux::Call::ProcessVmWritev { pid, addr: at, len })),
            ) => state.pid != 0 && pid == state.pid && at == addr && len == buf.len(),
            (
                Backend::Windows(_),
                CopyStep::Store(HostCall::Windows(windows::Call::GuardedCopy { addr: at, len })),
            ) => at == addr && len == buf.len(),
            _ => false,
        },
{
}

/// A store that follows the host's answer goes to the process that it named,
/// at the copy's own address and in its own length; and it succeeds exactly
/// when all of it was stored, or on Windows when the guarded copy did not fail.
pub proof fn law_stores(backend: Backend, pid: i32, addr: u64, buf: Seq<u8>, value: i64)
    requires
        buf.len() <= usize::MAX,
    ensures
        match (backend, store_call(backend, pid, addr, buf)) {
            (
                Backend::Linux(_),
                HostCall::Linux(linux::Call::ProcessVmWritev { pid: to, addr: at, len }),
            ) => to == pid && at == addr && len == buf.len(),
            (
                Backend::Windows(_),
                HostCall::Windows(windows::Call::GuardedCopy { addr: at, len }),
            ) => at == addr && len == buf.len(),
            _ => false,
        },
        backend is Linux ==> (store_succeeded(store_call(backend, pid, addr, buf), value)
            <==> value == buf.len()),
        backend is Windows ==> (store_succeeded(store_call(backend, pid, addr, buf), value)
            <==> value != 0),
{
}

/// Setting up succeeds exactly when the host returned zero, and else reports
/// what it returned.
pub proof fn law_setup_outcomes(outcome: Result<(), Error>, ret: i32)
    requires
        init_outcome(outcome, ret),
    ensures
        outcome is Ok <==> ret == 0,
        outcome matches Err(e) ==> e@ == (ErrorView::Io { context: "pthread_atfork"@, code: ret }),
{
}

/// A host whose page size is not known is asked for it, and what a backend
/// learns or forgets of one thing leaves the others as they were.
pub proof fn law_what_a_backend_remembers(backend: Backend, size: usize, pid: i32, ret: i32)
    ensures
        backend.known_page_size() is None && backend is Linux ==> page_size_answer(backend)
            == Answer::<HostCall, usize>::Ask(HostCall::Linux(linux::Call::Sysconf { name: 30 })),
        backend.known_page_size() is None && backend is Windows ==> page_size_answer(backend)
            == Answer::<HostCall, usize>::Ask(HostCall::Windows(windows::Call::GetSystemInfo)),
        backend.with_page_size(size).known_page_size() == Some(size),
        backend.with_page_size(size).setup() == backend.setup(),
        backend.with_pid(pid).known_page_size() == backend.known_page_size(),
        backend.with_pid(pid).setup() == backend.setup(),
        backend.with_setup(ret).known_page_size() == backend.known_page_size(),
        backend is Linux ==> backend.with_setup(ret).setup() == Some(ret),
        backend is Windows ==> backend.setup() == Some(0i32),
        backend matches Backend::Linux(state) ==> {
            &&& backend.with_pid(pid) == Backend::Linux(linux::State { pid, ..state })
            &&& backend.with_page_size(size) == Backend::Linux(
                linux::State { page_size: Some(size), ..state },
            )
            &&& backend.with_setup(ret) == Backend::Linux(
                linux::State { atfork: Some(ret), ..state },
            )
        },
{
}

/// A request is the call that its backend made of it, with its backend's words.
pub proof fn law_requests_are_their_backends(
    linux_request: linux::Request,
    windows_request: windows::Request,
)
    ensures
        Request::Linux(linux_request).spec_call() == HostCall::Linux(linux_request.call),
        Request::Linux(linux_request).context() == linux_request.context@,
        Request::Windows(windows_request).spec_call() == HostCall::Windows(windows_request.call),
        Request::Windows(windows_request).context() == windows_request.context@,
{
}

/// An error is seen with all it holds.
pub proof fn law_errors_are_seen_whole(words: String, code: i32)
    ensures
        Error::BadBinary(words)@ == ErrorView::BadBinary(words@),
        Error::Unsupported(words)@ == ErrorView::Unsupported(words@),
        (Error::Io { context: words, code })@ == (ErrorView::Io { context: words@, code }),
{
}

} // verus!
