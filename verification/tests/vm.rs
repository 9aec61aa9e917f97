//! Host memory requests, and the fault handler's decisions.

use chimera::error::Error;
use chimera::exec::{map_stack, map_teb};
use chimera::fault::{chimera_veh, Exception, GuardedCode, Verdict};
use chimera::vm;
use chimera::vm::{linux, windows, Answer, Backend, CopyStep, HostCall, Prot, Reply, Request};
use windows_sys::Win32::System::Memory as win;

fn on_linux() -> Backend {
    Backend::Linux(linux::State::new())
}

fn on_windows() -> Backend {
    Backend::Windows(windows::State::new())
}

fn linux_call(r: Request) -> linux::Call {
    match r.call() {
        HostCall::Linux(call) => call,
        HostCall::Windows(_) => panic!("a Windows call"),
    }
}

fn windows_call(r: Request) -> windows::Call {
    match r.call() {
        HostCall::Windows(call) => call,
        HostCall::Linux(_) => panic!("a Linux call"),
    }
}

fn error_of(r: Result<u64, Error>) -> (String, i32) {
    match r {
        Err(Error::Io { context, code }) => (context, code),
        other => panic!("unexpected {other:?}"),
    }
}

#[test]
fn linux_protections_are_the_c_librarys() {
    assert_eq!(linux::prot_bits(Prot::Read), libc::PROT_READ);
    assert_eq!(
        linux::prot_bits(Prot::ReadWrite),
        libc::PROT_READ | libc::PROT_WRITE
    );
    assert_eq!(
        linux::prot_bits(Prot::ReadWriteExec),
        libc::PROT_READ | libc::PROT_WRITE | libc::PROT_EXEC
    );
    assert_eq!(linux::prot_bits(Prot::ReadWriteExec), 7);
}

#[test]
fn windows_protections_are_the_apis() {
    assert_eq!(windows::prot_flags(Prot::Read), win::PAGE_READONLY);
    assert_eq!(windows::prot_flags(Prot::ReadWrite), win::PAGE_READWRITE);
    assert_eq!(
        windows::prot_flags(Prot::ReadWriteExec),
        win::PAGE_EXECUTE_READWRITE
    );
    assert_eq!(windows::prot_flags(Prot::ReadWriteExec), 0x40);
}

#[test]
fn constants_are_the_hosts() {
    assert_eq!(linux::PROT_NONE, libc::PROT_NONE);
    assert_eq!(linux::PROT_READ, libc::PROT_READ);
    assert_eq!(linux::PROT_WRITE, libc::PROT_WRITE);
    assert_eq!(linux::PROT_EXEC, libc::PROT_EXEC);
    assert_eq!(linux::MAP_PRIVATE, libc::MAP_PRIVATE);
    assert_eq!(linux::MAP_ANONYMOUS, libc::MAP_ANONYMOUS);
    assert_eq!(linux::MAP_NORESERVE, libc::MAP_NORESERVE);
    assert_eq!(linux::MAP_FAILED, libc::MAP_FAILED as i64);
    assert_eq!(linux::SC_PAGESIZE, libc::_SC_PAGESIZE);
    assert_eq!(windows::MEM_COMMIT, win::MEM_COMMIT);
    assert_eq!(windows::MEM_RESERVE, win::MEM_RESERVE);
    assert_eq!(windows::MEM_RELEASE, win::MEM_RELEASE);
    assert_eq!(windows::PAGE_NOACCESS, win::PAGE_NOACCESS);
    assert_eq!(windows::PAGE_READONLY, win::PAGE_READONLY);
    assert_eq!(windows::PAGE_READWRITE, win::PAGE_READWRITE);
    assert_eq!(
        windows::PAGE_EXECUTE_READWRITE,
        win::PAGE_EXECUTE_READWRITE
    );
}

#[test]
fn linux_requests() {
    let b = on_linux();
    let mapping = |len, prot, flags| linux::Call::Mmap {
        addr: 0,
        len,
        prot,
        flags,
        fd: -1,
        offset: 0,
    };
    assert_eq!(
        linux_call(vm::reserve(&b, 0x5000)),
        mapping(
            0x5000,
            libc::PROT_NONE,
            libc::MAP_PRIVATE | libc::MAP_ANONYMOUS | libc::MAP_NORESERVE
        )
    );
    assert_eq!(
        linux_call(vm::map_anon(&b, 0x5000, Prot::ReadWrite)),
        mapping(0x5000, 3, libc::MAP_PRIVATE | libc::MAP_ANONYMOUS)
    );
    let opened = linux::Call::Mprotect {
        addr: 0x1000,
        len: 0x2000,
        prot: 7,
    };
    assert_eq!(
        linux_call(vm::commit(&b, 0x1000, 0x2000, Prot::ReadWriteExec)),
        opened
    );
    assert_eq!(
        linux_call(vm::protect(&b, 0x1000, 0x2000, Prot::ReadWriteExec)),
        opened
    );
    let gone = linux::Call::Munmap {
        addr: 0x1000,
        len: 0x2000,
    };
    assert_eq!(linux_call(vm::release(&b, 0x1000, 0x2000)), gone);
    assert_eq!(linux_call(vm::unmap(&b, 0x1000, 0x2000)), gone);
}

#[test]
fn windows_requests() {
    let b = on_windows();
    let alloc = |addr, len, kind, protect| windows::Call::VirtualAlloc {
        addr,
        len,
        kind,
        protect,
    };
    assert_eq!(
        windows_call(vm::reserve(&b, 0x5000)),
        alloc(0, 0x5000, win::MEM_RESERVE, win::PAGE_NOACCESS)
    );
    assert_eq!(
        windows_call(vm::commit(&b, 0x1000, 0x2000, Prot::ReadWriteExec)),
        alloc(0x1000, 0x2000, win::MEM_COMMIT, win::PAGE_EXECUTE_READWRITE)
    );
    assert_eq!(
        windows_call(vm::map_anon(&b, 0x5000, Prot::Read)),
        alloc(
            0,
            0x5000,
            win::MEM_RESERVE | win::MEM_COMMIT,
            win::PAGE_READONLY
        )
    );
    assert_eq!(
        windows_call(vm::protect(&b, 0x1000, 0x2000, Prot::ReadWrite)),
        windows::Call::VirtualProtect {
            addr: 0x1000,
            len: 0x2000,
            protect: win::PAGE_READWRITE
        }
    );
    // A reservation is freed as a unit.
    let freed = windows::Call::VirtualFree {
        addr: 0x1000,
        len: 0,
        kind: win::MEM_RELEASE,
    };
    assert_eq!(windows_call(vm::release(&b, 0x1000, 0x2000)), freed);
    assert_eq!(windows_call(vm::unmap(&b, 0x1000, 0x2000)), freed);
}

#[test]
fn replies_are_read_as_the_host_means_them() {
    let reply = |value| Reply { value, os_error: 12 };
    let l = on_linux();
    let reserve = vm::reserve(&l, 0x1000);
    let failed = libc::MAP_FAILED as i64;
    assert_eq!(
        error_of(vm::complete(&reserve, reply(failed))),
        ("mmap reservation".to_string(), 12)
    );
    assert_eq!(vm::complete(&reserve, reply(0x7000)), Ok(0x7000));
    let anon = vm::map_anon(&l, 0x1000, Prot::Read);
    assert_eq!(error_of(vm::complete(&anon, reply(-1))).0, "mmap anon");
    let commit = vm::commit(&l, 0x1000, 0x1000, Prot::Read);
    assert_eq!(vm::complete(&commit, reply(0)), Ok(0));
    assert_eq!(
        error_of(vm::complete(&commit, reply(-1))).0,
        "mprotect commit"
    );
    let protect = vm::protect(&l, 0x1000, 0x1000, Prot::Read);
    assert_eq!(error_of(vm::complete(&protect, reply(-1))).0, "mprotect");

    let w = on_windows();
    let contexts = [
        (vm::reserve(&w, 1), "VirtualAlloc reserve"),
        (vm::commit(&w, 1, 1, Prot::Read), "VirtualAlloc commit"),
        (vm::map_anon(&w, 1, Prot::Read), "VirtualAlloc"),
        (vm::protect(&w, 1, 1, Prot::Read), "VirtualProtect"),
    ];
    for (request, context) in contexts {
        assert_eq!(
            error_of(vm::complete(&request, reply(0))),
            (context.to_string(), 12)
        );
        assert_eq!(vm::complete(&request, reply(0x9000)), Ok(0x9000));
    }
}

#[test]
fn the_page_size_is_asked_for_once() {
    let mut b = on_linux();
    assert_eq!(
        vm::page_size(&b),
        Answer::Ask(HostCall::Linux(linux::Call::Sysconf {
            name: libc::_SC_PAGESIZE
        }))
    );
    assert_eq!(vm::page_size_is(&mut b, 4096), 4096);
    assert_eq!(vm::page_size(&b), Answer::Ready(4096));
    assert_eq!(vm::page_size_is(&mut b, 8192), 4096);
    vm::reset_after_fork(&mut b);
    assert_eq!(vm::page_size(&b), Answer::Ready(4096));

    let mut b = on_windows();
    assert_eq!(
        vm::page_size(&b),
        Answer::Ask(HostCall::Windows(windows::Call::GetSystemInfo))
    );
    assert_eq!(vm::page_size_is(&mut b, 4096), 4096);
    assert_eq!(vm::page_size(&b), Answer::Ready(4096));
}

#[test]
fn copies_that_need_no_host() {
    for b in [on_linux(), on_windows()] {
        assert_eq!(vm::copy_to_guest(&b, 0, &[]), CopyStep::Done(true));
        assert_eq!(vm::copy_to_guest(&b, 0x1000, &[]), CopyStep::Done(true));
        assert_eq!(vm::copy_to_guest(&b, 0, &[1]), CopyStep::Done(false));
    }
}

#[test]
fn a_fork_forgets_the_process() {
    let mut b = on_linux();
    let data = [1, 2, 3];
    let ask = CopyStep::Identify(HostCall::Linux(linux::Call::Getpid));
    let store = |pid| {
        HostCall::Linux(linux::Call::ProcessVmWritev {
            pid,
            addr: 0x1000,
            len: 3,
        })
    };
    assert_eq!(vm::copy_to_guest(&b, 0x1000, &data), ask);
    assert_eq!(vm::identified(&mut b, 41, 0x1000, &data), store(41));
    assert_eq!(vm::copy_to_guest(&b, 0x1000, &data), CopyStep::Store(store(41)));
    vm::reset_after_fork(&mut b);
    assert_eq!(vm::copy_to_guest(&b, 0x1000, &data), ask);
    assert_eq!(vm::identified(&mut b, 42, 0x1000, &data), store(42));
    assert_eq!(vm::copy_to_guest(&b, 0x1000, &data), CopyStep::Store(store(42)));
}

#[test]
fn a_copy_stores_with_whatever_pid_the_host_gave() {
    let mut b = on_linux();
    let call = vm::identified(&mut b, 0, 0x1000, &[1, 2, 3]);
    assert_eq!(
        call,
        HostCall::Linux(linux::Call::ProcessVmWritev {
            pid: 0,
            addr: 0x1000,
            len: 3,
        })
    );
    assert_eq!(b, on_linux());
    let mut b = on_windows();
    assert_eq!(
        vm::identified(&mut b, 7, 0x1000, &[1, 2, 3]),
        HostCall::Windows(windows::Call::GuardedCopy {
            addr: 0x1000,
            len: 3,
        })
    );
}

#[test]
fn a_short_copy_fails() {
    let call = HostCall::Linux(linux::Call::ProcessVmWritev {
        pid: 1,
        addr: 0x1000,
        len: 3,
    });
    assert!(vm::stored(call, 3));
    assert!(!vm::stored(call, 2));
    assert!(!vm::stored(call, -1));
    let call = HostCall::Windows(windows::Call::GuardedCopy {
        addr: 0x1000,
        len: 3,
    });
    assert_eq!(vm::copy_to_guest(&on_windows(), 0x1000, &[1, 2, 3]), CopyStep::Store(call));
    assert!(vm::stored(call, 1));
    assert!(!vm::stored(call, 0));
    assert!(!vm::stored(HostCall::Linux(linux::Call::Getpid), 5));
}

#[test]
fn setup_is_tried_once() {
    let mut b = on_linux();
    assert_eq!(
        vm::init(&b),
        Answer::Ask(HostCall::Linux(linux::Call::PthreadAtfork))
    );
    let failure = || Err(Error::io("pthread_atfork", 12));
    assert_eq!(vm::init_is(&mut b, 12), failure());
    assert_eq!(vm::init(&b), Answer::Ready(failure()));
    assert_eq!(vm::init_is(&mut b, 0), failure());

    let mut b = on_linux();
    assert_eq!(vm::init_is(&mut b, 0), Ok(()));
    vm::reset_after_fork(&mut b);
    assert_eq!(vm::init(&b), Answer::Ready(Ok(())));

    let mut b = on_windows();
    assert_eq!(vm::init(&b), Answer::Ready(Ok(())));
    vm::reset_after_fork(&mut b);
    vm::identified(&mut b, 7, 0x1000, &[1]);
    assert_eq!(b, on_windows());
}

#[test]
fn guest_stack_and_teb_are_writable_mappings() {
    let (l, w) = (on_linux(), on_windows());
    assert_eq!(
        map_stack(&l).call(),
        vm::map_anon(&l, 8 * 1024 * 1024, Prot::ReadWrite).call()
    );
    assert_eq!(
        map_teb(&w).call(),
        vm::map_anon(&w, 4096, Prot::ReadWrite).call()
    );
}

#[test]
fn faults_in_guarded_copies_are_recovered() {
    let code = GuardedCode {
        fetch_start: 0x100,
        fetch_fixup: 0x120,
        copy_fixup: 0x200,
    };
    let raise = |code: u32, rip| Some(Exception {
        code: code as i32,
        rip,
    });
    let search = Verdict {
        disposition: 0,
        resume_at: None,
    };
    let resume = |at| Verdict {
        disposition: -1,
        resume_at: Some(at),
    };
    for bad_access in [0xC000_0005, 0xC000_0006] {
        assert_eq!(chimera_veh(raise(bad_access, 0x100), &code, false), resume(0x120));
        assert_eq!(chimera_veh(raise(bad_access, 0x11F), &code, true), resume(0x120));
        assert_eq!(chimera_veh(raise(bad_access, 0x120), &code, false), search);
        assert_eq!(chimera_veh(raise(bad_access, 0xFF), &code, true), resume(0x200));
    }
    assert_eq!(chimera_veh(raise(0xC000_001D, 0x100), &code, true), search);
    assert_eq!(chimera_veh(None, &code, true), search);
}
