//! The run loop, driven by a small interpreter in place of translated code.

use std::collections::BTreeMap;
use std::rc::Rc;
use std::sync::Mutex;

use chimera::error::Error;
use chimera::exec::{entry_frame, entry_guest, STACK_SIZE, TEB_SIZE};
use chimera::image::{map_pe, plan_map, MapOutcome};
use chimera::run::{Action, Event, Guest};
use chimera::space::{AddressSpace, Region};
use chimera::state::ThreadState;
use chimera::syscall::{host_syscall, SyscallResult, SystemCall, SystemCalls};

const PAGE: usize = 0x1000;
const DEFAULT_CODE_CACHE_SIZE: usize = 0x100_0000;

const RAX: usize = 0;
const RCX: usize = 2;
const RSP: usize = 7;
const R10: usize = 10;
const R11: usize = 11;

const ZF: u64 = 1 << 6;
const SF: u64 = 1 << 7;
const OF: u64 = 1 << 11;

/// Tags a guest address as the host address of its translation.
const HOST: u64 = 1 << 63;
/// Where `xmm0` stands in the XSAVE area.
const XMM0: usize = 160;

/// Guest memory, and the translations made from it.
struct Machine {
    memory: Vec<(u64, Vec<u8>)>,
    translations: BTreeMap<u64, Vec<u8>>,
    writes_denied: bool,
    entries: usize,
}

impl Machine {
    fn new() -> Machine {
        Machine {
            memory: Vec::new(),
            translations: BTreeMap::new(),
            writes_denied: false,
            entries: 0,
        }
    }

    fn map(&mut self, base: u64, bytes: Vec<u8>) {
        self.memory.push((base, bytes));
    }

    fn byte(&mut self, addr: u64) -> &mut u8 {
        for (base, bytes) in self.memory.iter_mut() {
            if addr >= *base && addr < *base + bytes.len() as u64 {
                return &mut bytes[(addr - *base) as usize];
            }
        }
        panic!("guest access to unmapped {addr:#x}");
    }

    fn load64(&mut self, addr: u64) -> u64 {
        let mut word = [0u8; 8];
        for (i, b) in word.iter_mut().enumerate() {
            *b = *self.byte(addr + i as u64);
        }
        u64::from_le_bytes(word)
    }

    /// Store `bytes`, dropping the translations that they make stale.
    fn store(&mut self, addr: u64, bytes: &[u8]) {
        for (i, b) in bytes.iter().enumerate() {
            *self.byte(addr + i as u64) = *b;
        }
        let end = addr + bytes.len() as u64;
        self.translations
            .retain(|rip, code| end <= *rip || addr >= *rip + code.len() as u64);
    }

    /// Translate the block at `rip`: up to and with the first branch.
    fn resolve(&mut self, rip: u64) -> u64 {
        assert!(!self.writes_denied);
        let mut code = Vec::new();
        loop {
            let at = rip + code.len() as u64;
            let (len, ends) = match *self.byte(at) {
                0xC3 | 0xCC => (1, true),
                0x75 | 0x7F | 0xEB => (2, true),
                0x0F => (2, true),
                0xFF => (2, *self.byte(at + 1) == 0xD0),
                0x31 | 0x01 | 0x6A => (2, false),
                0x58 => (1, false),
                0x83 => (3, false),
                0xF2 => (4, false),
                0xB8 | 0xB9 => (5, false),
                0x48 | 0x49 | 0xC6 => (7, false),
                0x65 => (9, false),
                other => panic!("unknown opcode {other:#x}"),
            };
            for i in 0..len {
                code.push(*self.byte(at + i));
            }
            if ends {
                break;
            }
        }
        self.translations.insert(rip, code);
        rip | HOST
    }

    /// Run the translated block at `host_pc`.
    fn dispatch(&mut self, ts: &mut ThreadState, host_pc: u64) {
        assert!(self.writes_denied);
        assert_eq!(ts.exit_kind, 0);
        assert_eq!(host_pc, ts.rip | HOST);
        self.entries += 1;
        let start = ts.rip;
        let code = self.translations[&start].clone();
        let mut at = 0usize;
        while at < code.len() {
            let op = &code[at..];
            let imm8 = |i: usize| op[i] as i8 as i64 as u64;
            let imm32 =
                |i: usize| i32::from_le_bytes(op[i..i + 4].try_into().unwrap()) as i64 as u64;
            let (len, jump): (usize, Option<u64>) = match op {
                [0xB8, ..] => {
                    ts.regs[RAX] = imm32(1) as u32 as u64;
                    (5, None)
                }
                [0xB9, ..] => {
                    ts.regs[RCX] = imm32(1) as u32 as u64;
                    (5, None)
                }
                [0x49, 0xC7, 0xC2, ..] => {
                    ts.regs[R10] = imm32(3);
                    (7, None)
                }
                [0x31, 0xC0, ..] => {
                    ts.regs[RAX] = 0;
                    (2, None)
                }
                [0x01, 0xC8, ..] => {
                    ts.regs[RAX] = (ts.regs[RAX] as u32).wrapping_add(ts.regs[RCX] as u32) as u64;
                    (2, None)
                }
                [0xFF, 0xC9, ..] => {
                    let v = (ts.regs[RCX] as u32).wrapping_sub(1);
                    ts.regs[RCX] = v as u64;
                    ts.rflags &= !ZF;
                    if v == 0 {
                        ts.rflags |= ZF;
                    }
                    (2, None)
                }
                [0x83, 0xF8, ..] => {
                    let (v, o) = (ts.regs[RAX] as i32).overflowing_sub(imm8(2) as i32);
                    ts.rflags &= !(ZF | SF | OF);
                    if v == 0 {
                        ts.rflags |= ZF;
                    }
                    if v < 0 {
                        ts.rflags |= SF;
                    }
                    if o {
                        ts.rflags |= OF;
                    }
                    (3, None)
                }
                [0x6A, ..] => {
                    ts.regs[RSP] -= 8;
                    self.store(ts.regs[RSP], &imm8(1).to_le_bytes());
                    (2, None)
                }
                [0x58, ..] => {
                    ts.regs[RAX] = self.load64(ts.regs[RSP]);
                    ts.regs[RSP] += 8;
                    (1, None)
                }
                [0xF2, 0x0F, 0x2A, 0xC0, ..] => {
                    let mxcsr = u32::from_le_bytes(ts.fpstate[24..28].try_into().unwrap());
                    assert_eq!(mxcsr, 0x1F80);
                    let v = ts.regs[RAX] as i32 as f64;
                    ts.fpstate[XMM0..XMM0 + 8].copy_from_slice(&v.to_le_bytes());
                    (4, None)
                }
                [0xF2, 0x0F, 0x2D, 0xC0, ..] => {
                    let v = f64::from_le_bytes(ts.fpstate[XMM0..XMM0 + 8].try_into().unwrap());
                    ts.regs[RAX] = v as i32 as u32 as u64;
                    (4, None)
                }
                [0x48, 0x8D, 0x05, ..] => {
                    ts.regs[RAX] = (start + at as u64 + 7).wrapping_add(imm32(3));
                    (7, None)
                }
                [0xC6, 0x05, ..] => {
                    let addr = (start + at as u64 + 7).wrapping_add(imm32(2));
                    self.store(addr, &op[6..7]);
                    (7, None)
                }
                [0x65, 0x48, 0x8B, 0x04, 0x25, ..] => {
                    ts.regs[RAX] = self.load64(ts.guest_fs_base.wrapping_add(imm32(5)));
                    (9, None)
                }
                [0x75, ..] if ts.rflags & ZF == 0 => (2, Some(imm8(1))),
                [0x7F, ..]
                    if ts.rflags & ZF == 0 && (ts.rflags & SF != 0) == (ts.rflags & OF != 0) =>
                {
                    (2, Some(imm8(1)))
                }
                [0x75 | 0x7F, ..] => (2, None),
                [0xEB, ..] => (2, Some(imm8(1))),
                [0xFF, 0xD0, ..] => {
                    ts.regs[RSP] -= 8;
                    let next = start + at as u64 + 2;
                    self.store(ts.regs[RSP], &next.to_le_bytes());
                    ts.rip = ts.regs[RAX];
                    return;
                }
                [0xC3, ..] => {
                    ts.rip = self.load64(ts.regs[RSP]);
                    ts.regs[RSP] += 8;
                    return;
                }
                [0x0F, 0x05, ..] => {
                    ts.rip = start + at as u64 + 2;
                    ts.regs[RCX] = ts.rip;
                    ts.regs[R11] = ts.rflags;
                    ts.exit_kind = 1;
                    return;
                }
                [0xCC, ..] => {
                    ts.rip = start + at as u64 + 1;
                    ts.exit_kind = 2;
                    return;
                }
                _ => panic!("unknown instruction"),
            };
            at += len;
            ts.rip = start + at as u64;
            if let Some(by) = jump {
                ts.rip = ts.rip.wrapping_add(by);
                return;
            }
        }
    }
}

fn copy_of(ts: &ThreadState) -> Box<ThreadState> {
    Box::new(ThreadState {
        regs: ts.regs,
        fpstate: ts.fpstate,
        ..*ts
    })
}

/// Answer every action until the run ends.
fn run<H: SystemCalls>(guest: &mut Guest<H>, machine: &mut Machine) -> Result<i32, Error> {
    let mut event = Event::Start;
    loop {
        event = match guest.step(event) {
            Action::InstallFaultHandler | Action::PublishAddressSpace | Action::BindContext => {
                Event::Done
            }
            Action::ReadSegmentBase => Event::SegmentBase(0x7EB0_0000),
            Action::EnsureIbLookup => Event::Linked(Ok(0x1B00)),
            Action::Resolve { rip } => Event::Resolved(Ok(machine.resolve(rip))),
            Action::DenyCodeWrites => {
                machine.writes_denied = true;
                Event::Done
            }
            Action::Dispatch { host_pc } => {
                let mut ts = copy_of(&guest.state);
                machine.dispatch(&mut ts, host_pc);
                Event::Exited(ts)
            }
            Action::AllowCodeWrites => {
                machine.writes_denied = false;
                Event::Done
            }
            Action::Finish(result) => return result,
        };
    }
}

type Seen = Rc<Mutex<Vec<SystemCall>>>;

/// A handler that records every syscall it sees and answers with a fixed
/// value, so a test can prove the guest's `syscall` reached the embedder.
struct Recorder {
    seen: Seen,
}

impl SystemCalls for Recorder {
    fn do_syscall(&self, call: &mut SystemCall) {
        self.seen
            .lock()
            .unwrap()
            .push(SystemCall::new(call.number, call.args));
        call.set_result(SyscallResult::Value(0));
    }
}

/// Map a guest code buffer, a stack, and a synthetic TEB at `teb_base` (0 for
/// none), run it, and return the exit code and the syscalls the handler saw.
/// The stack top holds a null return address, so a top-level `ret` exits.
fn run_with_teb(code: &[u8], teb: Option<(u64, Vec<u8>)>) -> (i32, Vec<(u64, [u64; 6])>) {
    let mut machine = Machine::new();
    let code_region = 0x1_0000u64;
    let mut page = vec![0u8; PAGE];
    page[..code.len()].copy_from_slice(code);
    machine.map(code_region, page);

    let stack_len = 64 * 1024;
    let stack = 0x20_0000u64;
    machine.map(stack, vec![0u8; stack_len]);
    let rsp = stack + stack_len as u64 - 8;
    machine.store(rsp, &0u64.to_le_bytes());

    let mut addr = AddressSpace::new(DEFAULT_CODE_CACHE_SIZE);
    addr.add_region(code_region, PAGE);
    addr.add_region(stack, stack_len);

    let mut teb_base = 0;
    if let Some((base, bytes)) = teb {
        teb_base = base;
        machine.map(base, bytes);
    }

    let seen: Seen = Rc::new(Mutex::new(Vec::new()));
    let recorder: Box<dyn SystemCalls> = Box::new(Recorder { seen: seen.clone() });
    let mut guest = Guest::new(recorder, addr, code_region, rsp, teb_base);
    let exit = run(&mut guest, &mut machine).unwrap();

    let calls = seen
        .lock()
        .unwrap()
        .iter()
        .map(|c| (c.number, c.args))
        .collect();
    (exit, calls)
}

fn run_code(code: &[u8]) -> (i32, Vec<(u64, [u64; 6])>) {
    run_with_teb(code, None)
}

#[test]
fn runs_a_block_returns_exit_code() {
    // mov eax, 42 ; ret   (ret -> null return address -> clean exit)
    let (exit, seen) = run_code(&[0xB8, 0x2A, 0x00, 0x00, 0x00, 0xC3]);
    assert_eq!(exit, 42);
    assert!(seen.is_empty());
}

#[test]
fn intercepts_syscall_and_exits() {
    // mov eax, 0x1234 ; mov r10, 7 ; syscall ; mov eax, 99 ; ret
    let code = [
        0xB8, 0x34, 0x12, 0x00, 0x00, // mov eax, 0x1234
        0x49, 0xC7, 0xC2, 0x07, 0x00, 0x00, 0x00, // mov r10, 7
        0x0F, 0x05, // syscall
        0xB8, 0x63, 0x00, 0x00, 0x00, // mov eax, 99
        0xC3, // ret
    ];
    let (exit, seen) = run_code(&code);
    assert_eq!(exit, 99);
    assert_eq!(seen.len(), 1);
    assert_eq!(seen[0].0, 0x1234);
    assert_eq!(seen[0].1[0], 7);
}

#[test]
fn loop_with_back_edge() {
    // Sum 10+9+...+1 = 55, closing the loop with a back-edge.
    //   xor eax,eax ; mov ecx,10 ; L: add eax,ecx ; dec ecx ; jnz L ; ret
    let code = [
        0x31, 0xC0, // xor eax, eax
        0xB9, 0x0A, 0x00, 0x00, 0x00, // mov ecx, 10
        0x01, 0xC8, // add eax, ecx        (loop top @7)
        0xFF, 0xC9, // dec ecx
        0x75, 0xFA, // jnz -6 -> @7
        0xC3, // ret
    ];
    assert_eq!(run_code(&code).0, 55);
}

#[test]
fn conditional_branch() {
    // mov eax,5 ; cmp eax,3 ; jg end ; mov eax,0 ; end: ret
    let code = [
        0xB8, 0x05, 0x00, 0x00, 0x00, // mov eax, 5
        0x83, 0xF8, 0x03, // cmp eax, 3
        0x7F, 0x05, // jg +5 -> ret
        0xB8, 0x00, 0x00, 0x00, 0x00, // mov eax, 0 (skipped)
        0xC3, // ret
    ];
    assert_eq!(run_code(&code).0, 5);
}

#[test]
fn memory_push_pop() {
    // push 0x2A ; pop rax ; ret   (a store then load through the guest stack)
    assert_eq!(run_code(&[0x6A, 0x2A, 0x58, 0xC3]).0, 42);
}

#[test]
fn fp_roundtrip_uses_xsave_prologue() {
    // mov eax,3 ; cvtsi2sd xmm0,eax ; cvtsd2si eax,xmm0 ; ret
    // Touching xmm0 goes through the FP save area, seeded with the default
    // MXCSR.
    let code = [
        0xB8, 0x03, 0x00, 0x00, 0x00, // mov eax, 3
        0xF2, 0x0F, 0x2A, 0xC0, // cvtsi2sd xmm0, eax
        0xF2, 0x0F, 0x2D, 0xC0, // cvtsd2si eax, xmm0
        0xC3, // ret
    ];
    assert_eq!(run_code(&code).0, 3);
}

#[test]
fn indirect_call_and_return() {
    // lea rax,[rip+3] ; call rax ; ret ; func: mov eax,88 ; ret
    let code = [
        0x48, 0x8D, 0x05, 0x03, 0x00, 0x00, 0x00, // lea rax, [rip+3] -> func
        0xFF, 0xD0, // call rax
        0xC3, // ret  (returns to null -> exit with rax)
        0xB8, 0x58, 0x00, 0x00, 0x00, // func: mov eax, 88
        0xC3, // ret
    ];
    assert_eq!(run_code(&code).0, 88);
}

#[test]
fn self_modifying_code_reexecutes() {
    // Block A stores 5 over the immediate of a `mov eax, 0` that lives in a
    // second block B, then jumps to B. The store drops the stale translation;
    // B is then translated fresh from the modified bytes, so the guest sees
    // `mov eax, 5`.
    //   mov byte [rip+3], 5 ; jmp B ; B: mov eax, 0 ; ret
    let code = [
        0xC6, 0x05, 0x03, 0x00, 0x00, 0x00, 0x05, // mov byte [rip+3], 5  (patches @10)
        0xEB, 0x00, // jmp +0 -> B (block boundary)
        0xB8, 0x00, 0x00, 0x00, 0x00, // B: mov eax, 0   (imm@10 -> 5)
        0xC3, // ret
    ];
    assert_eq!(run_code(&code).0, 5);
}

#[test]
fn guest_gs_segment_is_virtualized() {
    // The guest reads gs:[0x30] (its TEB self-slot), which lies in the synthetic
    // TEB that its segment base names.
    //   mov rax, gs:[0x30] ; ret
    let mut teb = vec![0u8; PAGE];
    teb[0x30] = 0x77;
    let code = [
        0x65, 0x48, 0x8B, 0x04, 0x25, 0x30, 0x00, 0x00, 0x00, // mov rax, gs:[0x30]
        0xC3, // ret
    ];
    assert_eq!(run_with_teb(&code, Some((0x50_0000, teb))).0, 0x77);
}

/// Build a minimal position-independent PE32+ whose `.text` is `code` and
/// whose entry is the start of `.text`. No relocations (the code must be
/// position-independent), no imports.
fn pe_with_code(code: &[u8]) -> Vec<u8> {
    let pe_off = 0x40usize;
    let opt = pe_off + 4 + 20;
    let size_of_optional = 0xF0usize;
    let sec_base = opt + size_of_optional;
    let text_rva = 0x1000usize;
    let mut buf = vec![0u8; 0x2000];

    let p16 = |b: &mut [u8], o: usize, v: u16| b[o..o + 2].copy_from_slice(&v.to_le_bytes());
    let p32 = |b: &mut [u8], o: usize, v: u32| b[o..o + 4].copy_from_slice(&v.to_le_bytes());
    let p64 = |b: &mut [u8], o: usize, v: u64| b[o..o + 8].copy_from_slice(&v.to_le_bytes());

    p16(&mut buf, 0, 0x5A4D); // MZ
    p32(&mut buf, 0x3C, pe_off as u32);
    p32(&mut buf, pe_off, 0x0000_4550); // PE\0\0
    let coff = pe_off + 4;
    p16(&mut buf, coff, 0x8664); // AMD64
    p16(&mut buf, coff + 2, 1); // one section
    p16(&mut buf, coff + 16, size_of_optional as u16);
    p16(&mut buf, opt, 0x20B); // PE32+
    p32(&mut buf, opt + 16, text_rva as u32); // entry rva
    p64(&mut buf, opt + 24, 0x1_4000_0000); // image base
    p32(&mut buf, opt + 56, 0x2000); // size of image
    p32(&mut buf, opt + 60, (sec_base + 40) as u32); // size of headers
    p32(&mut buf, opt + 108, 16); // number of data directories

    buf[sec_base..sec_base + 5].copy_from_slice(b".text");
    p32(&mut buf, sec_base + 8, 0x1000); // virtual size
    p32(&mut buf, sec_base + 12, text_rva as u32); // virtual address
    p32(&mut buf, sec_base + 16, 0x1000); // size of raw data
    p32(&mut buf, sec_base + 20, text_rva as u32); // pointer to raw data
    p32(&mut buf, sec_base + 36, 0x4000_0000); // characteristics: MEM_READ

    buf[text_rva..text_rva + code.len()].copy_from_slice(code);
    buf
}

struct Deny;
impl SystemCalls for Deny {}

/// Map a PE image, build the entry state, and run it to termination.
fn run_image(file: &[u8], handler: Box<dyn SystemCalls>) -> Result<i32, Error> {
    let mut machine = Machine::new();
    let plan = plan_map(file)?;
    let base = 0x7F00_0000_0000u64;
    let mut bytes = vec![0u8; plan.size];
    let image = match map_pe(&plan, file, base, Ok(()), &mut bytes) {
        MapOutcome::Mapped { image, .. } => image,
        MapOutcome::Failed { error, .. } => return Err(error),
    };
    machine.map(base, bytes);

    let stack = 0x20_0000u64;
    let teb = 0x1000_0000u64;
    machine.map(stack, vec![0xEEu8; STACK_SIZE]);
    machine.map(teb, vec![0u8; TEB_SIZE]);
    let frame = entry_frame(stack);
    machine.store(frame.rsp, &frame.return_address.to_le_bytes());

    let mut guest = entry_guest(handler, &image, stack, teb, DEFAULT_CODE_CACHE_SIZE);
    run(&mut guest, &mut machine)
}

#[test]
fn loads_and_runs_a_pe() {
    // mov eax, 77 ; ret   (ret -> null return address -> clean exit)
    let pe = pe_with_code(&[0xB8, 0x4D, 0x00, 0x00, 0x00, 0xC3]);
    let code = run_image(&pe, Box::new(Deny)).unwrap();
    assert_eq!(code, 77);
}

#[test]
fn a_guest_without_a_handler_sees_enosys() {
    // mov eax, 1 ; syscall ; ret   (the result is the exit status)
    let pe = pe_with_code(&[0xB8, 0x01, 0x00, 0x00, 0x00, 0x0F, 0x05, 0xC3]);
    assert_eq!(run_image(&pe, Box::new(Deny)).unwrap(), -38);
    assert_eq!(
        host_syscall(&SystemCall::new(1, [0; 6])),
        SyscallResult::Error(38)
    );
}

#[test]
fn a_breakpoint_is_surfaced() {
    let pe = pe_with_code(&[0xCC]);
    match run_image(&pe, Box::new(Deny)) {
        Err(Error::Unsupported(msg)) => assert_eq!(msg, "guest breakpoint (int3)"),
        other => panic!("unexpected {other:?}"),
    }
}

#[test]
fn an_exit_status_is_the_low_half_of_rax() {
    let mut guest = Guest::new(Deny, AddressSpace::new(0), 0, 0x1000, 0);
    guest.state.regs[RAX] = 0xAAAA_AAAA_FFFF_FFFE;
    assert_eq!(run(&mut guest, &mut Machine::new()).unwrap(), -2);
}

/// A guest that has answered every action up to the first translation.
fn translating() -> Guest<Deny> {
    let mut guest = Guest::new(Deny, AddressSpace::new(0), 0x4000, 0x1000, 0x30);
    assert!(matches!(
        guest.step(Event::Start),
        Action::InstallFaultHandler
    ));
    assert!(matches!(
        guest.step(Event::Done),
        Action::PublishAddressSpace
    ));
    assert!(matches!(guest.step(Event::Done), Action::BindContext));
    assert!(matches!(guest.step(Event::Done), Action::ReadSegmentBase));
    assert!(matches!(
        guest.step(Event::SegmentBase(0x77)),
        Action::EnsureIbLookup
    ));
    assert_eq!(guest.state.chimera_fs_base, 0x77);
    guest
}

#[test]
fn the_loop_asks_the_host_in_order() {
    let mut guest = translating();
    assert!(matches!(
        guest.step(Event::Linked(Ok(0x99))),
        Action::Resolve { rip: 0x4000 }
    ));
    assert_eq!(guest.state.ib_lookup, 0x99);
    guest.state.exit_kind = 1;
    assert!(matches!(
        guest.step(Event::Resolved(Ok(0x5000))),
        Action::DenyCodeWrites
    ));
    assert_eq!(guest.state.exit_kind, 0);
    assert!(matches!(
        guest.step(Event::Done),
        Action::Dispatch { host_pc: 0x5000 }
    ));
    let mut ts = copy_of(&guest.state);
    ts.rip = 0x6000;
    assert!(matches!(
        guest.step(Event::Exited(ts)),
        Action::AllowCodeWrites
    ));
    assert!(matches!(
        guest.step(Event::Done),
        Action::Resolve { rip: 0x6000 }
    ));
}

#[test]
fn host_errors_end_the_run() {
    let failure = || Error::io("mmap anon", 12);
    match translating().step(Event::Linked(Err(failure()))) {
        Action::Finish(Err(e)) => assert_eq!(e, failure()),
        other => panic!("unexpected {other:?}"),
    }
    let mut guest = translating();
    guest.step(Event::Linked(Ok(0)));
    match guest.step(Event::Resolved(Err(failure()))) {
        Action::Finish(Err(e)) => assert_eq!(e, failure()),
        other => panic!("unexpected {other:?}"),
    }
}

type Calls = Rc<Mutex<Vec<(&'static str, SystemCall)>>>;

/// A handler that records its hook calls, and answers if it has an answer.
struct Tracer {
    calls: Calls,
    answer: Option<SyscallResult>,
}

impl Tracer {
    fn record(&self, hook: &'static str, call: &SystemCall) {
        self.calls.lock().unwrap().push((hook, *call));
    }
}

impl SystemCalls for Tracer {
    fn pre_syscall(&self, call: &SystemCall) {
        self.record("pre", call);
    }
    fn do_syscall(&self, call: &mut SystemCall) {
        self.record("do", call);
        if let Some(answer) = self.answer {
            call.set_result(answer);
        }
    }
    fn post_syscall(&self, call: &SystemCall) {
        self.record("post", call);
    }
}

fn traced(answer: Option<SyscallResult>, rip: u64) -> (Guest<Tracer>, Calls) {
    let calls: Calls = Rc::new(Mutex::new(Vec::new()));
    let tracer = Tracer {
        calls: calls.clone(),
        answer,
    };
    let guest = Guest::new(tracer, AddressSpace::new(0), rip, 0x2F00, 0);
    assert!(calls.lock().unwrap().is_empty());
    (guest, calls)
}

#[test]
fn a_finished_guest_finishes_again() {
    let (mut guest, calls) = traced(None, 0);
    guest.state.regs[RAX] = 5;
    let before = guest.state.regs;
    let mut machine = Machine::new();
    assert_eq!(run(&mut guest, &mut machine).unwrap(), 5);
    assert_eq!(run(&mut guest, &mut machine).unwrap(), 5);
    assert_eq!(machine.entries, 0);
    assert_eq!(guest.state.regs, before);
    assert_eq!(guest.state.rip, 0);
    assert!(calls.lock().unwrap().is_empty());
}

#[test]
fn each_system_call_gets_each_hook_once() {
    // mov eax, 7 ; syscall ; push 2 ; pop rax ; syscall ; int3
    let code = [
        0xB8, 7, 0, 0, 0, 0x0F, 0x05, 0x6A, 2, 0x58, 0x0F, 0x05, 0xCC,
    ];
    let answer = SyscallResult::Value(-3);
    let (mut guest, calls) = traced(Some(answer), 0x1000);
    let mut machine = Machine::new();
    machine.map(0x1000, code.to_vec());
    machine.map(0x2000, vec![0; PAGE]);
    assert!(run(&mut guest, &mut machine).is_err());
    let mut expected = Vec::new();
    for number in [7, 2] {
        let asked = SystemCall::new(number, [0; 6]);
        let mut done = asked;
        done.set_result(answer);
        expected.extend([("pre", asked), ("do", asked), ("post", done)]);
    }
    assert_eq!(*calls.lock().unwrap(), expected);
    assert_eq!(guest.state.regs[RAX], (-3i64) as u64);
}

#[test]
fn an_unanswered_call_changes_nothing() {
    let (mut guest, calls) = traced(None, 0);
    for i in 0..16 {
        guest.state.regs[i] = 100 + i as u64;
    }
    let before = guest.state.regs;
    guest.handle_syscall();
    assert_eq!(guest.state.regs, before);
    let asked = SystemCall::new(100, [110, 103, 108, 109, 0, 0]);
    assert_eq!(
        *calls.lock().unwrap(),
        [("pre", asked), ("do", asked), ("post", asked)]
    );
}

#[test]
fn a_boxed_handler_is_the_handler_in_the_box() {
    let calls: Calls = Rc::new(Mutex::new(Vec::new()));
    let boxed: Box<dyn SystemCalls> = Box::new(Tracer {
        calls: calls.clone(),
        answer: Some(SyscallResult::Error(2)),
    });
    let mut guest = Guest::new(boxed, AddressSpace::new(0), 0, 0, 0);
    guest.handle_syscall();
    assert_eq!(guest.state.regs[RAX], (-2i64) as u64);
    let hooks: Vec<&str> = calls.lock().unwrap().iter().map(|c| c.0).collect();
    assert_eq!(hooks, ["pre", "do", "post"]);
}

#[test]
fn an_answer_changes_only_rax() {
    let mut guest = Guest::new(Deny, AddressSpace::new(0), 0, 0, 0);
    for i in 0..16 {
        guest.state.regs[i] = 100 + i as u64;
    }
    let mut expected = guest.state.regs;
    expected[RAX] = (-38i64) as u64;
    guest.handle_syscall();
    assert_eq!(guest.state.regs, expected);
}

#[test]
fn a_call_is_requested_and_its_result_delivered() {
    let mut guest = Guest::new(Deny, AddressSpace::new(0), 0, 0, 0);
    for i in 0..16 {
        guest.state.regs[i] = 100 + i as u64;
    }
    let mut call = guest.request();
    assert_eq!(call, SystemCall::new(100, [110, 103, 108, 109, 0, 0]));
    guest.deliver(&call);
    assert_eq!(guest.state.regs[RAX], 100);
    call.set_result(SyscallResult::Value(i64::MIN));
    guest.deliver(&call);
    assert_eq!(guest.state.regs[RAX], 1 << 63);
    call.set_result(SyscallResult::Error(i32::MIN));
    guest.deliver(&call);
    assert_eq!(guest.state.regs[RAX], 1 << 31);
    for i in 1..16 {
        assert_eq!(guest.state.regs[i], 100 + i as u64);
    }
}

#[test]
fn a_fresh_register_file_is_zero_but_for_what_a_thread_needs() {
    let ts = ThreadState::fresh(0x11, 0x22, 0x33);
    assert_eq!((ts.rip, ts.guest_fs_base, ts.rflags), (0x11, 0x33, 0x202));
    for i in 0..16 {
        assert_eq!(ts.regs[i], if i == RSP { 0x22 } else { 0 });
    }
    for i in 0..ts.fpstate.len() {
        let expected = match i {
            24 => 0x80,
            25 => 0x1F,
            _ => 0,
        };
        assert_eq!(ts.fpstate[i], expected);
    }
    assert_eq!((ts.exit_kind, ts.tid, ts.fs_is_guest), (0, 0, 0));
}

#[test]
fn the_entry_frame_is_aligned_and_in_the_stack() {
    let frame = entry_frame(0x10_0000);
    assert_eq!(frame.rsp, 0x10_0000 + 0x80_0000 - 16);
    assert_eq!(frame.return_address, 0);
    let odd = entry_frame(0x10_0009);
    assert_eq!(odd.rsp, 0x10_0000 + 0x80_0000 - 16);
}

#[test]
fn an_entering_guest_owns_image_stack_and_teb() {
    let image = chimera::image::MappedImage {
        base: 0x1000,
        entry: 0x1040,
        size: 0x3000,
    };
    let guest = entry_guest(Deny, &image, 0x10_0000, 0x5000, 0x8000);
    let expected = [
        (0x1000, 0x3000),
        (0x10_0000, 0x80_0000),
        (0x5000, 0x1000),
    ];
    assert_eq!(guest.addr.code_cache_size, 0x8000);
    assert_eq!(guest.addr.regions.len(), 3);
    for (region, (base, len)) in guest.addr.regions.iter().zip(expected) {
        assert_eq!(*region, Region { base, len });
    }
    assert_eq!(guest.state.rip, 0x1040);
    assert_eq!(guest.state.guest_fs_base, 0x5000);
    assert_eq!(guest.state.regs[RSP], entry_frame(0x10_0000).rsp);
}
