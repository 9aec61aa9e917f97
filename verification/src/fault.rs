//! The decisions of the exception handler for the fault-guarded guest copies.
//!
//! Untrusted guest memory is read and written through two guarded primitives
//! that must tolerate an unmapped or wrongly-protected address: a fault whose
//! instruction pointer lies inside the translator's fetch-copy span resumes at
//! its fixup label (reporting the readable decode-window prefix), and a fault
//! inside the guarded copy resumes at that routine's failure tail (reporting a
//! failed read or write). Any other access violation is left for the next
//! handler in the chain.

use vstd::prelude::*;

verus! {

/// `STATUS_ACCESS_VIOLATION` (0xC0000005 as a signed word): a bad read or
/// write.
pub const STATUS_ACCESS_VIOLATION: i32 = -1073741819;

/// `STATUS_IN_PAGE_ERROR` (0xC0000006 as a signed word): a bad access to a
/// file-backed mapping whose backing store cannot satisfy the page.
pub const STATUS_IN_PAGE_ERROR: i32 = -1073741818;

/// Resume the thread at the (possibly rewritten) context.
pub const EXCEPTION_CONTINUE_EXECUTION: i32 = -1;

/// Fall through to the next handler.
pub const EXCEPTION_CONTINUE_SEARCH: i32 = 0;

/// An exception: its code and where it was raised.
#[derive(Clone, Copy, PartialEq, Eq, Debug, Structural)]
pub struct Exception {
    pub code: i32,
    pub rip: u64,
}

/// Where the guarded copies stand in the code, and where they recover.
#[derive(Clone, Copy, PartialEq, Eq, Debug, Structural)]
pub struct GuardedCode {
    /// Where the fetch copy starts.
    pub fetch_start: u64,
    /// Where the fetch copy ends and recovers.
    pub fetch_fixup: u64,
    /// Where the guarded copy recovers.
    pub copy_fixup: u64,
}

/// What the handler answers: its disposition, and where the thread resumes if
/// its context is rewritten.
#[derive(Clone, Copy, PartialEq, Eq, Debug, Structural)]
pub struct Verdict {
    pub disposition: i32,
    pub resume_at: Option<u64>,
}

/// Whether an exception code is one that a bad access raises.
pub open spec fn is_bad_access(code: i32) -> bool {
    code == STATUS_ACCESS_VIOLATION || code == STATUS_IN_PAGE_ERROR
}

/// Where a thread that raised `exception` resumes, if a guarded copy recovers
/// it. The fetch copy is looked at first.
pub open spec fn recovery(
    exception: Exception,
    code: GuardedCode,
    in_guarded_copy: bool,
) -> Option<u64> {
    if !is_bad_access(exception.code) {
        None
    } else if code.fetch_start <= exception.rip < code.fetch_fixup {
        Some(code.fetch_fixup)
    } else if in_guarded_copy {
        Some(code.copy_fixup)
    } else {
        None
    }
}

/// Classify an exception. `exception` is `None` where the host gave no record
/// or no context; `in_guarded_copy` says whether it was raised inside the
/// guarded copy. The thread resumes at a fixup exactly when a guarded copy
/// recovers the fault, and otherwise the next handler is asked.
pub fn chimera_veh(
    exception: Option<Exception>,
    code: &GuardedCode,
    in_guarded_copy: bool,
) -> (verdict: Verdict)
    ensures
        verdict.resume_at == (match exception {
            Some(e) => recovery(e, *code, in_guarded_copy),
            None => None,
        }),
        verdict.disposition == (if verdict.resume_at is Some {
            EXCEPTION_CONTINUE_EXECUTION
        } else {
            EXCEPTION_CONTINUE_SEARCH
        }),
{
    let search = Verdict { disposition: EXCEPTION_CONTINUE_SEARCH, resume_at: None };
    let e = match exception {
        Some(e) => e,
        None => {
            return search;
        },
    };
    if e.code != STATUS_ACCESS_VIOLATION && e.code != STATUS_IN_PAGE_ERROR {
        return search;
    }
    // A fault inside the guarded decode-window fetch resumes at the fixup label,
    // which returns the readable prefix length to the translator.

    if code.fetch_start <= e.rip && e.rip < code.fetch_fixup {
        return Verdict {
            disposition: EXCEPTION_CONTINUE_EXECUTION,
            resume_at: Some(code.fetch_fixup),
        };
    }
    // A fault inside the guarded copy is a failed read or write of untrusted
    // guest memory: resume at the routine's failure tail, which reports it.

    if in_guarded_copy {
        return Verdict {
            disposition: EXCEPTION_CONTINUE_EXECUTION,
            resume_at: Some(code.copy_fixup),
        };
    }
    search
}

} // verus!
