//! The host-neutral core of a dynamic binary translator for x86-64 guests: PE
//! image loading, host virtual-memory requests, the guest register file and
//! the run loop's decisions.
//!
//! Nothing here touches the host. A function that needs the host returns the
//! request to make, and a companion takes what the host answered.

pub mod bytes;
pub mod error;
pub mod exec;
pub mod fault;
pub mod fixups;
pub mod image;
pub mod laws;
pub mod pe;
pub mod reloc;
pub mod run;
pub mod space;
pub mod state;
pub mod syscall;
pub mod vault;
pub mod vm;
