//! Fatal conditions on which the kernel halts the issuing core.

use vstd::prelude::*;

verus! {

/// A condition on which the kernel halts the core permanently.
///
/// Every variant carries the diagnostic context the halt message needs
/// (core id, program counter, faulting value, cause number). Halting is a
/// side effect the library cannot perform, so its functions return one of
/// these values instead; the embedder must treat it as terminal for the
/// core — log the diagnostics and stop, never resume.
#[derive(Clone, Copy, PartialEq, Eq, Structural, Debug)]
pub enum Fatal {
    /// A page-table root that is not page-aligned reached the
    /// address-translation register builder. A misaligned root would
    /// corrupt every subsequent translation.
    MisalignedPageTableRoot { addr: u64 },
    /// A trap from outside supervisor mode reached the kernel trap path.
    KernelTrapNotFromSupervisor,
    /// A trap from outside user mode reached the user entry path.
    UserTrapNotFromUser,
    /// A trap was taken in machine mode, which this kernel never expects.
    MachineModeTrap,
    /// An asynchronous cause number the dispatcher has no arm for.
    UnhandledAsyncCause { hart: u64, cause: u64 },
    /// A synchronous cause number the dispatcher has no arm for.
    UnhandledSyncCause { hart: u64, cause: u64 },
    /// The trapping instruction is illegal.
    IllegalInstruction { hart: u64, epc: u64, tval: u64 },
    /// An environment call from machine mode, which the machine level must
    /// never legitimately make into itself.
    MachineEcall { hart: u64, epc: u64 },
    /// A cause other than a user-mode environment call reached the user
    /// entry path.
    UnexpectedUserCause { cause: u64 },
}

} // verus!
