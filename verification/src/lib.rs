//! Privilege-transition and interrupt-dispatch core for a small RISC-V
//! kernel.
//!
//! The library models the decisions the kernel makes at its hardware
//! boundary as verified functions over plain values: control-register
//! encoding, trap-cause dispatch, the interrupt controller's
//! claim/complete handshake, and the user/kernel transition protocol.
//! Register reads and writes, memory-mapped device access and the
//! trampoline jump themselves are performed by an unverified embedder
//! that follows the actions these functions return.

use vstd::prelude::*;

pub mod cpu;
pub mod fatal;
pub mod file;
pub mod plic;
pub mod print;
pub mod trap;
pub mod uart;

verus! {

/// Pages are 4 KiB; page-table roots must be aligned to this.
pub const PAGE_SIZE: u64 = 4096;

} // verus!
