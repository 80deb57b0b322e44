//! Per-hart register primitives: address-translation register encoding,
//! interrupt-enable state, and the trapframe layout.

use vstd::prelude::*;
use crate::fatal::Fatal;
use crate::PAGE_SIZE;

verus! {

/// Privilege level the hardware reports for the context a trap came from.
#[derive(Clone, Copy, PartialEq, Eq, Structural, Debug)]
pub enum Privilege {
    User,
    Supervisor,
    Machine,
}

/// Translation-mode selector for Sv39 paging, the mode this kernel runs
/// under.
pub const SATP_MODE_SV39: u64 = 8;

/// Index of register `a0`, the designated system-call return-value slot,
/// in a trapframe's register snapshot.
pub const REG_A0: usize = 10;

/// Mode field of an address-translation register value: the top four bits.
pub open spec fn satp_mode(v: u64) -> u64 {
    v >> 60
}

/// Address-space-id field: sixteen bits starting at bit 44.
pub open spec fn satp_asid(v: u64) -> u64 {
    (v >> 44) & 0xffff
}

/// Physical page-number field: the low 44 bits.
pub open spec fn satp_ppn(v: u64) -> u64 {
    v & 0xfff_ffff_ffff
}

/// The hardware layout of the address-translation register: mode in the top
/// four bits, the address-space id masked to sixteen bits above the page
/// number, and the root's physical page number masked to 44 bits at the
/// bottom.
pub open spec fn satp_encode(mode: u64, asid: u64, addr: u64) -> u64 {
    (mode << 60) | ((asid & 0xffff) << 44) | ((addr >> 12) & 0xfff_ffff_ffff)
}

/// Encode the address-translation register value for a page-aligned
/// page-table root at physical address `addr`.
///
/// A misaligned root would corrupt every subsequent translation, so it is
/// excluded here; a caller that cannot establish alignment goes through
/// [`try_build_satp`] and halts on the returned fatal condition.
pub fn build_satp(mode: u64, asid: u64, addr: u64) -> (r: u64)
    requires
        addr % PAGE_SIZE == 0,
    ensures
        r == satp_encode(mode, asid, addr),
{
    (mode << 60) | ((asid & 0xffff) << 44) | ((addr >> 12) & 0xfff_ffff_ffff)
}

/// Like [`build_satp`], but reports a misaligned root as the
/// alignment-violation fatal condition instead of assuming it away: every
/// misaligned address is rejected, every aligned one encoded.
pub fn try_build_satp(mode: u64, asid: u64, addr: u64) -> (r: Result<u64, Fatal>)
    ensures
        addr % PAGE_SIZE == 0 ==> r == Ok::<u64, Fatal>(satp_encode(mode, asid, addr)),
        addr % PAGE_SIZE != 0 ==> r == Err::<u64, Fatal>(Fatal::MisalignedPageTableRoot { addr }),
{
    if addr % PAGE_SIZE == 0 {
        Ok(build_satp(mode, asid, addr))
    } else {
        Err(Fatal::MisalignedPageTableRoot { addr })
    }
}

/// Round trip: decoding the three fields of an encoded address-translation
/// value reproduces the inputs, masked to their hardware widths.
pub proof fn lemma_satp_round_trip(mode: u64, asid: u64, addr: u64)
    requires
        addr % PAGE_SIZE == 0,
    ensures
        satp_mode(satp_encode(mode, asid, addr)) == mode & 0xf,
        satp_asid(satp_encode(mode, asid, addr)) == asid & 0xffff,
        satp_ppn(satp_encode(mode, asid, addr)) == (addr >> 12) & 0xfff_ffff_ffff,
{
    assert(((mode << 60) | ((asid & 0xffff) << 44) | ((addr >> 12) & 0xfff_ffff_ffff)) >> 60
        == mode & 0xf) by (bit_vector);
    assert((((mode << 60) | ((asid & 0xffff) << 44) | ((addr >> 12) & 0xfff_ffff_ffff)) >> 44)
        & 0xffff == asid & 0xffff) by (bit_vector);
    assert(((mode << 60) | ((asid & 0xffff) << 44) | ((addr >> 12) & 0xfff_ffff_ffff))
        & 0xfff_ffff_ffff == (addr >> 12) & 0xfff_ffff_ffff) by (bit_vector);
}

/// The interrupt-related control state of one hart: the three per-source
/// supervisor enable bits, the global gate, and the two fields the
/// privilege-return instruction consumes.
#[derive(Clone, Copy, PartialEq, Eq, Structural, Debug)]
pub struct IntrState {
    /// External-interrupt source enable.
    pub sext: bool,
    /// Software-interrupt source enable.
    pub ssoft: bool,
    /// Timer-interrupt source enable.
    pub stimer: bool,
    /// Global interrupt-enable gate.
    pub sie: bool,
    /// Interrupt-enable bit the hardware installs on privilege return.
    pub spie: bool,
    /// Privilege level the hardware drops to on privilege return.
    pub spp: Privilege,
}

/// What enabling interrupts does: all three per-source enables and the
/// global gate come up; the privilege-return fields are untouched.
pub open spec fn spec_intr_on(s: IntrState) -> IntrState {
    IntrState { sext: true, ssoft: true, stimer: true, sie: true, ..s }
}

/// What disabling interrupts does: only the global gate goes down. The
/// per-source enables are deliberately left alone, so that a later enable
/// cannot silently leave a source off that the disabling caller never
/// meant to touch.
pub open spec fn spec_intr_off(s: IntrState) -> IntrState {
    IntrState { sie: false, ..s }
}

/// Enable the external, software and timer interrupt sources, then open the
/// global gate, making the hart eligible for all three classes at once.
pub fn intr_on(s: &mut IntrState)
    ensures
        *final(s) == spec_intr_on(*old(s)),
{
    s.sext = true;
    s.ssoft = true;
    s.stimer = true;
    s.sie = true;
}

/// Close the global interrupt gate, leaving every per-source enable as it
/// was.
pub fn intr_off(s: &mut IntrState)
    ensures
        *final(s) == spec_intr_off(*old(s)),
{
    s.sie = false;
}

/// Asymmetry of the pair: disabling touches only the global gate, and the
/// enable that follows brings all three per-source enables up again — even
/// from a state where some of them were off.
pub proof fn lemma_disable_then_enable_restores_sources(s: IntrState)
    ensures
        spec_intr_off(s).sext == s.sext,
        spec_intr_off(s).ssoft == s.ssoft,
        spec_intr_off(s).stimer == s.stimer,
        spec_intr_on(spec_intr_off(s)).sext,
        spec_intr_on(spec_intr_off(s)).ssoft,
        spec_intr_on(spec_intr_off(s)).stimer,
        spec_intr_on(spec_intr_off(s)).sie,
        spec_intr_on(spec_intr_off(s)).spie == s.spie,
        spec_intr_on(spec_intr_off(s)).spp == s.spp,
{
}

/// Fixed-layout register-save area bridging kernel and user execution: one
/// per hart for the kernel context, one per process. Its virtual address is
/// identical in every page table, because the trampoline reads it while the
/// process's table is still the active one.
#[derive(Clone, Copy, Debug)]
pub struct TrapFrame {
    /// Saved program counter at trap time; advanced past the trapping
    /// instruction for causes that must not re-execute it.
    pub epc: u64,
    /// General-purpose register snapshot; index [`REG_A0`] is the
    /// system-call return-value slot.
    pub regs: [u64; 32],
    /// Address-translation register value of the kernel context, restored
    /// by the trampoline on the next trap from this context.
    pub satp: u64,
    /// Kernel stack pointer to resume on at the next trap.
    pub sp: u64,
    /// Address of the kernel trap-entry routine to jump to on the next
    /// trap from this context.
    pub trap: u64,
    /// Identity of the physical core owning this frame.
    pub hartid: u64,
    /// Dedicated stack region used while handling a trap for this context.
    pub trap_stack: u64,
}

/// Per-hart context: the kernel trapframe, used while no process trap is
/// active on the core, and the identity of the currently scheduled
/// process.
pub struct HartContext {
    /// The hart's kernel trapframe.
    pub kernel_trapframe: TrapFrame,
    /// Identity of the process scheduled on this hart, if any.
    pub scheduled: Option<u64>,
}

/// The per-hart arena: exactly one context per physical core, indexed by
/// hart identity. It is sized once at boot for the machine's core count
/// and lives as long as the machine runs — never resized, never freed —
/// and each core's context is handed to that core's execution alone.
pub struct HartArena {
    /// One context per core; slot `h` belongs to hart `h`.
    pub contexts: Vec<HartContext>,
}

impl HartArena {
    /// Build the arena for a machine of `cores` harts: every slot starts
    /// with a zeroed kernel trapframe stamped with its own hart identity,
    /// and no process scheduled.
    pub fn new(cores: usize) -> (r: HartArena)
        ensures
            r.contexts@.len() == cores,
            forall|i: int| 0 <= i < cores ==> (#[trigger] r.contexts@[i]).scheduled is None,
            forall|i: int| 0 <= i < cores
                ==> (#[trigger] r.contexts@[i]).kernel_trapframe.hartid == i,
    {
        let mut contexts: Vec<HartContext> = Vec::new();
        let mut h: usize = 0;
        while h < cores
            invariant
                h <= cores,
                contexts@.len() == h,
                forall|i: int| 0 <= i < h ==> (#[trigger] contexts@[i]).scheduled is None,
                forall|i: int| 0 <= i < h
                    ==> (#[trigger] contexts@[i]).kernel_trapframe.hartid == i,
            decreases cores - h,
        {
            let mut tf = TrapFrame::new();
            tf.hartid = h as u64;
            contexts.push(HartContext { kernel_trapframe: tf, scheduled: None });
            h += 1;
        }
        HartArena { contexts }
    }

    /// This hart's own context.
    pub fn context(&self, hart: usize) -> (r: &HartContext)
        requires
            hart < self.contexts@.len(),
        ensures
            *r == self.contexts@[hart as int],
    {
        &self.contexts[hart]
    }

    /// This hart's own context, for the duration of a trap handling call.
    pub fn context_mut(&mut self, hart: usize) -> (r: &mut HartContext)
        requires
            hart < old(self).contexts@.len(),
        ensures
            *r == old(self).contexts@[hart as int],
            final(self).contexts@ == old(self).contexts@.update(hart as int, *final(r)),
    {
        &mut self.contexts[hart]
    }
}

impl TrapFrame {
    /// A zeroed frame, as the boot path starts from.
    pub fn new() -> (r: TrapFrame)
        ensures
            r.epc == 0,
            r.regs@ == Seq::<u64>::new(32, |i: int| 0u64),
            r.satp == 0,
            r.sp == 0,
            r.trap == 0,
            r.hartid == 0,
            r.trap_stack == 0,
    {
        TrapFrame {
            epc: 0,
            regs: [0u64; 32],
            satp: 0,
            sp: 0,
            trap: 0,
            hartid: 0,
            trap_stack: 0,
        }
    }
}

} // verus!
