//! The trap/interrupt dispatch state machine and the user-transition
//! protocol.
//!
//! Every function here decides; it does not touch hardware. The embedder
//! reads the cause, value and privilege registers, hands them in as plain
//! values, and performs the returned action: a register write, the
//! claim/complete handshake, a halt. A [`Fatal`] result means the core
//! must halt and never resume.

use vstd::prelude::*;
use crate::cpu::{
    IntrState, Privilege, TrapFrame, REG_A0, SATP_MODE_SV39, intr_off, lemma_satp_round_trip,
    satp_asid, satp_encode, satp_mode, satp_ppn, try_build_satp,
};
use crate::fatal::Fatal;
use crate::plic::{Plic, plic_wf};
use crate::uart::Uart;
use crate::PAGE_SIZE;

verus! {

/// Asynchronous cause number of a software interrupt.
pub const CAUSE_SOFTWARE: u64 = 3;

/// Asynchronous cause number of a timer interrupt.
pub const CAUSE_TIMER: u64 = 7;

/// Asynchronous cause number of an external interrupt routed through the
/// platform interrupt controller.
pub const CAUSE_EXTERNAL: u64 = 9;

/// Synchronous cause number of an illegal instruction.
pub const CAUSE_ILLEGAL_INSTRUCTION: u64 = 2;

/// Synchronous cause number of an environment call from user mode.
pub const CAUSE_USER_ECALL: u64 = 8;

/// Synchronous cause number of an environment call from supervisor mode.
pub const CAUSE_SUPERVISOR_ECALL: u64 = 9;

/// Synchronous cause number of an environment call from machine mode.
pub const CAUSE_MACHINE_ECALL: u64 = 11;

/// Synchronous cause number of an instruction page fault.
pub const CAUSE_INSTRUCTION_PAGE_FAULT: u64 = 12;

/// Synchronous cause number of a load page fault.
pub const CAUSE_LOAD_PAGE_FAULT: u64 = 13;

/// Synchronous cause number of a store page fault.
pub const CAUSE_STORE_PAGE_FAULT: u64 = 15;

/// Fixed number of timer ticks until the next timer interrupt.
pub const TIMER_INTERVAL: u64 = 10_000_000;

/// Interrupt-source id of the console device at the controller.
pub const UART_SOURCE: u32 = 10;

/// Width of one instruction: how far the saved pc advances past a trapping
/// instruction that must not re-execute.
pub const INSTRUCTION_WIDTH: u64 = 4;

/// The top bit of the cause register selects asynchronous over synchronous.
pub open spec fn is_async(cause: u64) -> bool {
    (cause >> 63) & 1 == 1
}

/// The cause number: the low twelve bits of the cause register.
pub open spec fn cause_num(cause: u64) -> u64 {
    cause & 0xfff
}

/// The causes after which execution must resume past the trapping
/// instruction: environment calls that are handled, and the page-fault
/// paths, which here are diagnosed and skipped rather than serviced.
pub open spec fn advances_pc(cause: u64) -> bool {
    !is_async(cause) && (cause_num(cause) == CAUSE_USER_ECALL
        || cause_num(cause) == CAUSE_SUPERVISOR_ECALL
        || cause_num(cause) == CAUSE_INSTRUCTION_PAGE_FAULT
        || cause_num(cause) == CAUSE_LOAD_PAGE_FAULT
        || cause_num(cause) == CAUSE_STORE_PAGE_FAULT)
}

/// The non-fatal dispositions of a kernel trap. Each names the side effect
/// the embedder performs before returning to the dispatched pc.
#[derive(Clone, Copy, PartialEq, Eq, Structural, Debug)]
pub enum TrapAction {
    /// Software interrupt: log it; no further kernel action is modeled.
    LogSoftware,
    /// Timer interrupt: write [`timer_rearm_value`] of the current time
    /// into the timer-compare register.
    RearmTimer,
    /// External interrupt: run the controller's claim/complete handshake,
    /// deciding by [`external_action`] and echoing console input by
    /// [`console_echo`].
    PollExternal,
    /// Environment call from user mode: log it; the pc has been advanced
    /// past the call.
    LogUserEcall,
    /// Environment call from supervisor mode: log it; the pc has been
    /// advanced past the call.
    LogSupervisorEcall,
    /// Instruction page fault: log core id, faulting pc and address. A
    /// diagnostic stub — no page is mapped in response, the pc just
    /// advances.
    LogInstructionPageFault,
    /// Load page fault: diagnostic stub, as for instruction faults.
    LogLoadPageFault,
    /// Store page fault: diagnostic stub, as for instruction faults.
    LogStorePageFault,
}

/// What the dispatcher decided: an action and the pc at which execution
/// resumes on the trap-return path.
#[derive(Clone, Copy, PartialEq, Eq, Structural, Debug)]
pub struct TrapReturn {
    pub action: TrapAction,
    pub return_pc: u64,
}

/// The dispatch table of the kernel trap path, exactly as the hardware
/// fixes it: the top cause bit selects asynchronous against synchronous,
/// the low twelve bits the cause; any cause without an arm, a trap from
/// outside supervisor mode, an illegal instruction and a machine-mode
/// environment call are fatal; the pc advances one instruction exactly for
/// the causes that must not re-execute.
pub open spec fn spec_kerneltrap(prev: Privilege, epc: u64, tval: u64, cause: u64, hart: u64)
    -> Result<TrapReturn, Fatal> {
    if prev != Privilege::Supervisor {
        Err(Fatal::KernelTrapNotFromSupervisor)
    } else if is_async(cause) {
        if cause_num(cause) == CAUSE_SOFTWARE {
            Ok(TrapReturn { action: TrapAction::LogSoftware, return_pc: epc })
        } else if cause_num(cause) == CAUSE_TIMER {
            Ok(TrapReturn { action: TrapAction::RearmTimer, return_pc: epc })
        } else if cause_num(cause) == CAUSE_EXTERNAL {
            Ok(TrapReturn { action: TrapAction::PollExternal, return_pc: epc })
        } else {
            Err(Fatal::UnhandledAsyncCause { hart, cause: cause_num(cause) })
        }
    } else {
        if cause_num(cause) == CAUSE_ILLEGAL_INSTRUCTION {
            Err(Fatal::IllegalInstruction { hart, epc, tval })
        } else if cause_num(cause) == CAUSE_USER_ECALL {
            Ok(TrapReturn {
                action: TrapAction::LogUserEcall,
                return_pc: (epc + INSTRUCTION_WIDTH) as u64,
            })
        } else if cause_num(cause) == CAUSE_SUPERVISOR_ECALL {
            Ok(TrapReturn {
                action: TrapAction::LogSupervisorEcall,
                return_pc: (epc + INSTRUCTION_WIDTH) as u64,
            })
        } else if cause_num(cause) == CAUSE_MACHINE_ECALL {
            Err(Fatal::MachineEcall { hart, epc })
        } else if cause_num(cause) == CAUSE_INSTRUCTION_PAGE_FAULT {
            Ok(TrapReturn {
                action: TrapAction::LogInstructionPageFault,
                return_pc: (epc + INSTRUCTION_WIDTH) as u64,
            })
        } else if cause_num(cause) == CAUSE_LOAD_PAGE_FAULT {
            Ok(TrapReturn {
                action: TrapAction::LogLoadPageFault,
                return_pc: (epc + INSTRUCTION_WIDTH) as u64,
            })
        } else if cause_num(cause) == CAUSE_STORE_PAGE_FAULT {
            Ok(TrapReturn {
                action: TrapAction::LogStorePageFault,
                return_pc: (epc + INSTRUCTION_WIDTH) as u64,
            })
        } else {
            Err(Fatal::UnhandledSyncCause { hart, cause: cause_num(cause) })
        }
    }
}

/// Dispatch one trap taken while already in supervisor mode.
///
/// `prev` is the privilege level the hardware reports for the trapped
/// context, `epc` the saved pc, `tval` the trap-value register, `cause`
/// the raw cause register, `hart` the core id. Returns the decision of
/// [`spec_kerneltrap`]: either the action to perform with the pc to return
/// to, or the fatal condition on which the core halts.
pub fn kerneltrap(prev: Privilege, epc: u64, tval: u64, cause: u64, hart: u64)
    -> (r: Result<TrapReturn, Fatal>)
    requires
        advances_pc(cause) ==> epc + INSTRUCTION_WIDTH <= u64::MAX,
    ensures
        r == spec_kerneltrap(prev, epc, tval, cause, hart),
{
    if prev != Privilege::Supervisor {
        return Err(Fatal::KernelTrapNotFromSupervisor);
    }
    let asynchronous = (cause >> 63) & 1 == 1;
    let num = cause & 0xfff;
    if asynchronous {
        match num {
            3 => Ok(TrapReturn { action: TrapAction::LogSoftware, return_pc: epc }),
            7 => Ok(TrapReturn { action: TrapAction::RearmTimer, return_pc: epc }),
            9 => Ok(TrapReturn { action: TrapAction::PollExternal, return_pc: epc }),
            _ => Err(Fatal::UnhandledAsyncCause { hart, cause: num }),
        }
    } else {
        match num {
            2 => Err(Fatal::IllegalInstruction { hart, epc, tval }),
            8 => Ok(TrapReturn {
                action: TrapAction::LogUserEcall,
                return_pc: epc + INSTRUCTION_WIDTH,
            }),
            9 => Ok(TrapReturn {
                action: TrapAction::LogSupervisorEcall,
                return_pc: epc + INSTRUCTION_WIDTH,
            }),
            11 => Err(Fatal::MachineEcall { hart, epc }),
            12 => Ok(TrapReturn {
                action: TrapAction::LogInstructionPageFault,
                return_pc: epc + INSTRUCTION_WIDTH,
            }),
            13 => Ok(TrapReturn {
                action: TrapAction::LogLoadPageFault,
                return_pc: epc + INSTRUCTION_WIDTH,
            }),
            15 => Ok(TrapReturn {
                action: TrapAction::LogStorePageFault,
                return_pc: epc + INSTRUCTION_WIDTH,
            }),
            _ => Err(Fatal::UnhandledSyncCause { hart, cause: num }),
        }
    }
}

/// A trap delivered in machine mode, which this kernel never arms for:
/// always fatal.
pub fn m_trap() -> (r: Fatal)
    ensures
        r == Fatal::MachineModeTrap,
{
    Fatal::MachineModeTrap
}

/// The timer-compare value that schedules the next tick: the current timer
/// count plus the fixed interval.
pub fn timer_rearm_value(now: u64) -> (r: u64)
    requires
        now + TIMER_INTERVAL <= u64::MAX,
    ensures
        r == now + TIMER_INTERVAL,
{
    now + TIMER_INTERVAL
}

/// The line-editing echo for one received console byte: a backspace erases
/// destructively (backspace, space, backspace again), newline and carriage
/// return echo a newline, and every other byte echoes verbatim.
pub open spec fn echo_output(c: u8) -> Seq<u8> {
    if c == 8 {
        seq![8u8, 32u8, 8u8]
    } else if c == 10 || c == 13 {
        seq![10u8]
    } else {
        seq![c]
    }
}

/// The bytes to transmit in echo of one received console byte.
pub fn console_echo(c: u8) -> (r: Vec<u8>)
    ensures
        r@ == echo_output(c),
{
    let mut out: Vec<u8> = Vec::new();
    if c == 8 {
        out.push(8);
        out.push(32);
        out.push(8);
    } else if c == 10 || c == 13 {
        out.push(10);
    } else {
        out.push(c);
    }
    proof {
        assert(out@ =~= echo_output(c));
    }
    out
}

/// What to do with the id the claim register handed back. The reserved id
/// 0 means absence, exactly like an empty claim, and owes no completion;
/// every real source must be completed after servicing.
#[derive(Clone, Copy, PartialEq, Eq, Structural, Debug)]
pub enum ExtAction {
    /// Nothing was pending: a spurious or already-serviced interrupt;
    /// nothing happens.
    Spurious,
    /// The console device raised the interrupt: drain one byte, echo it,
    /// then complete the source.
    ServiceConsole,
    /// A source this kernel does not recognize: log it, then complete it.
    LogUnrecognized { source: u32 },
}

/// Decide the external-interrupt service for a claim result.
pub fn external_action(claim: Option<u32>) -> (r: ExtAction)
    ensures
        claim is None || claim == Some(0u32) ==> r == ExtAction::Spurious,
        claim == Some(UART_SOURCE) ==> r == ExtAction::ServiceConsole,
        claim is Some && claim->Some_0 != 0 && claim->Some_0 != UART_SOURCE
            ==> r == (ExtAction::LogUnrecognized { source: claim->Some_0 }),
{
    match claim {
        None => ExtAction::Spurious,
        Some(source) => {
            if source == 0 {
                ExtAction::Spurious
            } else if source == UART_SOURCE {
                ExtAction::ServiceConsole
            } else {
                ExtAction::LogUnrecognized { source }
            }
        }
    }
}

/// Transmit a run of bytes in order.
fn uart_put_all(uart: &mut Uart, bytes: &Vec<u8>)
    ensures
        final(uart).input@ == old(uart).input@,
        final(uart).output@ == old(uart).output@ + bytes@,
{
    let mut i: usize = 0;
    while i < bytes.len()
        invariant
            i <= bytes@.len(),
            uart.input@ == old(uart).input@,
            uart.output@ == old(uart).output@ + bytes@.subrange(0, i as int),
        decreases bytes@.len() - i,
    {
        uart.put(bytes[i]);
        proof {
            assert(uart.output@ =~= old(uart).output@ + bytes@.subrange(0, i + 1));
        }
        i += 1;
    }
    proof {
        assert(old(uart).output@ + bytes@.subrange(0, bytes@.len() as int)
            =~= old(uart).output@ + bytes@);
    }
}

/// Outcome of one pass of the external-interrupt handshake.
#[derive(Clone, Copy, PartialEq, Eq, Structural, Debug)]
pub enum ExtOutcome {
    /// Nothing was pending: spurious or already serviced.
    Spurious,
    /// The console source was claimed; one byte was drained and echoed.
    ConsoleEchoed { byte: u8 },
    /// The console source was claimed but the device held no byte.
    ConsoleEmpty,
    /// An unrecognized source was claimed and only logged.
    Unrecognized { source: u32 },
}

/// One full pass of the external-interrupt arm over the modeled devices:
/// claim the next source, service it, complete it.
///
/// Every claim that hands out a source is completed exactly once before
/// return — the controller's claimed set ends as it began — and a console
/// claim drains at most one byte and transmits exactly its echo.
pub fn handle_external(plic: &mut Plic, uart: &mut Uart) -> (r: ExtOutcome)
    requires
        plic_wf(*old(plic)),
    ensures
        plic_wf(*final(plic)),
        final(plic).claimed@ == old(plic).claimed@,
        old(plic).pending@.len() == 0 ==> r == ExtOutcome::Spurious
            && final(plic).pending@ == old(plic).pending@
            && final(uart).input@ == old(uart).input@
            && final(uart).output@ == old(uart).output@,
        old(plic).pending@.len() > 0 ==> final(plic).pending@ == old(plic).pending@.drop_first()
            && ({
                let source = old(plic).pending@[0];
                if source == UART_SOURCE {
                    if old(uart).input@.len() > 0 {
                        let byte = old(uart).input@[0];
                        r == (ExtOutcome::ConsoleEchoed { byte })
                            && final(uart).input@ == old(uart).input@.drop_first()
                            && final(uart).output@ == old(uart).output@ + echo_output(byte)
                    } else {
                        r == ExtOutcome::ConsoleEmpty
                            && final(uart).input@ == old(uart).input@
                            && final(uart).output@ == old(uart).output@
                    }
                } else {
                    r == (ExtOutcome::Unrecognized { source })
                        && final(uart).input@ == old(uart).input@
                        && final(uart).output@ == old(uart).output@
                }
            }),
{
    match plic.claim_next() {
        None => ExtOutcome::Spurious,
        Some(source) => {
            let outcome = if source == UART_SOURCE {
                match uart.get() {
                    Some(byte) => {
                        let echo = console_echo(byte);
                        uart_put_all(uart, &echo);
                        ExtOutcome::ConsoleEchoed { byte }
                    }
                    None => ExtOutcome::ConsoleEmpty,
                }
            } else {
                ExtOutcome::Unrecognized { source }
            };
            proof {
                let c0 = old(plic).claimed@;
                let c1 = c0.push(old(plic).pending@[0]);
                let src = old(plic).pending@[0];
                assert(!c0.contains(src));
                c1.index_of_first_ensures(src);
                let idx = c1.index_of_first(src)->Some_0;
                assert(c1[c0.len() as int] == src);
                assert(c1.contains(src));
                if idx < c0.len() {
                    assert(c1[idx] == c0[idx]);
                    assert(c0.contains(src));
                }
                assert(idx == c0.len());
                assert(c1.remove(idx) =~= c0);
            }
            plic.complete(source);
            outcome
        }
    }
}

/// The one non-fatal decision at the user entry point: the trap was a
/// user-mode environment call. The embedder must then re-enable
/// interrupts, run the system-call dispatcher, store its result with
/// [`store_syscall_result`], yield the core to the scheduler, and leave
/// through [`usertrapret`] once rescheduled.
#[derive(Clone, Copy, PartialEq, Eq, Structural, Debug)]
pub enum UserTrapAction {
    Syscall,
}

/// The entry half of the user-transition protocol: the saved user pc is
/// recorded in the process's trapframe; a user-mode environment call
/// advances it one instruction past the call so the call does not
/// re-execute; a trap from any other privilege level, or any other cause,
/// is fatal.
pub open spec fn spec_usertrap(prev: Privilege, sepc: u64, scause: u64, tf: TrapFrame)
    -> (Result<UserTrapAction, Fatal>, TrapFrame) {
    if prev != Privilege::User {
        (Err(Fatal::UserTrapNotFromUser), tf)
    } else if scause == CAUSE_USER_ECALL {
        (
            Ok(UserTrapAction::Syscall),
            TrapFrame { epc: (sepc + INSTRUCTION_WIDTH) as u64, ..tf },
        )
    } else {
        (Err(Fatal::UnexpectedUserCause { cause: scause }), TrapFrame { epc: sepc, ..tf })
    }
}

/// Handle a trap that the hardware delivered out of user mode.
///
/// The embedder re-arms the kernel trap vector before calling this, so a
/// nested trap during handling is routed correctly. `prev` is the
/// hardware-reported previous privilege, `sepc` the saved user pc,
/// `scause` the raw cause register; `tf` is the current process's
/// trapframe. Decides as [`spec_usertrap`] does.
pub fn usertrap(prev: Privilege, sepc: u64, scause: u64, tf: &mut TrapFrame)
    -> (r: Result<UserTrapAction, Fatal>)
    requires
        scause == CAUSE_USER_ECALL ==> sepc + INSTRUCTION_WIDTH <= u64::MAX,
    ensures
        r == spec_usertrap(prev, sepc, scause, *old(tf)).0,
        *final(tf) == spec_usertrap(prev, sepc, scause, *old(tf)).1,
{
    if prev != Privilege::User {
        return Err(Fatal::UserTrapNotFromUser);
    }
    tf.epc = sepc;
    if scause == CAUSE_USER_ECALL {
        tf.epc = sepc + INSTRUCTION_WIDTH;
        Ok(UserTrapAction::Syscall)
    } else {
        Err(Fatal::UnexpectedUserCause { cause: scause })
    }
}

/// Store the system-call dispatcher's result in the designated
/// return-value slot, register `a0`, leaving every other field alone.
pub fn store_syscall_result(tf: &mut TrapFrame, value: u64)
    ensures
        final(tf).regs@ == old(tf).regs@.update(REG_A0 as int, value),
        final(tf).epc == old(tf).epc,
        final(tf).satp == old(tf).satp,
        final(tf).sp == old(tf).sp,
        final(tf).trap == old(tf).trap,
        final(tf).hartid == old(tf).hartid,
        final(tf).trap_stack == old(tf).trap_stack,
{
    tf.regs[REG_A0] = value;
}

/// What the exit half hands the trampoline's return routine: the
/// address-translation value selecting the process's page table and the
/// pc at which user execution resumes.
#[derive(Clone, Copy, PartialEq, Eq, Structural, Debug)]
pub struct UserReturn {
    /// Address-translation register value for the process: Sv39 mode,
    /// address-space id 0, the process's page-table root.
    pub satp_val: u64,
    /// Value for the saved-pc register: where the process resumes.
    pub resume_pc: u64,
}

/// The exit half of the user-transition protocol: interrupts are gated
/// off for the switch; the process's trapframe is loaded with the hart's
/// kernel context (kernel address-translation value, kernel stack, the
/// user entry routine, the hart identity) for the next trap; the
/// privilege-return fields are set to drop to user mode with interrupts
/// on; and the process's page-table root is encoded with the fixed mode
/// and address-space id 0 — fatally rejecting a misaligned root.
pub open spec fn spec_usertrapret(
    tf: TrapFrame,
    kernel_tf: TrapFrame,
    trap_entry: u64,
    root: u64,
    intr: IntrState,
) -> (Result<UserReturn, Fatal>, TrapFrame, IntrState) {
    let tf1 = TrapFrame {
        satp: kernel_tf.satp,
        sp: kernel_tf.sp,
        trap: trap_entry,
        hartid: kernel_tf.hartid,
        ..tf
    };
    let intr1 = IntrState { sie: false, spie: true, spp: Privilege::User, ..intr };
    if root % PAGE_SIZE == 0 {
        (
            Ok(UserReturn { satp_val: satp_encode(SATP_MODE_SV39, 0, root), resume_pc: tf.epc }),
            tf1,
            intr1,
        )
    } else {
        (Err(Fatal::MisalignedPageTableRoot { addr: root }), tf1, intr1)
    }
}

/// Prepare the return of this hart to user mode, as [`spec_usertrapret`]
/// lays it out.
///
/// `tf` is the resuming process's trapframe, `kernel_tf` the hart's kernel
/// trapframe, `trap_entry` the address of the user-trap entry routine the
/// trampoline must jump to on the next trap, `root` the process's
/// page-table root. On success the embedder installs the trampoline trap
/// vector, writes the saved-pc register with `resume_pc`, and jumps to the
/// trampoline's return routine with the trapframe address and `satp_val`;
/// that jump switches address space and privilege and never returns.
pub fn usertrapret(
    tf: &mut TrapFrame,
    kernel_tf: &TrapFrame,
    trap_entry: u64,
    root: u64,
    intr: &mut IntrState,
) -> (r: Result<UserReturn, Fatal>)
    ensures
        r == spec_usertrapret(*old(tf), *kernel_tf, trap_entry, root, *old(intr)).0,
        *final(tf) == spec_usertrapret(*old(tf), *kernel_tf, trap_entry, root, *old(intr)).1,
        *final(intr) == spec_usertrapret(*old(tf), *kernel_tf, trap_entry, root, *old(intr)).2,
{
    intr_off(intr);
    tf.satp = kernel_tf.satp;
    tf.sp = kernel_tf.sp;
    tf.trap = trap_entry;
    tf.hartid = kernel_tf.hartid;
    intr.spie = true;
    intr.spp = Privilege::User;
    match try_build_satp(SATP_MODE_SV39, 0, root) {
        Ok(satp_val) => Ok(UserReturn { satp_val, resume_pc: tf.epc }),
        Err(fatal) => Err(fatal),
    }
}

/// A timer interrupt only rearms the timer: the dispatcher returns to the
/// very pc it was handed, with the rearm action — no halt and no
/// privilege-ending step, whatever the rest of the cause register holds.
pub proof fn lemma_timer_dispatch(epc: u64, tval: u64, cause: u64, hart: u64)
    requires
        is_async(cause),
        cause_num(cause) == CAUSE_TIMER,
    ensures
        spec_kerneltrap(Privilege::Supervisor, epc, tval, cause, hart)
            == Ok::<TrapReturn, Fatal>(TrapReturn {
                action: TrapAction::RearmTimer,
                return_pc: epc,
            }),
{
}

/// A user-mode environment call on the kernel trap path resumes one
/// instruction past the call and performs no halt.
pub proof fn lemma_user_ecall_dispatch(epc: u64, tval: u64, cause: u64, hart: u64)
    requires
        !is_async(cause),
        cause_num(cause) == CAUSE_USER_ECALL,
        epc + INSTRUCTION_WIDTH <= u64::MAX,
    ensures
        spec_kerneltrap(Privilege::Supervisor, epc, tval, cause, hart)
            == Ok::<TrapReturn, Fatal>(TrapReturn {
                action: TrapAction::LogUserEcall,
                return_pc: (epc + INSTRUCTION_WIDTH) as u64,
            }),
{
}

/// An illegal instruction always halts the core, carrying the core id,
/// the faulting pc and the faulting value as diagnostics; the dispatcher
/// never returns an action for it.
pub proof fn lemma_illegal_instruction_dispatch(epc: u64, tval: u64, cause: u64, hart: u64)
    requires
        !is_async(cause),
        cause_num(cause) == CAUSE_ILLEGAL_INSTRUCTION,
    ensures
        spec_kerneltrap(Privilege::Supervisor, epc, tval, cause, hart)
            == Err::<TrapReturn, Fatal>(Fatal::IllegalInstruction { hart, epc, tval }),
{
}

/// End to end through a user-mode environment call. Entry advances the
/// saved pc one instruction past the call; storing the system-call result
/// puts it in register `a0` and nowhere else (`tf2` is the frame
/// [`store_syscall_result`] leaves behind); and the exit path, given a
/// page-aligned process root, resumes at the advanced pc with an
/// address-translation value whose frame bits are the root's page number
/// and whose mode bits are the fixed mode constant. Between the store and
/// the exit the embedder yields the core; the scheduler hands the frame
/// back unchanged.
pub proof fn lemma_user_ecall_round_trip(
    sepc: u64,
    tf: TrapFrame,
    value: u64,
    tf2: TrapFrame,
    kernel_tf: TrapFrame,
    trap_entry: u64,
    root: u64,
    intr: IntrState,
)
    requires
        sepc + INSTRUCTION_WIDTH <= u64::MAX,
        root % PAGE_SIZE == 0,
        tf2.regs@ == spec_usertrap(Privilege::User, sepc, CAUSE_USER_ECALL, tf).1.regs@
            .update(REG_A0 as int, value),
        tf2.epc == spec_usertrap(Privilege::User, sepc, CAUSE_USER_ECALL, tf).1.epc,
    ensures
        spec_usertrap(Privilege::User, sepc, CAUSE_USER_ECALL, tf).0
            == Ok::<UserTrapAction, Fatal>(UserTrapAction::Syscall),
        tf2.epc == sepc + INSTRUCTION_WIDTH,
        tf2.regs@[REG_A0 as int] == value,
        spec_usertrapret(tf2, kernel_tf, trap_entry, root, intr).0 is Ok,
        ({
            let ret = spec_usertrapret(tf2, kernel_tf, trap_entry, root, intr).0->Ok_0;
            &&& satp_mode(ret.satp_val) == SATP_MODE_SV39
            &&& satp_asid(ret.satp_val) == 0
            &&& satp_ppn(ret.satp_val) == (root >> 12) & 0xfff_ffff_ffff
            &&& ret.resume_pc == sepc + INSTRUCTION_WIDTH
        }),
{
    lemma_satp_round_trip(SATP_MODE_SV39, 0, root);
    assert(SATP_MODE_SV39 & 0xf == SATP_MODE_SV39) by (bit_vector);
    assert(0u64 & 0xffff == 0u64) by (bit_vector);
}

/// The virtual address of a trampoline routine: its offset inside the
/// trampoline text section, rebased to the fixed trampoline mapping that
/// every page table shares.
pub fn trampoline_vector(routine: u64, text_start: u64, trampoline_start: u64) -> (r: u64)
    requires
        text_start <= routine,
        routine - text_start + trampoline_start <= u64::MAX,
    ensures
        r == trampoline_start + (routine - text_start),
{
    trampoline_start + (routine - text_start)
}

} // verus!
