use core_os::cpu::Privilege;
use core_os::fatal::Fatal;
use core_os::trap::{
    kerneltrap, m_trap, timer_rearm_value, TrapAction, TrapReturn, TIMER_INTERVAL,
};

const ASYNC_BIT: u64 = 1 << 63;

#[test]
fn timer_interrupt_rearms_and_returns_in_place() {
    let r = kerneltrap(Privilege::Supervisor, 0x8000_1000, 0, ASYNC_BIT | 7, 0);
    assert_eq!(
        r,
        Ok(TrapReturn { action: TrapAction::RearmTimer, return_pc: 0x8000_1000 })
    );
    let old_time = 123_456u64;
    assert_eq!(timer_rearm_value(old_time), old_time + TIMER_INTERVAL);
    assert_eq!(timer_rearm_value(0), 10_000_000);
}

#[test]
fn software_interrupt_only_logs() {
    let r = kerneltrap(Privilege::Supervisor, 64, 0, ASYNC_BIT | 3, 1);
    assert_eq!(r, Ok(TrapReturn { action: TrapAction::LogSoftware, return_pc: 64 }));
}

#[test]
fn external_interrupt_polls_the_controller() {
    let r = kerneltrap(Privilege::Supervisor, 64, 0, ASYNC_BIT | 9, 1);
    assert_eq!(r, Ok(TrapReturn { action: TrapAction::PollExternal, return_pc: 64 }));
}

#[test]
fn unknown_async_cause_is_fatal() {
    let r = kerneltrap(Privilege::Supervisor, 64, 0, ASYNC_BIT | 5, 2);
    assert_eq!(r, Err(Fatal::UnhandledAsyncCause { hart: 2, cause: 5 }));
}

#[test]
fn user_ecall_advances_pc_and_does_not_halt() {
    let r = kerneltrap(Privilege::Supervisor, 0x100, 0, 8, 0);
    assert_eq!(
        r,
        Ok(TrapReturn { action: TrapAction::LogUserEcall, return_pc: 0x104 })
    );
}

#[test]
fn supervisor_ecall_advances_pc() {
    let r = kerneltrap(Privilege::Supervisor, 0x100, 0, 9, 0);
    assert_eq!(
        r,
        Ok(TrapReturn { action: TrapAction::LogSupervisorEcall, return_pc: 0x104 })
    );
}

#[test]
fn illegal_instruction_halts_with_diagnostics() {
    let r = kerneltrap(Privilege::Supervisor, 0x2000, 0xbad, 2, 3);
    assert_eq!(
        r,
        Err(Fatal::IllegalInstruction { hart: 3, epc: 0x2000, tval: 0xbad })
    );
}

#[test]
fn machine_ecall_is_fatal() {
    let r = kerneltrap(Privilege::Supervisor, 0x2000, 0, 11, 0);
    assert_eq!(r, Err(Fatal::MachineEcall { hart: 0, epc: 0x2000 }));
}

#[test]
fn page_faults_are_diagnosed_and_skipped() {
    let cases = [
        (12u64, TrapAction::LogInstructionPageFault),
        (13u64, TrapAction::LogLoadPageFault),
        (15u64, TrapAction::LogStorePageFault),
    ];
    for (cause, action) in cases {
        let r = kerneltrap(Privilege::Supervisor, 0x400, 0x30, cause, 1);
        assert_eq!(r, Ok(TrapReturn { action, return_pc: 0x404 }));
    }
}

#[test]
fn unknown_sync_cause_is_fatal() {
    let r = kerneltrap(Privilege::Supervisor, 0x400, 0, 1, 1);
    assert_eq!(r, Err(Fatal::UnhandledSyncCause { hart: 1, cause: 1 }));
}

#[test]
fn trap_from_outside_supervisor_mode_is_fatal() {
    let r = kerneltrap(Privilege::User, 0x400, 0, ASYNC_BIT | 7, 0);
    assert_eq!(r, Err(Fatal::KernelTrapNotFromSupervisor));
    let r = kerneltrap(Privilege::Machine, 0x400, 0, 8, 0);
    assert_eq!(r, Err(Fatal::KernelTrapNotFromSupervisor));
}

#[test]
fn machine_mode_trap_is_fatal() {
    assert_eq!(m_trap(), Fatal::MachineModeTrap);
}
