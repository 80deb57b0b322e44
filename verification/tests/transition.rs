use core_os::cpu::{
    intr_off, intr_on, HartArena, IntrState, Privilege, TrapFrame, REG_A0, SATP_MODE_SV39,
};
use core_os::fatal::Fatal;
use core_os::trap::{
    store_syscall_result, trampoline_vector, usertrap, usertrapret, UserReturn, UserTrapAction,
};

fn all_off() -> IntrState {
    IntrState {
        sext: false,
        ssoft: false,
        stimer: false,
        sie: false,
        spie: false,
        spp: Privilege::Machine,
    }
}

#[test]
fn enable_raises_every_source_and_the_gate() {
    let mut s = all_off();
    intr_on(&mut s);
    assert!(s.sext && s.ssoft && s.stimer && s.sie);
    assert!(!s.spie);
    assert_eq!(s.spp, Privilege::Machine);
}

#[test]
fn disable_clears_only_the_gate() {
    let mut s = all_off();
    intr_on(&mut s);
    intr_off(&mut s);
    assert!(!s.sie);
    assert!(s.sext && s.ssoft && s.stimer);
}

#[test]
fn disable_then_enable_restores_all_sources() {
    let mut s = all_off();
    intr_off(&mut s);
    intr_on(&mut s);
    assert!(s.sext && s.ssoft && s.stimer && s.sie);
}

#[test]
fn user_ecall_entry_advances_saved_pc() {
    let mut tf = TrapFrame::new();
    let r = usertrap(Privilege::User, 0x1000, 8, &mut tf);
    assert_eq!(r, Ok(UserTrapAction::Syscall));
    assert_eq!(tf.epc, 0x1004);
}

#[test]
fn entry_from_non_user_mode_is_fatal() {
    let mut tf = TrapFrame::new();
    tf.epc = 77;
    let r = usertrap(Privilege::Supervisor, 0x1000, 8, &mut tf);
    assert_eq!(r, Err(Fatal::UserTrapNotFromUser));
    assert_eq!(tf.epc, 77);
}

#[test]
fn entry_with_unexpected_cause_is_fatal() {
    let mut tf = TrapFrame::new();
    let r = usertrap(Privilege::User, 0x1000, 13, &mut tf);
    assert_eq!(r, Err(Fatal::UnexpectedUserCause { cause: 13 }));
    assert_eq!(tf.epc, 0x1000);
}

#[test]
fn syscall_result_lands_in_a0_only() {
    let mut tf = TrapFrame::new();
    tf.epc = 5;
    store_syscall_result(&mut tf, 42);
    assert_eq!(tf.regs[REG_A0], 42);
    assert_eq!(tf.epc, 5);
    for (i, r) in tf.regs.iter().enumerate() {
        if i != REG_A0 {
            assert_eq!(*r, 0);
        }
    }
}

#[test]
fn exit_loads_kernel_context_and_encodes_the_root() {
    let mut tf = TrapFrame::new();
    tf.epc = 0x2004;
    let mut kernel_tf = TrapFrame::new();
    kernel_tf.satp = 0x8000_0000_0009_9000;
    kernel_tf.sp = 0x8300_0000;
    kernel_tf.hartid = 2;
    let mut intr = all_off();
    intr.sie = true;
    let root = 0x8040_0000u64;
    let r = usertrapret(&mut tf, &kernel_tf, 0xa0a0, root, &mut intr);
    assert_eq!(
        r,
        Ok(UserReturn {
            satp_val: (SATP_MODE_SV39 << 60) | (root >> 12),
            resume_pc: 0x2004,
        })
    );
    assert_eq!(tf.satp, kernel_tf.satp);
    assert_eq!(tf.sp, kernel_tf.sp);
    assert_eq!(tf.trap, 0xa0a0);
    assert_eq!(tf.hartid, 2);
    assert_eq!(tf.epc, 0x2004);
    assert!(!intr.sie);
    assert!(intr.spie);
    assert_eq!(intr.spp, Privilege::User);
}

#[test]
fn exit_with_misaligned_root_is_fatal() {
    let mut tf = TrapFrame::new();
    let kernel_tf = TrapFrame::new();
    let mut intr = all_off();
    let r = usertrapret(&mut tf, &kernel_tf, 0xa0a0, 0x8040_0010, &mut intr);
    assert_eq!(r, Err(Fatal::MisalignedPageTableRoot { addr: 0x8040_0010 }));
}

#[test]
fn full_user_call_transition() {
    let mut tf = TrapFrame::new();
    let r = usertrap(Privilege::User, 0x1000, 8, &mut tf);
    assert_eq!(r, Ok(UserTrapAction::Syscall));
    store_syscall_result(&mut tf, 7);
    let mut kernel_tf = TrapFrame::new();
    kernel_tf.satp = 1;
    kernel_tf.sp = 2;
    kernel_tf.hartid = 0;
    let mut intr = all_off();
    let root = 0x8020_0000u64;
    let r = usertrapret(&mut tf, &kernel_tf, 0x5050, root, &mut intr).unwrap();
    assert_eq!(r.resume_pc, 0x1004);
    assert_eq!(r.satp_val >> 60, SATP_MODE_SV39);
    assert_eq!(r.satp_val & 0xfff_ffff_ffff, root >> 12);
    assert_eq!(tf.regs[REG_A0], 7);
}

#[test]
fn arena_has_one_stamped_context_per_core() {
    let arena = HartArena::new(4);
    assert_eq!(arena.contexts.len(), 4);
    for (h, ctx) in arena.contexts.iter().enumerate() {
        assert_eq!(ctx.kernel_trapframe.hartid, h as u64);
        assert!(ctx.scheduled.is_none());
    }
}

#[test]
fn arena_hands_each_hart_its_own_slot() {
    let mut arena = HartArena::new(2);
    arena.context_mut(1).kernel_trapframe.sp = 0x9000;
    arena.context_mut(1).scheduled = Some(3);
    assert_eq!(arena.context(1).kernel_trapframe.sp, 0x9000);
    assert_eq!(arena.context(1).scheduled, Some(3));
    assert_eq!(arena.context(0).kernel_trapframe.sp, 0);
    assert!(arena.context(0).scheduled.is_none());
}

#[test]
fn trampoline_routine_is_rebased() {
    let v = trampoline_vector(0x8000_0200, 0x8000_0000, 0xffff_f000);
    assert_eq!(v, 0xffff_f200);
}
