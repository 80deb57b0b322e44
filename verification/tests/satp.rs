use core_os::cpu::{build_satp, try_build_satp, SATP_MODE_SV39};
use core_os::fatal::Fatal;

#[test]
fn encodes_sv39_value_exactly() {
    let v = build_satp(SATP_MODE_SV39, 0, 0x8020_0000);
    assert_eq!(v, 0x8000_0000_0008_0200);
}

#[test]
fn encodes_asid_field() {
    let v = build_satp(SATP_MODE_SV39, 0x1234, 0x8020_0000);
    assert_eq!(v, (8u64 << 60) | (0x1234u64 << 44) | 0x80200);
}

#[test]
fn round_trips_mode_asid_and_frame_bits() {
    let mode = 8u64;
    let asid = 0xbeef_u64;
    let addr = 0x1234_5000_u64;
    let v = build_satp(mode, asid, addr);
    assert_eq!(v >> 60, mode & 0xf);
    assert_eq!((v >> 44) & 0xffff, asid & 0xffff);
    assert_eq!(v & 0xfff_ffff_ffff, (addr >> 12) & 0xfff_ffff_ffff);
}

#[test]
fn round_trips_with_oversized_inputs_masked() {
    let mode = 0x3fu64;
    let asid = 0xf_ffff_u64;
    let addr = 0xffff_ffff_f000_u64;
    let v = build_satp(mode, asid, addr);
    assert_eq!(v >> 60, mode & 0xf);
    assert_eq!((v >> 44) & 0xffff, asid & 0xffff);
    assert_eq!(v & 0xfff_ffff_ffff, (addr >> 12) & 0xfff_ffff_ffff);
}

#[test]
fn aligned_root_is_accepted() {
    assert_eq!(
        try_build_satp(SATP_MODE_SV39, 0, 0x8020_0000),
        Ok(0x8000_0000_0008_0200)
    );
}

#[test]
fn misaligned_root_is_the_alignment_fatal() {
    for addr in [1u64, 0x1001, 4095, 0x8020_0004, 0xdead_beef] {
        assert_eq!(
            try_build_satp(SATP_MODE_SV39, 0, addr),
            Err(Fatal::MisalignedPageTableRoot { addr })
        );
    }
}
