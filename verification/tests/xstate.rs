use x86_vcpu_state::xstate::{
    CpuidAnswer, CpuidLeaf, XFeatureSupport, XRegisterValues, XSaveOp, XState, XfdValues, XFEATURE_AVX512,
    XFEATURE_FP, XFEATURE_MPX, XFEATURE_SSE, XFEATURE_XTILE, XFEATURE_YMM,
};

/// The answer to CPUID leaf 0xD, sub-leaf 0.
fn sub0(eax: u32, ebx: u32, ecx: u32, edx: u32) -> CpuidAnswer {
    CpuidAnswer { leaf: 0x0d, sub_leaf: 0, regs: CpuidLeaf { eax, ebx, ecx, edx } }
}

/// The answer to CPUID leaf 0xD, sub-leaf 1.
fn sub1(eax: u32, ebx: u32, ecx: u32, edx: u32) -> CpuidAnswer {
    CpuidAnswer { leaf: 0x0d, sub_leaf: 1, regs: CpuidLeaf { eax, ebx, ecx, edx } }
}

/// A processor with XSAVE, XSAVES and XFD; XCR0 bits 0x6_02e7 and IA32_XSS bits 0x1_0000_1900.
fn full_support() -> XFeatureSupport {
    XFeatureSupport::from_cpuid(
        true,
        true,
        Some(sub0(0x6_02e7, 0xa80, 0x2b00, 0)),
        sub1(0x1f, 0x2c00, 0x1900, 0x1),
    )
}

fn regs(xcr0: u64, xss: u64, xfd: u64, xfd_err: u64) -> XRegisterValues {
    XRegisterValues { xcr0, xss, xfd, xfd_err }
}

#[test]
fn validate_xcr0_accepts_consistent_values() {
    assert!(XState::validate_xcr0(XFEATURE_FP));
    assert!(XState::validate_xcr0(XFEATURE_FP | XFEATURE_SSE));
    assert!(XState::validate_xcr0(XFEATURE_FP | XFEATURE_SSE | XFEATURE_YMM));
    assert!(XState::validate_xcr0(XFEATURE_FP | XFEATURE_SSE | XFEATURE_YMM | XFEATURE_AVX512));
    assert!(XState::validate_xcr0(XFEATURE_FP | XFEATURE_MPX));
    assert!(XState::validate_xcr0(XFEATURE_FP | XFEATURE_XTILE));
    assert!(XState::validate_xcr0(0x6_02ff));
}

#[test]
fn validate_xcr0_rejects_each_broken_rule() {
    assert!(!XState::validate_xcr0(0));
    assert!(!XState::validate_xcr0(XFEATURE_SSE | XFEATURE_YMM));
    assert!(!XState::validate_xcr0(XFEATURE_FP | XFEATURE_YMM));
    assert!(!XState::validate_xcr0(XFEATURE_FP | 0x8));
    assert!(!XState::validate_xcr0(XFEATURE_FP | 0x10));
    assert!(!XState::validate_xcr0(XFEATURE_FP | XFEATURE_SSE | XFEATURE_AVX512));
    assert!(!XState::validate_xcr0(XFEATURE_FP | XFEATURE_SSE | XFEATURE_YMM | 0x20));
    assert!(!XState::validate_xcr0(XFEATURE_FP | XFEATURE_SSE | XFEATURE_YMM | 0x60));
    assert!(!XState::validate_xcr0(XFEATURE_FP | 0x2_0000));
    assert!(!XState::validate_xcr0(XFEATURE_FP | 0x4_0000));
}

#[test]
fn validate_xcr0_ignores_unrelated_bits() {
    assert!(XState::validate_xcr0(XFEATURE_FP | 0x200));
    assert!(XState::validate_xcr0(XFEATURE_FP | 0x8000_0000_0000_0000));
}

#[test]
fn supported_xfeatures_joins_register_halves() {
    let (xcr0, xss) =
        XState::supported_xfeatures(&sub0(0x2e7, 0, 0, 0x8000_0001), &sub1(0, 0, 0x1900, 0x2));
    assert_eq!(xcr0, 0x8000_0001_0000_02e7);
    assert_eq!(xss, 0x2_0000_1900);
}

#[test]
fn xsave_area_size_takes_the_largest_report() {
    assert_eq!(XState::xsave_area_size(&sub0(0, 0x240, 0x340, 0), &sub1(0, 0x300, 0, 0)), 0x340);
    assert_eq!(XState::xsave_area_size(&sub0(0, 0x240, 0x340, 0), &sub1(0, 0x400, 0, 0)), 0x400);
    assert_eq!(XState::xsave_area_size(&sub0(0, 0x900, 0x340, 0), &sub1(0, 0x400, 0, 0)), 0x900);
    assert_eq!(XState::xsave_area_size(&sub0(0, 0, 0, 0), &sub1(0, 0, 0, 0)), 512);
    assert_eq!(XState::xsave_area_size(&sub0(0, 0x100, 0x1ff, 0), &sub1(0, 3, 0, 0)), 512);
}

#[test]
fn xfd_bit_is_bit_4_of_eax() {
    assert!(XState::xfd_available_from(&sub1(0x10, 0, 0, 0)));
    assert!(XState::xfd_available_from(&sub1(0x1f, 0, 0, 0)));
    assert!(!XState::xfd_available_from(&sub1(0x0f, 0, 0, 0)));
    assert!(!XState::xfd_available_from(&sub1(0xffff_ffef, 0, 0, 0)));
}

#[test]
fn xstate_mask_adds_xss_only_with_xsaves() {
    assert_eq!(XState::xstate_mask(true, 0x7, 0x100), 0x107);
    assert_eq!(XState::xstate_mask(false, 0x7, 0x100), 0x7);
}

#[test]
fn from_cpuid_combines_answers() {
    let s = full_support();
    assert!(s.xsave_available && s.xsaves_available && s.xfd_available);
    assert_eq!(s.supported_xcr0, 0x6_02e7);
    assert_eq!(s.supported_xss, 0x1_0000_1900);
    assert_eq!(s.supported_xfd, XFEATURE_XTILE);
    assert_eq!(s.xsave_area_size, 0x2c00);
}

#[test]
fn from_cpuid_without_xsave_supports_nothing_but_xfd() {
    let s = XFeatureSupport::from_cpuid(
        false,
        true,
        Some(sub0(0x6_02e7, 0xa80, 0x2b00, 0)),
        sub1(0x1f, 0x2c00, 0x1900, 0),
    );
    assert!(!s.xsave_available);
    assert!(!s.xsaves_available);
    assert!(s.xfd_available);
    assert_eq!(s.supported_xcr0, 0);
    assert_eq!(s.supported_xss, 0);
    assert_eq!(s.supported_xfd, 0);
    assert_eq!(s.xsave_area_size, 0);
}

#[test]
fn initial_reads_follow_support() {
    let sel = full_support().initial_reads();
    assert!(sel.xcr0 && sel.xss && sel.xfd);
    let none = XFeatureSupport::from_cpuid(false, false, None, sub1(0, 0, 0, 0));
    let sel = none.initial_reads();
    assert!(!sel.xcr0 && !sel.xss && !sel.xfd);
}

#[test]
fn supported_checks_are_subset_tests() {
    let x = XState::new(full_support(), regs(0x7, 0, 0, 0));
    assert!(x.is_xcr0_supported(0x7));
    assert!(x.is_xcr0_supported(0x6_02e7));
    assert!(!x.is_xcr0_supported(0x8));
    assert!(!x.is_xcr0_supported(0x6_02ef));
    assert!(x.is_xss_supported(0x1900));
    assert!(x.is_xss_supported(0x1_0000_0000));
    assert!(!x.is_xss_supported(0x2000));
    assert!(x.is_xfd_supported(XFEATURE_XTILE));
    assert!(x.is_xfd_supported(0x4_0000));
    assert!(!x.is_xfd_supported(0x4));
    assert!(x.is_xfd_supported(0));
}

#[test]
fn guest_registers_read_back_what_was_written() {
    let mut x = XState::new(full_support(), regs(0x7, 0x100, 0x2_0000, 0x4_0000));
    assert_eq!(x.guest_xcr0(), 0x7);
    assert_eq!(x.guest_xss(), 0x100);
    assert_eq!(x.guest_xfd(), 0x2_0000);
    assert_eq!(x.guest_xfd_err(), 0x4_0000);
    x.set_guest_xcr0(0x3);
    x.set_guest_xss(0x800);
    x.set_guest_xfd(0x4_0000);
    x.set_guest_xfd_err(0x2_0000);
    assert_eq!(x.guest_xcr0(), 0x3);
    assert_eq!(x.guest_xss(), 0x800);
    assert_eq!(x.guest_xfd(), 0x4_0000);
    assert_eq!(x.guest_xfd_err(), 0x2_0000);
}

#[test]
fn new_zeroes_registers_the_processor_lacks() {
    let s = XFeatureSupport::from_cpuid(true, false, Some(sub0(0x7, 0x240, 0x340, 0)), sub1(0, 0, 0, 0));
    let x = XState::new(s, regs(0x7, 0x100, 0x2_0000, 0x4_0000));
    assert_eq!(x.guest_xcr0(), 0x7);
    assert_eq!(x.guest_xss(), 0);
    assert_eq!(x.guest_xfd(), 0);
    assert_eq!(x.guest_xfd_err(), 0);
    assert_eq!(x.host_save(), Some(XSaveOp { mask: 0x7, use_xsaves: false }));
}

#[test]
fn host_save_includes_xss_with_xsaves() {
    let x = XState::new(full_support(), regs(0x7, 0x100, 0, 0));
    assert_eq!(x.host_save(), Some(XSaveOp { mask: 0x107, use_xsaves: true }));
}

#[test]
fn switch_to_guest_records_host_and_loads_guest() {
    let mut x = XState::new(full_support(), regs(0x7, 0x100, 0, 0));
    x.set_guest_xcr0(0x6_0003);
    x.set_guest_xss(0x800);
    x.set_guest_xfd(0x4_0000);
    x.set_guest_xfd_err(0x1);
    let sel = x.switch_reads();
    assert!(sel.xcr0 && sel.xss && sel.xfd);
    let plan = x.switch_to_guest(regs(0xe7, 0x1100, 0x2_0000, 0x4_0000)).unwrap();
    assert_eq!(plan.save, XSaveOp { mask: 0x11e7, use_xsaves: true });
    assert_eq!(plan.xss, Some(0x800));
    assert_eq!(plan.xcr0, 0x6_0003);
    assert_eq!(plan.restore, XSaveOp { mask: 0x6_0803, use_xsaves: true });
    assert_eq!(plan.xfd, Some(XfdValues { xfd: 0x4_0000, xfd_err: 0x1 }));
    // The guest's registers are untouched by the switch.
    assert_eq!(x.guest_xcr0(), 0x6_0003);
    assert_eq!(x.guest_xss(), 0x800);
}

#[test]
fn switch_round_trip_restores_host_registers() {
    let mut x = XState::new(full_support(), regs(0x7, 0x100, 0, 0));
    x.set_guest_xcr0(0x6_0003);
    x.set_guest_xss(0x800);
    x.set_guest_xfd(0x4_0000);
    x.set_guest_xfd_err(0x1);
    let host = regs(0xe7, 0x1100, 0x2_0000, 0x4_0000);
    let p1 = x.switch_to_guest(host).unwrap();
    // The processor now holds what the plan loaded.
    let in_guest = regs(p1.xcr0, p1.xss.unwrap(), p1.xfd.unwrap().xfd, p1.xfd.unwrap().xfd_err);
    let p2 = x.switch_to_host(in_guest).unwrap();
    assert_eq!(p2.save, p1.restore);
    assert_eq!(p2.restore, p1.save);
    assert_eq!(p2.xcr0, 0xe7);
    assert_eq!(p2.xss, Some(0x1100));
    assert_eq!(p2.xfd, Some(XfdValues { xfd: 0x2_0000, xfd_err: 0x4_0000 }));
    assert_eq!(x.guest_xcr0(), 0x6_0003);
    assert_eq!(x.guest_xss(), 0x800);
    assert_eq!(x.guest_xfd(), 0x4_0000);
    assert_eq!(x.guest_xfd_err(), 0x1);
}

#[test]
fn switch_to_host_records_guest_changes() {
    let mut x = XState::new(full_support(), regs(0x7, 0x100, 0, 0));
    let _ = x.switch_to_guest(regs(0x7, 0x100, 0, 0));
    // The guest changed XCR0 and XFD while it ran.
    let p = x.switch_to_host(regs(0x3, 0x100, 0x4_0000, 0x4_0000)).unwrap();
    assert_eq!(x.guest_xcr0(), 0x3);
    assert_eq!(x.guest_xfd(), 0x4_0000);
    assert_eq!(x.guest_xfd_err(), 0x4_0000);
    assert_eq!(p.save, XSaveOp { mask: 0x103, use_xsaves: true });
    assert_eq!(p.xcr0, 0x7);
}

#[test]
fn switch_without_xsaves_or_xfd_leaves_those_alone() {
    let s = XFeatureSupport::from_cpuid(true, false, Some(sub0(0x7, 0x240, 0x340, 0)), sub1(0, 0, 0, 0));
    let mut x = XState::new(s, regs(0x7, 0, 0, 0));
    x.set_guest_xss(0x800);
    let sel = x.switch_reads();
    assert!(sel.xcr0 && !sel.xss && !sel.xfd);
    let p = x.switch_to_guest(regs(0x3, 0x999, 0x999, 0x999)).unwrap();
    assert_eq!(p.save, XSaveOp { mask: 0x3, use_xsaves: false });
    assert_eq!(p.xss, None);
    assert_eq!(p.xfd, None);
    assert_eq!(p.restore, XSaveOp { mask: 0x7, use_xsaves: false });
    let back = x.switch_to_host(regs(0x7, 0, 0, 0)).unwrap();
    assert_eq!(back.xcr0, 0x3);
    assert_eq!(x.guest_xss(), 0x800);
}

#[test]
fn switch_without_xsave_does_nothing() {
    let s = XFeatureSupport::from_cpuid(false, false, None, sub1(0x10, 0, 0, 0));
    let mut x = XState::new(s, regs(0x7, 0x100, 0x2_0000, 0x4_0000));
    assert_eq!(x.host_save(), None);
    let sel = x.switch_reads();
    assert!(!sel.xcr0 && !sel.xss && !sel.xfd);
    assert_eq!(x.switch_to_guest(regs(1, 2, 3, 4)), None);
    assert_eq!(x.switch_to_host(regs(5, 6, 7, 8)), None);
    assert_eq!(x.guest_xcr0(), 0);
    assert_eq!(x.guest_xfd(), 0x2_0000);
}

#[test]
fn probe_host_gives_consistent_support() {
    let s = XState::probe_host();
    if !s.xsave_available {
        assert!(!s.xsaves_available);
        assert_eq!(s.supported_xcr0, 0);
        assert_eq!(s.xsave_area_size, 0);
    } else {
        assert!(s.xsave_area_size >= 512);
    }
    assert_eq!(s.xsave_available, XState::xsave_available());
    assert_eq!(s.xfd_available, XState::xfd_available());
    assert_eq!(s.supported_xfd & !XFEATURE_XTILE, 0);
}

#[test]
fn enable_xsave_sets_osxsave() {
    match XState::enable_xsave(0x20) {
        Some(v) => assert_eq!(v, 0x4_0020),
        None => assert!(!XState::xsave_available()),
    }
}

#[test]
fn reported_feature_is_false_without_the_leaf() {
    assert!(XState::reported_feature(Some(true)));
    assert!(!XState::reported_feature(Some(false)));
    assert!(!XState::reported_feature(None));
}

#[test]
fn osxsave_cr4_sets_bit_18_only_with_xsave() {
    assert_eq!(XState::osxsave_cr4(true, 0x20), Some(0x4_0020));
    assert_eq!(XState::osxsave_cr4(true, 0x4_0020), Some(0x4_0020));
    assert_eq!(XState::osxsave_cr4(false, 0x20), None);
}

#[test]
fn support_stays_consistent_across_calls() {
    let mut x = XState::new(full_support(), regs(0x7, 0x100, 0, 0));
    x.set_guest_xcr0(0x3);
    let _ = x.switch_to_guest(regs(0x7, 0x100, 0, 0));
    let _ = x.switch_to_host(regs(0x3, 0x100, 0x2_0000, 0));
    let s = x.support();
    assert_eq!(s, full_support());
    assert!(s.xsaves_available && s.xsave_available);
    assert_eq!(s.supported_xfd, s.supported_xcr0 & XFEATURE_XTILE);
    assert!(s.xsave_area_size >= 512);
}
