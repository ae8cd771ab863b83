use x86_vcpu_state::boot::{create_boot_msr_entries, BOOT_MTRR_DEF_TYPE};
use x86_vcpu_state::msr::{Msr, MsrEntry};

#[test]
fn boot_msr_table_contents() {
    let entries = create_boot_msr_entries();
    assert_eq!(entries.len(), 11);
    let order = [
        Msr::IA32_SYSENTER_CS,
        Msr::IA32_SYSENTER_ESP,
        Msr::IA32_SYSENTER_EIP,
        Msr::STAR,
        Msr::CSTAR,
        Msr::KERNEL_GSBASE,
        Msr::SYSCALL_MASK,
        Msr::LSTAR,
        Msr::IA32_TSC,
    ];
    for (e, m) in entries.iter().zip(order.iter()) {
        assert_eq!(*e, MsrEntry { index: *m, data: 0 });
    }
    assert_eq!(entries[9], MsrEntry { index: Msr::IA32_MISC_ENABLE, data: 1 });
    assert_eq!(entries[10], MsrEntry { index: Msr::MTRR_DEF_TYPE, data: 0x806 });
}

#[test]
fn boot_mtrr_default_type_is_write_back_enabled() {
    assert_eq!(BOOT_MTRR_DEF_TYPE & 0xff, 6);
    assert_ne!(BOOT_MTRR_DEF_TYPE & (1 << 11), 0);
}

#[test]
fn boot_msr_table_has_distinct_msrs() {
    let entries = create_boot_msr_entries();
    for i in 0..entries.len() {
        for j in (i + 1)..entries.len() {
            assert_ne!(entries[i].index.index(), entries[j].index.index());
        }
    }
}

#[test]
fn msr_indices_are_architectural() {
    assert_eq!(Msr::IA32_TSC.index(), 0x10);
    assert_eq!(Msr::IA32_SYSENTER_CS.index(), 0x174);
    assert_eq!(Msr::IA32_PAT.index(), 0x277);
    assert_eq!(Msr::MTRR_DEF_TYPE.index(), 0x2ff);
    assert_eq!(Msr::IA32_XSS.index(), 0xda0);
    assert_eq!(Msr::IA32_XFD.index(), 0x1c4);
    assert_eq!(Msr::IA32_EFER.index(), 0xc000_0080);
    assert_eq!(Msr::STAR.index(), 0xc000_0081);
    assert_eq!(Msr::SYSCALL_MASK.index(), 0xc000_0084);
    assert_eq!(Msr::KERNEL_GSBASE.index(), 0xc000_0102);
}
