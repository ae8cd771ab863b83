//! Constants of the standard Linux 64-bit boot protocol and the MSR values a booting vCPU
//! starts with.
use vstd::prelude::*;

use crate::msr::{Msr, MsrEntry, msr_index};

verus! {

/// RFLAGS at boot: only the always-one bit 1.
pub const BOOT_RFLAGS: u64 = 0x0000_0000_0000_0002u64;
/// Initial stack for the boot CPU.
pub const BOOT_STACK_POINTER: u64 = 0x8ff0;
/// The 'zero page', a.k.a linux kernel bootparams.
pub const ZERO_PAGE_START: u64 = 0x7000;
/// Guest-physical address of the boot GDT.
pub const BOOT_GDT_OFFSET: u64 = 0x500;
/// Guest-physical address of the boot IDT.
pub const BOOT_IDT_OFFSET: u64 = 0x520;
/// Number of entries of the boot GDT (null, code, data, TSS).
pub const BOOT_GDT_MAX: usize = 4;
/// Initial page tables.
pub const PML4_START: u64 = 0x9000;
/// IA32_MISC_ENABLE bit 0: fast-string operations enabled.
pub const MSR_IA32_MISC_ENABLE_FAST_STRING: u32 = 0x1;
/// IA32_MTRR_DEF_TYPE at boot: MTRRs enabled (bit 11), default memory type write-back (6).
pub const BOOT_MTRR_DEF_TYPE: u64 = 0x806;

/// The MSR values a vCPU booting Linux on x86_64 starts with: the SYSENTER, SYSCALL and
/// KERNEL_GS_BASE MSRs and the TSC zeroed, fast strings enabled, and write-back as the
/// default memory type with MTRRs enabled.
pub open spec fn boot_msr_entries() -> Seq<MsrEntry> {
    seq![
        MsrEntry { index: Msr::IA32_SYSENTER_CS, data: 0 },
        MsrEntry { index: Msr::IA32_SYSENTER_ESP, data: 0 },
        MsrEntry { index: Msr::IA32_SYSENTER_EIP, data: 0 },
        MsrEntry { index: Msr::STAR, data: 0 },
        MsrEntry { index: Msr::CSTAR, data: 0 },
        MsrEntry { index: Msr::KERNEL_GSBASE, data: 0 },
        MsrEntry { index: Msr::SYSCALL_MASK, data: 0 },
        MsrEntry { index: Msr::LSTAR, data: 0 },
        MsrEntry { index: Msr::IA32_TSC, data: 0 },
        MsrEntry { index: Msr::IA32_MISC_ENABLE, data: MSR_IA32_MISC_ENABLE_FAST_STRING as u64 },
        MsrEntry { index: Msr::MTRR_DEF_TYPE, data: BOOT_MTRR_DEF_TYPE },
    ]
}

/// An entry that sets `msr` to zero.
fn zeroed_entry(msr: Msr) -> (r: MsrEntry)
    ensures
        r == (MsrEntry { index: msr, data: 0 }),
{
    MsrEntry { index: msr, data: 0x0 }
}

/// Creates and populates required MSR entries for booting Linux on X86_64.
pub fn create_boot_msr_entries() -> (r: Vec<MsrEntry>)
    ensures
        r@ == boot_msr_entries(),
{
    let mut entries: Vec<MsrEntry> = Vec::new();
    entries.push(zeroed_entry(Msr::IA32_SYSENTER_CS));
    entries.push(zeroed_entry(Msr::IA32_SYSENTER_ESP));
    entries.push(zeroed_entry(Msr::IA32_SYSENTER_EIP));
    // x86_64 specific msrs, we only run on x86_64 not x86.
    entries.push(zeroed_entry(Msr::STAR));
    entries.push(zeroed_entry(Msr::CSTAR));
    entries.push(zeroed_entry(Msr::KERNEL_GSBASE));
    entries.push(zeroed_entry(Msr::SYSCALL_MASK));
    entries.push(zeroed_entry(Msr::LSTAR));
    // end of x86_64 specific code
    entries.push(zeroed_entry(Msr::IA32_TSC));
    entries.push(
        MsrEntry {
            index: Msr::IA32_MISC_ENABLE,
            data: u64::from(MSR_IA32_MISC_ENABLE_FAST_STRING),
        },
    );
    // set default memory type for physical memory outside configured
    // memory ranges to write-back by setting MTRR enable bit (11) and
    // setting memory type to write-back (value 6).
    let mtrr_def_type = (1u64 << 11) | 0x6;
    assert(((1u64 << 11u64) | 0x6) == 0x806) by (bit_vector);
    entries.push(MsrEntry { index: Msr::MTRR_DEF_TYPE, data: mtrr_def_type });
    assert(entries@ =~= boot_msr_entries());
    entries
}

/// The boot MSR table names each MSR at most once, zeroes every MSR but two, enables fast
/// strings in IA32_MISC_ENABLE, and in IA32_MTRR_DEF_TYPE sets the enable bit (11) and the
/// write-back default type (6) in the type field (bits 0-7).
pub proof fn lemma_boot_msr_entries()
    ensures
        boot_msr_entries().len() == 11,
        forall|i: int, j: int|
            0 <= i < j < 11 ==> msr_index(#[trigger] boot_msr_entries()[i].index) != msr_index(
                #[trigger] boot_msr_entries()[j].index,
            ),
        forall|i: int|
            0 <= i < 11 && #[trigger] boot_msr_entries()[i].index != Msr::IA32_MISC_ENABLE
                && boot_msr_entries()[i].index != Msr::MTRR_DEF_TYPE ==> boot_msr_entries()[i].data
                == 0,
        boot_msr_entries()[9].index == Msr::IA32_MISC_ENABLE,
        boot_msr_entries()[9].data & 1 == 1,
        boot_msr_entries()[10].index == Msr::MTRR_DEF_TYPE,
        (boot_msr_entries()[10].data >> 11) & 1 == 1,
        boot_msr_entries()[10].data & 0xff == 6,
{
    let s = boot_msr_entries();
    assert(0x1u64 & 1 == 1) by (bit_vector);
    assert((0x806u64 >> 11u64) & 1 == 1) by (bit_vector);
    assert(0x806u64 & 0xff == 6) by (bit_vector);
    assert forall|i: int, j: int|
        0 <= i < j < 11 implies msr_index(#[trigger] s[i].index) != msr_index(
        #[trigger] s[j].index,
    ) by {
        assert(s[0].index == Msr::IA32_SYSENTER_CS);
        assert(s[1].index == Msr::IA32_SYSENTER_ESP);
        assert(s[2].index == Msr::IA32_SYSENTER_EIP);
        assert(s[3].index == Msr::STAR);
        assert(s[4].index == Msr::CSTAR);
        assert(s[5].index == Msr::KERNEL_GSBASE);
        assert(s[6].index == Msr::SYSCALL_MASK);
        assert(s[7].index == Msr::LSTAR);
        assert(s[8].index == Msr::IA32_TSC);
        assert(s[9].index == Msr::IA32_MISC_ENABLE);
        assert(s[10].index == Msr::MTRR_DEF_TYPE);
    }
}

} // verus!
