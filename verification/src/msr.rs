//! Model-specific registers used when setting up and switching a vCPU.
use vstd::prelude::*;

verus! {

/// A model-specific register, identified by its architectural index.
#[allow(non_camel_case_types)]
#[derive(Clone, Copy, Debug, PartialEq, Eq, Structural)]
pub enum Msr {
    IA32_TSC,
    IA32_SYSENTER_CS,
    IA32_SYSENTER_ESP,
    IA32_SYSENTER_EIP,
    IA32_MISC_ENABLE,
    IA32_XFD,
    IA32_XFD_ERR,
    IA32_PAT,
    MTRR_DEF_TYPE,
    IA32_XSS,
    IA32_EFER,
    IA32_FS_BASE,
    IA32_GS_BASE,
    KERNEL_GSBASE,
    STAR,
    LSTAR,
    CSTAR,
    SYSCALL_MASK,
}

/// The architectural index (the value loaded into ECX for RDMSR/WRMSR) of `msr`.
pub open spec fn msr_index(msr: Msr) -> u32 {
    match msr {
        Msr::IA32_TSC => 0x10,
        Msr::IA32_SYSENTER_CS => 0x174,
        Msr::IA32_SYSENTER_ESP => 0x175,
        Msr::IA32_SYSENTER_EIP => 0x176,
        Msr::IA32_MISC_ENABLE => 0x1a0,
        Msr::IA32_XFD => 0x1c4,
        Msr::IA32_XFD_ERR => 0x1c5,
        Msr::IA32_PAT => 0x277,
        Msr::MTRR_DEF_TYPE => 0x2ff,
        Msr::IA32_XSS => 0xda0,
        Msr::IA32_EFER => 0xc000_0080,
        Msr::IA32_FS_BASE => 0xc000_0100,
        Msr::IA32_GS_BASE => 0xc000_0101,
        Msr::KERNEL_GSBASE => 0xc000_0102,
        Msr::STAR => 0xc000_0081,
        Msr::LSTAR => 0xc000_0082,
        Msr::CSTAR => 0xc000_0083,
        Msr::SYSCALL_MASK => 0xc000_0084,
    }
}

impl Msr {
    /// The architectural index of this MSR.
    pub fn index(self) -> (r: u32)
        ensures
            r == msr_index(self),
    {
        match self {
            Msr::IA32_TSC => 0x10,
            Msr::IA32_SYSENTER_CS => 0x174,
            Msr::IA32_SYSENTER_ESP => 0x175,
            Msr::IA32_SYSENTER_EIP => 0x176,
            Msr::IA32_MISC_ENABLE => 0x1a0,
            Msr::IA32_XFD => 0x1c4,
            Msr::IA32_XFD_ERR => 0x1c5,
            Msr::IA32_PAT => 0x277,
            Msr::MTRR_DEF_TYPE => 0x2ff,
            Msr::IA32_XSS => 0xda0,
            Msr::IA32_EFER => 0xc000_0080,
            Msr::IA32_FS_BASE => 0xc000_0100,
            Msr::IA32_GS_BASE => 0xc000_0101,
            Msr::KERNEL_GSBASE => 0xc000_0102,
            Msr::STAR => 0xc000_0081,
            Msr::LSTAR => 0xc000_0082,
            Msr::CSTAR => 0xc000_0083,
            Msr::SYSCALL_MASK => 0xc000_0084,
        }
    }
}

/// The architectural index of every MSR (Intel SDM vol. 4): the SYSCALL MSRs STAR, LSTAR,
/// CSTAR and SFMASK are consecutive from 0xC000_0081, EFER precedes them at 0xC000_0080, and
/// FS_BASE, GS_BASE and KERNEL_GS_BASE are consecutive from 0xC000_0100.
pub proof fn lemma_msr_architectural_indices()
    ensures
        msr_index(Msr::IA32_TSC) == 0x10,
        msr_index(Msr::IA32_SYSENTER_CS) == 0x174,
        msr_index(Msr::IA32_SYSENTER_ESP) == msr_index(Msr::IA32_SYSENTER_CS) + 1,
        msr_index(Msr::IA32_SYSENTER_EIP) == msr_index(Msr::IA32_SYSENTER_CS) + 2,
        msr_index(Msr::IA32_MISC_ENABLE) == 0x1a0,
        msr_index(Msr::IA32_XFD) == 0x1c4,
        msr_index(Msr::IA32_XFD_ERR) == 0x1c5,
        msr_index(Msr::IA32_PAT) == 0x277,
        msr_index(Msr::MTRR_DEF_TYPE) == 0x2ff,
        msr_index(Msr::IA32_XSS) == 0xda0,
        msr_index(Msr::IA32_EFER) == 0xc000_0080,
        msr_index(Msr::STAR) == msr_index(Msr::IA32_EFER) + 1,
        msr_index(Msr::LSTAR) == msr_index(Msr::IA32_EFER) + 2,
        msr_index(Msr::CSTAR) == msr_index(Msr::IA32_EFER) + 3,
        msr_index(Msr::SYSCALL_MASK) == msr_index(Msr::IA32_EFER) + 4,
        msr_index(Msr::IA32_FS_BASE) == 0xc000_0100,
        msr_index(Msr::IA32_GS_BASE) == msr_index(Msr::IA32_FS_BASE) + 1,
        msr_index(Msr::KERNEL_GSBASE) == msr_index(Msr::IA32_FS_BASE) + 2,
{
}

/// Distinct MSRs have distinct architectural indices.
pub proof fn lemma_msr_index_injective(a: Msr, b: Msr)
    ensures
        msr_index(a) == msr_index(b) ==> a == b,
{
}

/// A value to be loaded into an MSR when a vCPU is set up.
#[derive(Clone, Copy, Debug, PartialEq, Eq, Structural)]
pub struct MsrEntry {
    pub index: Msr,
    pub data: u64,
}

} // verus!
