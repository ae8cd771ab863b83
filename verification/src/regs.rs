//! General-purpose register file and the control-register bits used to set up a vCPU.
use vstd::prelude::*;

verus! {

/// The general-purpose registers of a vCPU, in the order in which they are pushed on entry.
#[derive(Clone, Copy, Debug, Default, PartialEq, Eq, Structural)]
pub struct GeneralRegisters {
    pub rax: u64,
    pub rcx: u64,
    pub rdx: u64,
    pub rbx: u64,
    /// Placeholder for RSP, which lives in the guest-state area rather than here.
    pub unused_rsp: u64,
    pub rbp: u64,
    pub rsi: u64,
    pub rdi: u64,
    pub r8: u64,
    pub r9: u64,
    pub r10: u64,
    pub r11: u64,
    pub r12: u64,
    pub r13: u64,
    pub r14: u64,
    pub r15: u64,
}

/// CR0.PE: protected mode.
pub const CR0_PE: u64 = 0x1;
/// CR0.MP: monitor coprocessor.
pub const CR0_MP: u64 = 0x2;
/// CR0.ET: extension type.
pub const CR0_ET: u64 = 0x10;
/// CR0.NE: native x87 error reporting.
pub const CR0_NE: u64 = 0x20;
/// CR0.WP: write protect in supervisor mode.
pub const CR0_WP: u64 = 0x1_0000;
/// CR0.AM: alignment mask.
pub const CR0_AM: u64 = 0x4_0000;
/// CR0.PG: paging.
pub const CR0_PG: u64 = 0x8000_0000;

/// CR4.PAE: physical address extension.
pub const CR4_PAE: u64 = 0x20;
/// CR4.PGE: global pages.
pub const CR4_PGE: u64 = 0x80;
/// CR4.OSFXSR: FXSAVE/FXRSTOR and SSE enabled by the OS.
pub const CR4_OSFXSR: u64 = 0x200;
/// CR4.OSXMMEXCPT: unmasked SIMD floating-point exceptions supported by the OS.
pub const CR4_OSXMMEXCPT: u64 = 0x400;
/// CR4.FSGSBASE: RDFSBASE and friends enabled.
pub const CR4_FSGSBASE: u64 = 0x1_0000;
/// CR4.OSXSAVE: XSAVE and XGETBV enabled by the OS.
pub const CR4_OSXSAVE: u64 = 0x4_0000;

/// EFER.SCE: SYSCALL/SYSRET enabled.
pub const EFER_SCE: u64 = 0x1;
/// EFER.LME: long mode enabled.
pub const EFER_LME: u64 = 0x100;
/// EFER.LMA: long mode active.
pub const EFER_LMA: u64 = 0x400;
/// EFER.NXE: execute-disable bit enabled.
pub const EFER_NXE: u64 = 0x800;

} // verus!
