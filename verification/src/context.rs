//! The register context a vCPU is set up from: the host Linux context a hypervisor takes over,
//! a minimal 64-bit context for a shim kernel, and the Linux 64-bit boot protocol context.
use vstd::prelude::*;

use crate::boot::{
    BOOT_GDT_MAX, BOOT_GDT_OFFSET, BOOT_IDT_OFFSET, BOOT_RFLAGS, BOOT_STACK_POINTER, PML4_START,
    ZERO_PAGE_START, boot_msr_entries, create_boot_msr_entries,
};
use crate::msr::{Msr, MsrEntry};
use crate::regs::{
    CR0_AM, CR0_ET, CR0_MP, CR0_NE, CR0_PE, CR0_PG, CR0_WP, CR4_FSGSBASE, CR4_OSFXSR,
    CR4_OSXMMEXCPT, CR4_OSXSAVE, CR4_PAE, CR4_PGE, EFER_LMA, EFER_LME, EFER_NXE, EFER_SCE,
    GeneralRegisters,
};
use crate::segmentation::{
    AR_ACCESSED, AR_CODE_DATA, AR_DB, AR_EXECUTABLE, AR_GRANULARITY, AR_LONG_MODE, AR_PRESENT,
    AR_TSS_AVAIL, AR_WRITABLE, Segment, descriptor_base, descriptor_limit_field,
    descriptor_granular, descriptor_is_system, descriptor_present, descriptor_rights,
    descriptor_type, ring0_selector, selected_segment, table_covers, descriptor_byte_limit,
    segment_from_entries, selector_index,
};

verus! {

/// The address bits of CR3 (12-51): the physical address of the top-level page table.
pub const CR3_ADDRESS_MASK: u64 = 0x000f_ffff_ffff_f000;

/// Number of 64-bit words the host Linux pushes before handing over its context.
pub const SAVED_LINUX_REGS: usize = 8;
/// x87 control word after FINIT.
pub const DEFAULT_FCW: u16 = 0x37f;
/// MXCSR after reset: all SIMD exceptions masked.
pub const DEFAULT_MXCSR: u32 = 0x1f80;

/// The descriptor that [`gdt_entry`] builds: base 31:24 to bits 56-63, flags (type, S, DPL,
/// P, AVL, L, D/B, G) to bits 40-47 and 52-55, limit 19:16 to bits 48-51, base 23:0 to bits
/// 16-39, limit 15:0 to bits 0-15.
pub open spec fn gdt_entry_spec(flags: u16, base: u32, limit: u32) -> u64 {
    (((base as u64) & 0xff00_0000u64) << 32u64) | (((flags as u64) & 0x0000_f0ffu64) << 40u64)
        | (((limit as u64) & 0x000f_0000u64) << 32u64) | (((base as u64) & 0x00ff_ffffu64)
        << 16u64) | ((limit as u64) & 0x0000_ffffu64)
}

/// Builds a GDT (or LDT) entry for a code or data segment from its flags, base and limit,
/// placing each in its descriptor fields (see [`gdt_entry_spec`]).
pub fn gdt_entry(flags: u16, base: u32, limit: u32) -> (r: u64)
    ensures
        r == gdt_entry_spec(flags, base, limit),
{
    ((u64::from(base) & 0xff00_0000u64) << (56 - 24)) | ((u64::from(flags) & 0x0000_f0ffu64)
        << 40) | ((u64::from(limit) & 0x000f_0000u64) << (48 - 16)) | ((u64::from(base)
        & 0x00ff_ffffu64) << 16) | (u64::from(limit) & 0x0000_ffffu64)
}

/// A descriptor built by `gdt_entry` gives back the base, the 20-bit limit and the flags
/// (bits 0-7 and 12-15) it was built from; its P, G and S bits are flag bits 7, 15 and 4.
pub proof fn lemma_gdt_entry_fields(flags: u16, base: u32, limit: u32)
    ensures
        descriptor_base(gdt_entry_spec(flags, base, limit)) == base,
        descriptor_limit_field(gdt_entry_spec(flags, base, limit)) == limit & 0xf_ffff,
        descriptor_rights(gdt_entry_spec(flags, base, limit)) == flags & 0xf0ff,
        descriptor_present(gdt_entry_spec(flags, base, limit)) == (flags & 0x80 != 0),
        descriptor_granular(gdt_entry_spec(flags, base, limit)) == (flags & 0x8000 != 0),
        descriptor_is_system(gdt_entry_spec(flags, base, limit)) == (flags & 0x10 == 0),
{
    assert({
        &&& descriptor_base(gdt_entry_spec(flags, base, limit)) == base as u64
        &&& descriptor_limit_field(gdt_entry_spec(flags, base, limit)) == (limit & 0xf_ffff) as u64
        &&& descriptor_rights(gdt_entry_spec(flags, base, limit)) == (flags & 0xf0ff) as u64
        &&& descriptor_present(gdt_entry_spec(flags, base, limit)) == (flags & 0x80 != 0)
        &&& descriptor_granular(gdt_entry_spec(flags, base, limit)) == (flags & 0x8000 != 0)
        &&& descriptor_is_system(gdt_entry_spec(flags, base, limit)) == (flags & 0x10 == 0)
    }) by (bit_vector);
}

/// Decoding what `gdt_entry` encodes gives the segment it describes: its base; its limit,
/// scaled to whole pages when the G flag (bit 15) is set; its flags as access rights, marked
/// unusable when the P flag (bit 7) is clear.
pub proof fn lemma_gdt_entry_segment(selector: u16, flags: u16, base: u32, limit: u32)
    ensures
        segment_from_entries(selector, gdt_entry_spec(flags, base, limit), 0) == (Segment {
            selector,
            base: base as u64,
            limit: if flags & 0x8000 != 0 {
                ((((limit & 0xf_ffff) as u64) << 12u64) | 0xfff) as u32
            } else {
                (limit & 0xf_ffff) as u32
            },
            access_rights: if flags & 0x80 != 0 {
                (flags & 0xf0ff) as u32
            } else {
                ((flags & 0xf0ff) as u32) | 0x1_0000
            },
        }),
{
    lemma_gdt_entry_fields(flags, base, limit);
    let e = gdt_entry_spec(flags, base, limit);
    assert((descriptor_base(e) | ((0u64 & 0xffff_ffff) << 32u64)) == descriptor_base(e))
        by (bit_vector);
    assert(((((flags & 0xf0ff) as u64) | 0x1_0000) as u32) == ((flags & 0xf0ff) as u32)
        | 0x1_0000) by (bit_vector);
}

/// The boot GDT describes flat segments covering the whole 4 GiB range: a present 64-bit code
/// segment at selector 8, a present writable data segment at selector 16 and a present busy
/// 64-bit TSS at selector 24, all with base 0.
pub proof fn lemma_linux64_boot_segments()
    ensures
        segment_from_entries(8, boot_code_entry(), 0) == (Segment {
            selector: 8,
            base: 0,
            limit: 0xffff_ffff,
            access_rights: 0xa09b,
        }),
        segment_from_entries(16, boot_data_entry(), 0) == (Segment {
            selector: 16,
            base: 0,
            limit: 0xffff_ffff,
            access_rights: 0xc093,
        }),
        segment_from_entries(24, boot_tss_entry(), 0) == (Segment {
            selector: 24,
            base: 0,
            limit: 0xffff_ffff,
            access_rights: 0x808b,
        }),
{
    assert(gdt_entry_spec(0xa09b, 0, 0xfffff) == 0x00af_9b00_0000_ffffu64 && gdt_entry_spec(
        0xc093,
        0,
        0xfffff,
    ) == 0x00cf_9300_0000_ffffu64 && gdt_entry_spec(0x808b, 0, 0xfffff)
        == 0x008f_8b00_0000_ffffu64) by (bit_vector);
    assert({
        &&& descriptor_base(0x00af_9b00_0000_ffffu64) == 0
        &&& descriptor_present(0x00af_9b00_0000_ffffu64)
        &&& !descriptor_is_system(0x00af_9b00_0000_ffffu64)
        &&& descriptor_byte_limit(0x00af_9b00_0000_ffffu64) == 0xffff_ffff
        &&& descriptor_rights(0x00af_9b00_0000_ffffu64) == 0xa09b
        &&& descriptor_base(0x00cf_9300_0000_ffffu64) == 0
        &&& descriptor_present(0x00cf_9300_0000_ffffu64)
        &&& !descriptor_is_system(0x00cf_9300_0000_ffffu64)
        &&& descriptor_byte_limit(0x00cf_9300_0000_ffffu64) == 0xffff_ffff
        &&& descriptor_rights(0x00cf_9300_0000_ffffu64) == 0xc093
        &&& descriptor_base(0x008f_8b00_0000_ffffu64) == 0
        &&& descriptor_present(0x008f_8b00_0000_ffffu64)
        &&& descriptor_is_system(0x008f_8b00_0000_ffffu64)
        &&& descriptor_byte_limit(0x008f_8b00_0000_ffffu64) == 0xffff_ffff
        &&& descriptor_rights(0x008f_8b00_0000_ffffu64) == 0x808b
        &&& 0u64 | ((0u64 & 0xffff_ffff) << 32u64) == 0
    }) by (bit_vector);
}

/// The minimal 64-bit context uses the same code and stack segment types as the boot
/// protocol's GDT: its CS rights are those of the boot code descriptor and its SS rights
/// those of the boot data descriptor; its task register is a busy TSS.
pub proof fn lemma_minimal_guest64_matches_boot_gdt()
    ensures
        minimal_cs_rights() as u64 == descriptor_rights(boot_code_entry()),
        minimal_ss_rights() as u64 == descriptor_rights(boot_data_entry()),
        minimal_tss_rights() & 0xf == 0xb,
{
    assert(minimal_cs_rights() as u64 == descriptor_rights(gdt_entry_spec(0xa09b, 0, 0xfffff))
        && minimal_ss_rights() as u64 == descriptor_rights(gdt_entry_spec(0xc093, 0, 0xfffff))
        && minimal_tss_rights() & 0xf == 0xb) by (bit_vector);
}

/// An address that x86_64's `VirtAddr` accepts: bits 48-63 repeat bit 47.
pub open spec fn is_canonical(addr: u64) -> bool {
    addr < 0x0000_8000_0000_0000 || addr >= 0xffff_8000_0000_0000
}

/// x86_64: `VirtAddr::new(addr).as_u64()`. `VirtAddr::new` panics unless bits 48-63 are a
/// sign extension of bit 47 and otherwise keeps the address as it is.
#[verifier::external_body]
fn canonical_virt_addr(addr: u64) -> (r: u64)
    requires
        is_canonical(addr),
    ensures
        r == addr,
{
    x86_64::VirtAddr::new(addr).as_u64()
}

/// x86_64: `PhysFrame::<Size4KiB>::containing_address(PhysAddr::new(addr)).start_address()`:
/// the start of the 4 KiB frame holding `addr`. `PhysAddr::new` panics when a bit in the range
/// 52 to 64 is set.
#[verifier::external_body]
fn frame_start(addr: u64) -> (r: u64)
    requires
        addr < 0x10_0000_0000_0000,
    ensures
        r == addr - addr % 4096,
{
    x86_64::structures::paging::PhysFrame::<
        x86_64::structures::paging::Size4KiB,
    >::containing_address(x86_64::PhysAddr::new(addr)).start_address().as_u64()
}

/// The operand of LGDT/LIDT: limit and linear base address of a descriptor table.
#[derive(Clone, Copy, Debug, PartialEq, Eq, Structural)]
pub struct DescriptorTablePointer {
    pub limit: u16,
    pub base: u64,
}

/// A segment register that is loaded with a selector.
#[derive(Clone, Copy, Debug, PartialEq, Eq, Structural)]
pub enum SegmentRegister {
    Es,
    Cs,
    Ss,
    Ds,
    Fs,
    Gs,
}

/// One step of restoring the host Linux system registers.
#[derive(Clone, Copy, Debug, PartialEq, Eq, Structural)]
pub enum RestoreStep {
    /// Write the MSR.
    WriteMsr(MsrEntry),
    /// Write these EFER flags, keeping the processor's bits outside the known flags.
    WriteEfer(u64),
    /// Write CR0.
    WriteCr0(u64),
    /// Write CR4.
    WriteCr4(u64),
    /// Load CR3 with this page-table frame address and no flags.
    WriteCr3(u64),
    /// Copy the host's TSS descriptor, named by this selector, into the running GDT
    /// (see [`GuestContext::copy_tss_descriptor`]).
    CopyTssDescriptor(u16),
    /// Load the task register with this selector.
    LoadTr(u16),
    /// Load GDTR.
    LoadGdt(DescriptorTablePointer),
    /// Load IDTR.
    LoadIdt(DescriptorTablePointer),
    /// Load the segment register with this selector.
    LoadSegment(SegmentRegister, u16),
}

/// Unified guest context structure that consolidates:
/// - HostContext: Host Linux state loaded from stack
/// - PVGuestContext: Paravirtualized boot with shared GDT/IDT/TSS
///
/// Different constructor methods are provided to initialize for specific use cases.
#[derive(Clone, Debug)]
pub struct GuestContext {
    // ============ General Purpose Registers ============
    pub rsp: u64,
    pub rip: u64,
    pub rbp: u64,
    pub rsi: u64,
    pub rdi: u64,
    pub rflags: u64,
    // Callee-saved registers (for HostContext compatibility)
    pub r15: u64,
    pub r14: u64,
    pub r13: u64,
    pub r12: u64,
    pub rbx: u64,
    // ============ Segment Registers ============
    pub es: Segment,
    pub cs: Segment,
    pub ss: Segment,
    pub ds: Segment,
    pub fs: Segment,
    pub gs: Segment,
    pub tss: Segment,
    // ============ Descriptor Tables ============
    pub gdt: DescriptorTablePointer,
    pub idt: DescriptorTablePointer,
    // ============ Control Registers ============
    pub cr0: u64,
    pub cr3: u64,
    pub cr4: u64,
    // ============ Model Specific Registers ============
    pub efer: u64,
    pub star: u64,
    pub lstar: u64,
    pub cstar: u64,
    pub fmask: u64,
    pub ia32_sysenter_cs: u64,
    pub ia32_sysenter_esp: u64,
    pub ia32_sysenter_eip: u64,
    pub kernel_gsbase: u64,
    pub pat: u64,
    pub mtrr_def_type: u64,
    pub msr_entries: Vec<MsrEntry>,
    // ============ FPU State ============
    pub fcw: u16,
    pub mxcsr: u32,
    // ============ Paravirt-specific (optional) ============
    /// Host-physical address of the EPTP list region.
    pub eptp_list_region_base: Option<usize>,
    /// Guest-physical address of the HLAT root.
    pub hlat_ptr: Option<usize>,
}

/// The SYSENTER, SYSCALL and KERNEL_GS_BASE MSRs of `c` are all zero.
pub open spec fn syscall_msrs_zero(c: GuestContext) -> bool {
    &&& c.star == 0
    &&& c.lstar == 0
    &&& c.cstar == 0
    &&& c.fmask == 0
    &&& c.ia32_sysenter_cs == 0
    &&& c.ia32_sysenter_esp == 0
    &&& c.ia32_sysenter_eip == 0
    &&& c.kernel_gsbase == 0
}

/// `c` has the reset x87 control word and MXCSR and no paravirt regions.
pub open spec fn fpu_reset_no_paravirt(c: GuestContext) -> bool {
    &&& c.fcw == DEFAULT_FCW
    &&& c.mxcsr == DEFAULT_MXCSR
    &&& c.eptp_list_region_base is None
    &&& c.hlat_ptr is None
}

/// The registers RBP, RDI and R12-R15, RBX of `c` are zero.
pub open spec fn callee_saved_zero(c: GuestContext) -> bool {
    &&& c.rbp == 0
    &&& c.rdi == 0
    &&& c.r15 == 0
    &&& c.r14 == 0
    &&& c.r13 == 0
    &&& c.r12 == 0
    &&& c.rbx == 0
}

/// Code segment rights of the minimal 64-bit context: accessed, readable, executable, code,
/// present, 64-bit, page-granular.
pub open spec fn minimal_cs_rights() -> u32 {
    AR_ACCESSED | AR_WRITABLE | AR_EXECUTABLE | AR_CODE_DATA | AR_PRESENT | AR_LONG_MODE
        | AR_GRANULARITY
}

/// Stack segment rights of the minimal 64-bit context: accessed, writable, data, present,
/// 32-bit default size, page-granular.
pub open spec fn minimal_ss_rights() -> u32 {
    AR_ACCESSED | AR_WRITABLE | AR_CODE_DATA | AR_PRESENT | AR_DB | AR_GRANULARITY
}

/// Task register rights of the minimal 64-bit context.
pub open spec fn minimal_tss_rights() -> u32 {
    AR_ACCESSED | AR_WRITABLE | AR_EXECUTABLE | AR_PRESENT
}

/// The boot GDT entry for the 64-bit code segment.
pub open spec fn boot_code_entry() -> u64 {
    gdt_entry_spec(0xa09b, 0, 0xfffff)
}

/// The boot GDT entry for the data segment.
pub open spec fn boot_data_entry() -> u64 {
    gdt_entry_spec(0xc093, 0, 0xfffff)
}

/// The boot GDT entry for the TSS.
pub open spec fn boot_tss_entry() -> u64 {
    gdt_entry_spec(0x808b, 0, 0xfffff)
}

/// The system registers of the host Linux, as read from the processor: the segment
/// selectors, descriptor-table registers, control registers and MSRs.
#[derive(Clone, Copy, Debug, PartialEq, Eq, Structural)]
pub struct HostSystemRegisters {
    pub es: u16,
    pub cs: u16,
    pub ss: u16,
    pub ds: u16,
    pub fs: u16,
    pub gs: u16,
    /// The task register's selector.
    pub tr: u16,
    pub gdt: DescriptorTablePointer,
    pub idt: DescriptorTablePointer,
    pub cr0: u64,
    /// CR3 as the processor holds it, flag bits included.
    pub cr3: u64,
    pub cr4: u64,
    pub efer: u64,
    pub star: u64,
    pub lstar: u64,
    pub cstar: u64,
    pub fmask: u64,
    pub ia32_sysenter_cs: u64,
    pub ia32_sysenter_esp: u64,
    pub ia32_sysenter_eip: u64,
    pub kernel_gsbase: u64,
    pub pat: u64,
    pub mtrr_def_type: u64,
    /// IA32_FS_BASE.
    pub fs_base: u64,
}

/// `gdt_table` is the host GDT that `host.gdt` points to (one entry per 8 bytes of its
/// limit + 1), and it holds the descriptor of every selector in `host`.
pub open spec fn host_gdt_covers(host: HostSystemRegisters, gdt_table: Seq<u64>) -> bool {
    &&& gdt_table.len() == (host.gdt.limit + 1) / 8
    &&& table_covers(host.es, gdt_table)
    &&& table_covers(host.cs, gdt_table)
    &&& table_covers(host.ss, gdt_table)
    &&& table_covers(host.ds, gdt_table)
    &&& table_covers(host.fs, gdt_table)
    &&& table_covers(host.gs, gdt_table)
    &&& table_covers(host.tr, gdt_table)
}

impl Default for GuestContext {
    fn default() -> (r: Self)
        ensures
            r.rsp == 0 && r.rip == 0 && r.rsi == 0 && r.rflags == 0,
            callee_saved_zero(r),
            r.es == Segment::invalid_spec() && r.cs == Segment::invalid_spec() && r.ss
                == Segment::invalid_spec() && r.ds == Segment::invalid_spec() && r.fs
                == Segment::invalid_spec() && r.gs == Segment::invalid_spec() && r.tss
                == Segment::invalid_spec(),
            r.gdt == (DescriptorTablePointer { limit: 0, base: 0 }),
            r.idt == (DescriptorTablePointer { limit: 0, base: 0 }),
            r.cr0 == 0 && r.cr3 == 0 && r.cr4 == 0 && r.efer == 0,
            syscall_msrs_zero(r),
            r.pat == 0 && r.mtrr_def_type == 0,
            r.msr_entries@ == Seq::<MsrEntry>::empty(),
            fpu_reset_no_paravirt(r),
    {
        GuestContext {
            rsp: 0,
            rip: 0,
            rbp: 0,
            rsi: 0,
            rdi: 0,
            rflags: 0,
            r15: 0,
            r14: 0,
            r13: 0,
            r12: 0,
            rbx: 0,
            es: Segment::invalid(),
            cs: Segment::invalid(),
            ss: Segment::invalid(),
            ds: Segment::invalid(),
            fs: Segment::invalid(),
            gs: Segment::invalid(),
            tss: Segment::invalid(),
            gdt: DescriptorTablePointer { limit: 0, base: 0 },
            idt: DescriptorTablePointer { limit: 0, base: 0 },
            cr0: 0,
            cr3: 0,
            cr4: 0,
            efer: 0,
            star: 0,
            lstar: 0,
            cstar: 0,
            fmask: 0,
            ia32_sysenter_cs: 0,
            ia32_sysenter_esp: 0,
            ia32_sysenter_eip: 0,
            kernel_gsbase: 0,
            pat: 0,
            mtrr_def_type: 0,
            msr_entries: Vec::new(),
            fcw: 0x37f,
            mxcsr: 0x1f80,
            eptp_list_region_base: None,
            hlat_ptr: None,
        }
    }
}

/// Host-related constructors (HostContext compatibility)
impl GuestContext {
    /// Load context from host Linux stack pointer: `saved` are the words the host pushed at
    /// `linux_sp` (GS base, R15, R14, R13, R12, RBX, RBP and the return address), `gdt_table`
    /// the host GDT and `host` the system registers read from the processor. Each segment is
    /// decoded from the GDT entry its selector names; FS takes its base from IA32_FS_BASE and
    /// GS from the saved word. The host resumes above the saved words. Nothing is allocated.
    pub fn load_from_stack(
        linux_sp: usize,
        saved: &[u64],
        gdt_table: &[u64],
        host: &HostSystemRegisters,
    ) -> (r: Self)
        requires
            saved.len() == SAVED_LINUX_REGS,
            linux_sp + 8 * SAVED_LINUX_REGS <= usize::MAX,
            host_gdt_covers(*host, gdt_table@),
        ensures
            r.rsp == linux_sp + 8 * SAVED_LINUX_REGS,
            r.r15 == saved@[1] && r.r14 == saved@[2] && r.r13 == saved@[3] && r.r12 == saved@[4],
            r.rbx == saved@[5] && r.rbp == saved@[6] && r.rip == saved@[7],
            r.rsi == 0 && r.rdi == 0 && r.rflags == 0,
            r.es == selected_segment(host.es, gdt_table@),
            r.cs == selected_segment(host.cs, gdt_table@),
            r.ss == selected_segment(host.ss, gdt_table@),
            r.ds == selected_segment(host.ds, gdt_table@),
            r.fs == (Segment { base: host.fs_base, ..selected_segment(host.fs, gdt_table@) }),
            r.gs == (Segment { base: saved@[0], ..selected_segment(host.gs, gdt_table@) }),
            r.tss == selected_segment(host.tr, gdt_table@),
            r.gdt == host.gdt && r.idt == host.idt,
            r.cr0 == host.cr0 && r.cr4 == host.cr4 && r.efer == host.efer,
            r.cr3 == host.cr3 & CR3_ADDRESS_MASK,
            r.star == host.star && r.lstar == host.lstar && r.cstar == host.cstar && r.fmask
                == host.fmask,
            r.ia32_sysenter_cs == host.ia32_sysenter_cs && r.ia32_sysenter_esp
                == host.ia32_sysenter_esp && r.ia32_sysenter_eip == host.ia32_sysenter_eip,
            r.kernel_gsbase == host.kernel_gsbase && r.pat == host.pat && r.mtrr_def_type
                == host.mtrr_def_type,
            r.msr_entries@ == Seq::<MsrEntry>::empty(),
            fpu_reset_no_paravirt(r),
    {
        let raw_cr3 = host.cr3;
        let cr3_address = raw_cr3 & CR3_ADDRESS_MASK;
        assert((raw_cr3 & 0x000f_ffff_ffff_f000u64) < 0x10_0000_0000_0000u64 && (raw_cr3
            & 0x000f_ffff_ffff_f000u64) % 4096 == 0) by (bit_vector);
        let cr3 = frame_start(cr3_address);
        let mut fs = Segment::from_selector(host.fs, gdt_table);
        let mut gs = Segment::from_selector(host.gs, gdt_table);
        fs.base = host.fs_base;
        gs.base = saved[0];
        let stack_end = linux_sp + 8 * SAVED_LINUX_REGS;
        GuestContext {
            rsp: stack_end as u64,
            r15: saved[1],
            r14: saved[2],
            r13: saved[3],
            r12: saved[4],
            rbx: saved[5],
            rbp: saved[6],
            rip: saved[7],
            rsi: 0,
            rdi: 0,
            rflags: 0,
            es: Segment::from_selector(host.es, gdt_table),
            cs: Segment::from_selector(host.cs, gdt_table),
            ss: Segment::from_selector(host.ss, gdt_table),
            ds: Segment::from_selector(host.ds, gdt_table),
            fs,
            gs,
            tss: Segment::from_selector(host.tr, gdt_table),
            gdt: host.gdt,
            idt: host.idt,
            cr0: host.cr0,
            cr3,
            cr4: host.cr4,
            efer: host.efer,
            star: host.star,
            lstar: host.lstar,
            cstar: host.cstar,
            fmask: host.fmask,
            ia32_sysenter_cs: host.ia32_sysenter_cs,
            ia32_sysenter_esp: host.ia32_sysenter_esp,
            ia32_sysenter_eip: host.ia32_sysenter_eip,
            kernel_gsbase: host.kernel_gsbase,
            pat: host.pat,
            mtrr_def_type: host.mtrr_def_type,
            msr_entries: Vec::new(),
            fcw: 0x37f,
            mxcsr: 0x1f80,
            eptp_list_region_base: None,
            hlat_ptr: None,
        }
    }

    /// The steps that restore the host Linux system registers, in order: the SYSENTER MSRs,
    /// EFER, the SYSCALL MSRs, KERNEL_GS_BASE and PAT; CR0, CR4 and CR3 (the page-table frame
    /// with no flags); the copy of the host's TSS descriptor into the running GDT and the load
    /// of the task register while that GDT is still loaded; the host's GDT and IDT; the six
    /// segment selectors; and finally IA32_FS_BASE, which loading FS overwrote.
    pub fn restore_plan(&self) -> (r: Vec<RestoreStep>)
        requires
            self.cr3 < 0x10_0000_0000_0000,
        ensures
            r@ == seq![
            RestoreStep::WriteMsr(MsrEntry { index: Msr::IA32_SYSENTER_CS, data: self.ia32_sysenter_cs }),
            RestoreStep::WriteMsr(MsrEntry { index: Msr::IA32_SYSENTER_ESP, data: self.ia32_sysenter_esp }),
            RestoreStep::WriteMsr(MsrEntry { index: Msr::IA32_SYSENTER_EIP, data: self.ia32_sysenter_eip }),
            RestoreStep::WriteEfer(self.efer),
            RestoreStep::WriteMsr(MsrEntry { index: Msr::STAR, data: self.star }),
            RestoreStep::WriteMsr(MsrEntry { index: Msr::LSTAR, data: self.lstar }),
            RestoreStep::WriteMsr(MsrEntry { index: Msr::CSTAR, data: self.cstar }),
            RestoreStep::WriteMsr(MsrEntry { index: Msr::SYSCALL_MASK, data: self.fmask }),
            RestoreStep::WriteMsr(MsrEntry { index: Msr::KERNEL_GSBASE, data: self.kernel_gsbase }),
            RestoreStep::WriteMsr(MsrEntry { index: Msr::IA32_PAT, data: self.pat }),
            RestoreStep::WriteCr0(self.cr0),
            RestoreStep::WriteCr4(self.cr4),
            RestoreStep::WriteCr3((self.cr3 - self.cr3 % 4096) as u64),
            RestoreStep::CopyTssDescriptor(self.tss.selector),
            RestoreStep::LoadTr(self.tss.selector),
            RestoreStep::LoadGdt(self.gdt),
            RestoreStep::LoadIdt(self.idt),
            RestoreStep::LoadSegment(SegmentRegister::Es, self.es.selector),
            RestoreStep::LoadSegment(SegmentRegister::Cs, self.cs.selector),
            RestoreStep::LoadSegment(SegmentRegister::Ss, self.ss.selector),
            RestoreStep::LoadSegment(SegmentRegister::Ds, self.ds.selector),
            RestoreStep::LoadSegment(SegmentRegister::Fs, self.fs.selector),
            RestoreStep::LoadSegment(SegmentRegister::Gs, self.gs.selector),
            RestoreStep::WriteMsr(MsrEntry { index: Msr::IA32_FS_BASE, data: self.fs.base })
            ],
    {
        let cr3 = self.restore_cr3();
        let mut steps: Vec<RestoreStep> = Vec::new();
        steps.push(RestoreStep::WriteMsr(MsrEntry { index: Msr::IA32_SYSENTER_CS, data: self.ia32_sysenter_cs }));
        steps.push(RestoreStep::WriteMsr(MsrEntry { index: Msr::IA32_SYSENTER_ESP, data: self.ia32_sysenter_esp }));
        steps.push(RestoreStep::WriteMsr(MsrEntry { index: Msr::IA32_SYSENTER_EIP, data: self.ia32_sysenter_eip }));
        steps.push(RestoreStep::WriteEfer(self.efer));
        steps.push(RestoreStep::WriteMsr(MsrEntry { index: Msr::STAR, data: self.star }));
        steps.push(RestoreStep::WriteMsr(MsrEntry { index: Msr::LSTAR, data: self.lstar }));
        steps.push(RestoreStep::WriteMsr(MsrEntry { index: Msr::CSTAR, data: self.cstar }));
        steps.push(RestoreStep::WriteMsr(MsrEntry { index: Msr::SYSCALL_MASK, data: self.fmask }));
        steps.push(RestoreStep::WriteMsr(MsrEntry { index: Msr::KERNEL_GSBASE, data: self.kernel_gsbase }));
        steps.push(RestoreStep::WriteMsr(MsrEntry { index: Msr::IA32_PAT, data: self.pat }));
        steps.push(RestoreStep::WriteCr0(self.cr0));
        steps.push(RestoreStep::WriteCr4(self.cr4));
        steps.push(RestoreStep::WriteCr3(cr3));
        steps.push(RestoreStep::CopyTssDescriptor(self.tss.selector));
        steps.push(RestoreStep::LoadTr(self.tss.selector));
        steps.push(RestoreStep::LoadGdt(self.gdt));
        steps.push(RestoreStep::LoadIdt(self.idt));
        steps.push(RestoreStep::LoadSegment(SegmentRegister::Es, self.es.selector));
        steps.push(RestoreStep::LoadSegment(SegmentRegister::Cs, self.cs.selector));
        steps.push(RestoreStep::LoadSegment(SegmentRegister::Ss, self.ss.selector));
        steps.push(RestoreStep::LoadSegment(SegmentRegister::Ds, self.ds.selector));
        steps.push(RestoreStep::LoadSegment(SegmentRegister::Fs, self.fs.selector));
        steps.push(RestoreStep::LoadSegment(SegmentRegister::Gs, self.gs.selector));
        steps.push(RestoreStep::WriteMsr(MsrEntry { index: Msr::IA32_FS_BASE, data: self.fs.base }));
        assert(steps@ =~= seq![
            RestoreStep::WriteMsr(MsrEntry { index: Msr::IA32_SYSENTER_CS, data: self.ia32_sysenter_cs }),
            RestoreStep::WriteMsr(MsrEntry { index: Msr::IA32_SYSENTER_ESP, data: self.ia32_sysenter_esp }),
            RestoreStep::WriteMsr(MsrEntry { index: Msr::IA32_SYSENTER_EIP, data: self.ia32_sysenter_eip }),
            RestoreStep::WriteEfer(self.efer),
            RestoreStep::WriteMsr(MsrEntry { index: Msr::STAR, data: self.star }),
            RestoreStep::WriteMsr(MsrEntry { index: Msr::LSTAR, data: self.lstar }),
            RestoreStep::WriteMsr(MsrEntry { index: Msr::CSTAR, data: self.cstar }),
            RestoreStep::WriteMsr(MsrEntry { index: Msr::SYSCALL_MASK, data: self.fmask }),
            RestoreStep::WriteMsr(MsrEntry { index: Msr::KERNEL_GSBASE, data: self.kernel_gsbase }),
            RestoreStep::WriteMsr(MsrEntry { index: Msr::IA32_PAT, data: self.pat }),
            RestoreStep::WriteCr0(self.cr0),
            RestoreStep::WriteCr4(self.cr4),
            RestoreStep::WriteCr3((self.cr3 - self.cr3 % 4096) as u64),
            RestoreStep::CopyTssDescriptor(self.tss.selector),
            RestoreStep::LoadTr(self.tss.selector),
            RestoreStep::LoadGdt(self.gdt),
            RestoreStep::LoadIdt(self.idt),
            RestoreStep::LoadSegment(SegmentRegister::Es, self.es.selector),
            RestoreStep::LoadSegment(SegmentRegister::Cs, self.cs.selector),
            RestoreStep::LoadSegment(SegmentRegister::Ss, self.ss.selector),
            RestoreStep::LoadSegment(SegmentRegister::Ds, self.ds.selector),
            RestoreStep::LoadSegment(SegmentRegister::Fs, self.fs.selector),
            RestoreStep::LoadSegment(SegmentRegister::Gs, self.gs.selector),
            RestoreStep::WriteMsr(MsrEntry { index: Msr::IA32_FS_BASE, data: self.fs.base })
        ]);
        steps
    }

    /// The CR3 value that restores the host's page table: the start of the 4 KiB frame that
    /// holds `cr3`, with no flags.
    pub fn restore_cr3(&self) -> (r: u64)
        requires
            self.cr3 < 0x10_0000_0000_0000,
        ensures
            r == self.cr3 - self.cr3 % 4096,
    {
        frame_start(self.cr3)
    }

    /// Copies the host's TSS descriptor (two entries, at the index the TSS selector names)
    /// from the host GDT `linux_gdt` into the hypervisor GDT `hv_gdt`, marked as an available
    /// TSS so that LTR accepts it. All other entries of `hv_gdt` stay as they were.
    pub fn copy_tss_descriptor(&self, hv_gdt: &mut Vec<u64>, linux_gdt: &Vec<u64>)
        requires
            self.tss.selector / 8 + 1 < old(hv_gdt).len(),
            self.tss.selector / 8 + 1 < linux_gdt.len(),
        ensures
            ({
                let i = (self.tss.selector / 8) as int;
                &&& final(hv_gdt)@.len() == old(hv_gdt)@.len()
                &&& descriptor_type(final(hv_gdt)@[i]) == AR_TSS_AVAIL
                &&& final(hv_gdt)@[i] & !0xf00_0000_0000u64 == linux_gdt@[i]
                    & !0xf00_0000_0000u64
                &&& final(hv_gdt)@[i + 1] == linux_gdt@[i + 1]
                &&& forall|j: int|
                    0 <= j < old(hv_gdt)@.len() && j != i && j != i + 1 ==> final(hv_gdt)@[j]
                        == old(hv_gdt)@[j]
            }),
    {
        let tss_idx = selector_index(self.tss.selector) as usize;
        hv_gdt.set(tss_idx, linux_gdt[tss_idx]);
        hv_gdt.set(tss_idx + 1, linux_gdt[tss_idx + 1]);
        let mut desc = hv_gdt[tss_idx];
        Segment::set_descriptor_type(&mut desc, AR_TSS_AVAIL);
        hv_gdt.set(tss_idx, desc);
    }
}

impl GuestContext {
    /// Construct a minimal guest64 context for shim kernel.
    ///
    /// Creates a minimal 64-bit guest context with:
    /// - GDT/IDT base = 0 (minimal configuration)
    /// - Simple segment selectors
    /// - No dependency on guest memory
    ///
    /// It is used to initialize the vCPU context for the shim kernel which enters
    /// under Intel's long mode. `pat` and `mtrr_def_type` are the host's IA32_PAT and
    /// IA32_MTRR_DEF_TYPE, which the guest inherits.
    pub fn construct_minimal_guest64(rip: u64, cr3: u64, pat: u64, mtrr_def_type: u64) -> (r:
        Self)
        ensures
            r.rsp == 0 && r.rip == rip && r.rsi == 0 && r.rflags == BOOT_RFLAGS,
            callee_saved_zero(r),
            r.es == Segment::invalid_spec() && r.ds == Segment::invalid_spec() && r.fs
                == Segment::invalid_spec() && r.gs == Segment::invalid_spec(),
            r.cs == (Segment {
                selector: 0x10,
                base: 0,
                limit: 0xffff,
                access_rights: minimal_cs_rights(),
            }),
            r.ss == (Segment {
                selector: 0,
                base: 0,
                limit: 0xffff,
                access_rights: minimal_ss_rights(),
            }),
            r.tss == (Segment { selector: 0, base: 0, limit: 0, access_rights: minimal_tss_rights() }),
            r.gdt == (DescriptorTablePointer { limit: 0, base: 0 }),
            r.idt == (DescriptorTablePointer { limit: 0, base: 0 }),
            r.cr0 == CR0_PE | CR0_MP | CR0_ET | CR0_NE | CR0_WP | CR0_AM | CR0_PG,
            r.cr3 == cr3,
            r.cr4 == CR4_PAE | CR4_FSGSBASE | CR4_PGE | CR4_OSFXSR | CR4_OSXMMEXCPT | CR4_OSXSAVE,
            r.efer == EFER_LME | EFER_LMA,
            syscall_msrs_zero(r),
            r.pat == pat && r.mtrr_def_type == mtrr_def_type,
            r.msr_entries@ == Seq::<MsrEntry>::empty(),
            fpu_reset_no_paravirt(r),
    {
        GuestContext {
            rsp: 0,
            rip,
            rbp: 0,
            rsi: 0,
            rdi: 0,
            rflags: BOOT_RFLAGS,
            r15: 0,
            r14: 0,
            r13: 0,
            r12: 0,
            rbx: 0,
            es: Segment::invalid(),
            cs: Segment {
                selector: ring0_selector(2),
                base: 0,
                limit: 0xffff,
                access_rights: AR_ACCESSED | AR_WRITABLE | AR_EXECUTABLE | AR_CODE_DATA
                    | AR_PRESENT | AR_LONG_MODE | AR_GRANULARITY,
            },
            ss: Segment {
                selector: ring0_selector(0),
                base: 0,
                limit: 0xffff,
                access_rights: AR_ACCESSED | AR_WRITABLE | AR_CODE_DATA | AR_PRESENT | AR_DB
                    | AR_GRANULARITY,
            },
            ds: Segment::invalid(),
            fs: Segment::invalid(),
            gs: Segment::invalid(),
            tss: Segment {
                selector: ring0_selector(0),
                base: 0,
                limit: 0,
                access_rights: AR_ACCESSED | AR_WRITABLE | AR_EXECUTABLE | AR_PRESENT,
            },
            gdt: DescriptorTablePointer { limit: 0, base: 0 },
            idt: DescriptorTablePointer { limit: 0, base: 0 },
            cr0: CR0_PE | CR0_MP | CR0_ET | CR0_NE | CR0_WP | CR0_AM | CR0_PG,
            cr3,
            cr4: CR4_PAE | CR4_FSGSBASE | CR4_PGE | CR4_OSFXSR | CR4_OSXMMEXCPT | CR4_OSXSAVE,
            efer: EFER_LME | EFER_LMA,
            star: 0,
            lstar: 0,
            cstar: 0,
            fmask: 0,
            ia32_sysenter_cs: 0,
            ia32_sysenter_esp: 0,
            ia32_sysenter_eip: 0,
            kernel_gsbase: 0,
            pat,
            mtrr_def_type,
            msr_entries: Vec::new(),
            fcw: 0x37f,
            mxcsr: 0x1f80,
            eptp_list_region_base: None,
            hlat_ptr: None,
        }
    }
}

/// Guest boot context constructors
impl GuestContext {
    /// Construct a standard Linux 64-bit boot protocol context.
    ///
    /// Sets up the minimal boot environment according to Linux boot protocol:
    /// - Boot GDT at 0x500 with 4 entries
    /// - Boot IDT at 0x520
    /// - Page tables at 0x9000
    ///
    /// `pat` and `mtrr_def_type` are the host's IA32_PAT and IA32_MTRR_DEF_TYPE.
    pub fn construct_linux64bit_boot(pat: u64, mtrr_def_type: u64) -> (r: Self)
        ensures
            r.rsp == BOOT_STACK_POINTER && r.rip == 0 && r.rsi == ZERO_PAGE_START && r.rflags
                == BOOT_RFLAGS,
            callee_saved_zero(r),
            r.cs == segment_from_entries(8, boot_code_entry(), 0),
            r.ss == segment_from_entries(16, boot_data_entry(), 0),
            r.es == r.ss && r.ds == r.ss && r.fs == r.ss && r.gs == r.ss,
            r.tss == segment_from_entries(24, boot_tss_entry(), 0),
            r.gdt == (DescriptorTablePointer {
                limit: (8 * BOOT_GDT_MAX - 1) as u16,
                base: BOOT_GDT_OFFSET,
            }),
            r.idt == (DescriptorTablePointer { limit: 7, base: BOOT_IDT_OFFSET }),
            r.cr0 == CR0_PE | CR0_ET | CR0_NE | CR0_WP | CR0_PG,
            r.cr3 == PML4_START,
            r.cr4 == CR4_PAE,
            r.efer == EFER_LME | EFER_LMA | EFER_SCE | EFER_NXE,
            syscall_msrs_zero(r),
            r.pat == pat && r.mtrr_def_type == mtrr_def_type,
            r.msr_entries@ == boot_msr_entries(),
            fpu_reset_no_paravirt(r),
    {
        let gdt_table: [u64; BOOT_GDT_MAX] = [
            gdt_entry(0, 0, 0),  // NULL
            gdt_entry(0xa09b, 0, 0xfffff),  // CODE
            gdt_entry(0xc093, 0, 0xfffff),  // DATA
            gdt_entry(0x808b, 0, 0xfffff),  // TSS
        ];
        let code_seg = Segment::from_raw_entry_value(gdt_table[1], 1);
        let data_seg = Segment::from_raw_entry_value(gdt_table[2], 2);
        let tss_seg = Segment::from_raw_entry_value(gdt_table[3], 3);
        let gdt_base = canonical_virt_addr(BOOT_GDT_OFFSET);
        let idt_base = canonical_virt_addr(BOOT_IDT_OFFSET);
        GuestContext {
            rsp: BOOT_STACK_POINTER,
            rip: 0,
            rbp: 0,
            rsi: ZERO_PAGE_START,
            rdi: 0,
            rflags: BOOT_RFLAGS,
            r15: 0,
            r14: 0,
            r13: 0,
            r12: 0,
            rbx: 0,
            es: data_seg,
            cs: code_seg,
            ss: data_seg,
            ds: data_seg,
            fs: data_seg,
            gs: data_seg,
            tss: tss_seg,
            gdt: DescriptorTablePointer { limit: (8 * BOOT_GDT_MAX - 1) as u16, base: gdt_base },
            idt: DescriptorTablePointer { limit: (8 - 1) as u16, base: idt_base },
            cr0: CR0_PE | CR0_ET | CR0_NE | CR0_WP | CR0_PG,
            cr3: PML4_START,
            cr4: CR4_PAE,
            efer: EFER_LME | EFER_LMA | EFER_SCE | EFER_NXE,
            star: 0,
            lstar: 0,
            cstar: 0,
            fmask: 0,
            ia32_sysenter_cs: 0,
            ia32_sysenter_esp: 0,
            ia32_sysenter_eip: 0,
            kernel_gsbase: 0,
            pat,
            mtrr_def_type,
            msr_entries: create_boot_msr_entries(),
            fcw: 0x37f,
            mxcsr: 0x1f80,
            eptp_list_region_base: None,
            hlat_ptr: None,
        }
    }
}

/// Utility methods
impl GuestContext {
    /// Set the entry point (RIP).
    pub fn set_rip(&mut self, rip: u64)
        ensures
            *final(self) == (GuestContext { rip, ..*old(self) }),
    {
        self.rip = rip;
    }

    /// Set the page table root (CR3).
    pub fn set_cr3(&mut self, cr3: u64)
        ensures
            *final(self) == (GuestContext { cr3, ..*old(self) }),
    {
        self.cr3 = cr3;
    }

    /// Set the CPU ID (passed in RDI for paravirt boot).
    pub fn set_cpu_id(&mut self, cpu_id: u64)
        ensures
            *final(self) == (GuestContext { rdi: cpu_id, ..*old(self) }),
    {
        self.rdi = cpu_id;
    }

    /// Set GS base for per-CPU data.
    pub fn set_gs_base(&mut self, base: u64)
        ensures
            *final(self) == (GuestContext { gs: Segment { base, ..old(self).gs }, ..*old(self) }),
    {
        self.gs.base = base;
    }

    /// Set the GDT base address, which must be canonical.
    pub fn set_gdt_base(&mut self, base: u64)
        requires
            is_canonical(base),
        ensures
            *final(self) == (GuestContext {
                gdt: DescriptorTablePointer { base, ..old(self).gdt },
                ..*old(self)
            }),
    {
        self.gdt.base = canonical_virt_addr(base);
    }

    /// Set the IDT base address, which must be canonical.
    pub fn set_idt_base(&mut self, base: u64)
        requires
            is_canonical(base),
        ensures
            *final(self) == (GuestContext {
                idt: DescriptorTablePointer { base, ..old(self).idt },
                ..*old(self)
            }),
    {
        self.idt.base = canonical_virt_addr(base);
    }

    /// Set the TSS base address.
    pub fn set_tss_base(&mut self, base: u64)
        ensures
            *final(self) == (GuestContext { tss: Segment { base, ..old(self).tss }, ..*old(self) }),
    {
        self.tss.base = base;
    }

    /// Set the EPTP list region base address.
    pub fn set_eptp_list_region_base(&mut self, base: usize)
        ensures
            *final(self) == (GuestContext { eptp_list_region_base: Some(base), ..*old(self) }),
    {
        self.eptp_list_region_base = Some(base);
    }

    /// Set the HLATP guest physical address.
    pub fn set_hlat_ptr(&mut self, ptr: usize)
        ensures
            *final(self) == (GuestContext { hlat_ptr: Some(ptr), ..*old(self) }),
    {
        self.hlat_ptr = Some(ptr);
    }

    /// Get the EPTP list region base address if set.
    pub fn eptp_list_region_base(&self) -> (r: Option<usize>)
        ensures
            r == self.eptp_list_region_base,
    {
        self.eptp_list_region_base
    }

    /// Get the HLATP guest physical address if set.
    pub fn hlat_ptr(&self) -> (r: Option<usize>)
        ensures
            r == self.hlat_ptr,
    {
        self.hlat_ptr
    }

    /// Load guest general-purpose registers from GeneralRegisters.
    pub fn load_guest_regs(&mut self, regs: &GeneralRegisters)
        ensures
            *final(self) == (GuestContext {
                r15: regs.r15,
                r14: regs.r14,
                r13: regs.r13,
                r12: regs.r12,
                rbx: regs.rbx,
                rbp: regs.rbp,
                ..*old(self)
            }),
    {
        self.r15 = regs.r15;
        self.r14 = regs.r14;
        self.r13 = regs.r13;
        self.r12 = regs.r12;
        self.rbx = regs.rbx;
        self.rbp = regs.rbp;
    }
}

/// Context type for setting up a vCPU.
#[derive(Debug, Clone)]
pub enum VCpuSetupContext {
    /// A first-time boot vcpu context.
    InitialBoot,
    /// A host Linux context loaded from the stack pointer when
    /// just dump from jailhouse kernel module.
    HostContext(GuestContext),
    /// A paravirtualized guest context, entered through the hypervisor entry gate.
    PVGuestContext(GuestContext),
}

} // verus!
