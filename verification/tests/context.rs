use x86_vcpu_state::boot::{
    create_boot_msr_entries, BOOT_GDT_OFFSET, BOOT_IDT_OFFSET, BOOT_RFLAGS, BOOT_STACK_POINTER,
    PML4_START, ZERO_PAGE_START,
};
use x86_vcpu_state::context::{
    gdt_entry, DescriptorTablePointer, GuestContext, HostSystemRegisters, RestoreStep,
    SegmentRegister, VCpuSetupContext,
    DEFAULT_FCW, DEFAULT_MXCSR, SAVED_LINUX_REGS,
};
use x86_vcpu_state::msr::{Msr, MsrEntry};
use x86_vcpu_state::regs::GeneralRegisters;
use x86_vcpu_state::segmentation::{Segment, AR_TSS_AVAIL, AR_UNUSABLE};

#[test]
fn gdt_entry_matches_kernel_encoding() {
    assert_eq!(gdt_entry(0, 0, 0), 0);
    assert_eq!(gdt_entry(0xa09b, 0, 0xfffff), 0x00af_9b00_0000_ffff);
    assert_eq!(gdt_entry(0xc093, 0, 0xfffff), 0x00cf_9300_0000_ffff);
    assert_eq!(gdt_entry(0x808b, 0, 0xfffff), 0x008f_8b00_0000_ffff);
    assert_eq!(gdt_entry(0xc093, 0x1234_5678, 0x000a_bcde), 0x12ca_9334_5678_bcde);
}

#[test]
fn gdt_entry_drops_bits_outside_the_fields() {
    // Flag bits 8-11 and limit bits 20-31 have no place in a descriptor.
    assert_eq!(gdt_entry(0x0f00, 0, 0), 0);
    assert_eq!(gdt_entry(0, 0, 0xfff0_0000), 0);
}

#[test]
fn gdt_entry_round_trips_through_segment_decoding() {
    let e = gdt_entry(0xc093, 0x1234_5678, 0x000a_bcde);
    let s = Segment::from_raw_entry_value(e, 5);
    assert_eq!(s.selector, 5 * 8);
    assert_eq!(s.base, 0x1234_5678);
    assert_eq!(s.limit, 0xabcd_efff);
    assert_eq!(s.access_rights, 0xc093);
    let e = gdt_entry(0x4093, 0x100, 0x1234);
    let s = Segment::from_raw_entry_value(e, 1);
    assert_eq!(s.limit, 0x1234);
    assert_eq!(s.base, 0x100);
    // An index past 0x1fff loses its top bits in the selector.
    let s = Segment::from_raw_entry_value(e, 0x2001);
    assert_eq!(s.selector, 8);
}

#[test]
fn default_context_is_blank() {
    let c = GuestContext::default();
    assert_eq!(c.rip, 0);
    assert_eq!(c.rsp, 0);
    assert_eq!(c.cs, Segment::invalid());
    assert_eq!(c.tss.access_rights, AR_UNUSABLE);
    assert_eq!(c.gdt, DescriptorTablePointer { limit: 0, base: 0 });
    assert_eq!(c.cr0, 0);
    assert_eq!(c.fcw, 0x37f);
    assert_eq!(c.mxcsr, 0x1f80);
    assert!(c.msr_entries.is_empty());
    assert_eq!(c.eptp_list_region_base(), None);
    assert_eq!(c.hlat_ptr(), None);
}

#[test]
fn minimal_guest64_context() {
    let c = GuestContext::construct_minimal_guest64(0xffff_8000_0010_0000, 0x20_0000, 0x7040600070406, 0xc06);
    assert_eq!(c.rip, 0xffff_8000_0010_0000);
    assert_eq!(c.cr3, 0x20_0000);
    assert_eq!(c.rflags, BOOT_RFLAGS);
    assert_eq!(c.cs.selector, 0x10);
    assert_eq!(c.cs.limit, 0xffff);
    assert_eq!(c.cs.access_rights, 0xa09b);
    assert_eq!(c.ss.selector, 0);
    assert_eq!(c.ss.access_rights, 0xc093);
    assert_eq!(c.tss.access_rights, 0x8b);
    assert_eq!(c.ds, Segment::invalid());
    assert_eq!(c.cr0, 0x8005_0033);
    assert_eq!(c.cr4, 0x5_06a0);
    assert_eq!(c.efer, 0x500);
    assert_eq!(c.pat, 0x7040600070406);
    assert_eq!(c.mtrr_def_type, 0xc06);
    assert!(c.msr_entries.is_empty());
    assert_eq!(c.fcw, DEFAULT_FCW);
    assert_eq!(c.mxcsr, DEFAULT_MXCSR);
}

#[test]
fn linux64bit_boot_context() {
    let c = GuestContext::construct_linux64bit_boot(0x7040600070406, 0x806);
    assert_eq!(c.rsp, BOOT_STACK_POINTER);
    assert_eq!(c.rsi, ZERO_PAGE_START);
    assert_eq!(c.rip, 0);
    assert_eq!(c.rflags, 0x2);
    assert_eq!(c.cs, Segment { selector: 8, base: 0, limit: 0xffff_ffff, access_rights: 0xa09b });
    let data = Segment { selector: 16, base: 0, limit: 0xffff_ffff, access_rights: 0xc093 };
    assert_eq!(c.ss, data);
    assert_eq!(c.ds, data);
    assert_eq!(c.es, data);
    assert_eq!(c.fs, data);
    assert_eq!(c.gs, data);
    assert_eq!(c.tss, Segment { selector: 24, base: 0, limit: 0xffff_ffff, access_rights: 0x808b });
    assert_eq!(c.gdt, DescriptorTablePointer { limit: 31, base: BOOT_GDT_OFFSET });
    assert_eq!(c.idt, DescriptorTablePointer { limit: 7, base: BOOT_IDT_OFFSET });
    assert_eq!(c.cr0, 0x8001_0031);
    assert_eq!(c.cr3, PML4_START);
    assert_eq!(c.cr4, 0x20);
    assert_eq!(c.efer, 0xd01);
    assert_eq!(c.msr_entries, create_boot_msr_entries());
}

#[test]
fn setters_change_only_their_field() {
    let mut c = GuestContext::construct_linux64bit_boot(0, 0);
    c.set_rip(0x10_0000);
    c.set_cr3(0x1000);
    c.set_cpu_id(3);
    c.set_gs_base(0xffff_8880_0000_0000);
    c.set_gdt_base(0xffff_8000_0000_1000);
    c.set_idt_base(0x2000);
    c.set_tss_base(0x3000);
    c.set_eptp_list_region_base(0x4000);
    c.set_hlat_ptr(0x5000);
    assert_eq!(c.rip, 0x10_0000);
    assert_eq!(c.cr3, 0x1000);
    assert_eq!(c.rdi, 3);
    assert_eq!(c.gs.base, 0xffff_8880_0000_0000);
    assert_eq!(c.gs.selector, 16);
    assert_eq!(c.gdt, DescriptorTablePointer { limit: 31, base: 0xffff_8000_0000_1000 });
    assert_eq!(c.idt, DescriptorTablePointer { limit: 7, base: 0x2000 });
    assert_eq!(c.tss.base, 0x3000);
    assert_eq!(c.tss.access_rights, 0x808b);
    assert_eq!(c.eptp_list_region_base(), Some(0x4000));
    assert_eq!(c.hlat_ptr(), Some(0x5000));
    assert_eq!(c.rsp, BOOT_STACK_POINTER);
}

#[test]
fn load_guest_regs_copies_callee_saved() {
    let mut c = GuestContext::default();
    let regs = GeneralRegisters {
        rax: 1,
        rcx: 2,
        rdx: 3,
        rbx: 4,
        unused_rsp: 5,
        rbp: 6,
        rsi: 7,
        rdi: 8,
        r8: 9,
        r9: 10,
        r10: 11,
        r11: 12,
        r12: 13,
        r13: 14,
        r14: 15,
        r15: 16,
    };
    c.load_guest_regs(&regs);
    assert_eq!((c.rbx, c.rbp, c.r12, c.r13, c.r14, c.r15), (4, 6, 13, 14, 15, 16));
    assert_eq!((c.rsi, c.rdi, c.rsp), (0, 0, 0));
}

fn host_registers() -> HostSystemRegisters {
    HostSystemRegisters {
        es: 0x18,
        cs: 0x10,
        ss: 0x18,
        ds: 0x18,
        fs: 0x18,
        gs: 0x18,
        tr: 0x40,
        gdt: DescriptorTablePointer { limit: 0x7f, base: 0xffff_fe00_0000_1000 },
        idt: DescriptorTablePointer { limit: 0xfff, base: 0xffff_fe00_0000_0000 },
        cr0: 0x8005_0033,
        cr3: 0x8000_0000_0010_2018,
        cr4: 0x3706f0,
        efer: 0xd01,
        star: 0x23_0010_0000_0000,
        lstar: 0xffff_ffff_8100_0000,
        cstar: 0xffff_ffff_8100_1000,
        fmask: 0x4_7700,
        ia32_sysenter_cs: 0x10,
        ia32_sysenter_esp: 0xffff_fe00_0000_5000,
        ia32_sysenter_eip: 0xffff_ffff_8100_2000,
        kernel_gsbase: 0x7f00_0000_0000,
        pat: 0x7040600070406,
        mtrr_def_type: 0xc06,
        fs_base: 0x7f12_3456_7000,
    }
}

/// The host GDT `host_registers().gdt` points to: 16 entries, code at 2, data at 3 and a
/// 64-bit busy TSS (base 0xffff_fe00_0000_3000, limit 0x4087) at 8 and 9.
fn host_gdt() -> Vec<u64> {
    let mut t = vec![0u64; 16];
    t[2] = 0x00af_9b00_0000_ffff;
    t[3] = 0x00cf_9300_0000_ffff;
    t[8] = 0x0000_8b00_3000_4087;
    t[9] = 0xffff_fe00;
    t
}

#[test]
fn load_from_stack_takes_saved_words_and_host_registers() {
    let saved = [0xffff_8880_1000_0000, 15, 14, 13, 12, 11, 10, 0xffff_ffff_c000_1234];
    assert_eq!(saved.len(), SAVED_LINUX_REGS);
    let host = host_registers();
    let gdt = host_gdt();
    let c = GuestContext::load_from_stack(0xffff_c900_0000_8000, &saved, &gdt, &host);
    assert_eq!(c.rsp, 0xffff_c900_0000_8040);
    assert_eq!((c.r15, c.r14, c.r13, c.r12, c.rbx, c.rbp), (15, 14, 13, 12, 11, 10));
    assert_eq!(c.rip, 0xffff_ffff_c000_1234);
    let data = Segment { selector: 0x18, base: 0, limit: 0xffff_ffff, access_rights: 0xc093 };
    assert_eq!(c.cs, Segment { selector: 0x10, base: 0, limit: 0xffff_ffff, access_rights: 0xa09b });
    assert_eq!(c.ss, data);
    assert_eq!(c.ds, data);
    assert_eq!(c.es, data);
    assert_eq!(c.gs, Segment { base: 0xffff_8880_1000_0000, ..data });
    assert_eq!(c.fs, Segment { base: 0x7f12_3456_7000, ..data });
    assert_eq!(
        c.tss,
        Segment { selector: 0x40, base: 0xffff_fe00_0000_3000, limit: 0x4087, access_rights: 0x8b }
    );
    assert_eq!(c.gdt, host.gdt);
    assert_eq!(c.idt, host.idt);
    assert_eq!(c.cr3, 0x10_2000);
    assert_eq!(c.lstar, host.lstar);
    assert_eq!(c.fmask, 0x4_7700);
    assert_eq!(c.pat, host.pat);
    assert!(c.msr_entries.is_empty());
}

#[test]
fn restore_plan_orders_the_host_registers() {
    let saved = [0u64; 8];
    let c = GuestContext::load_from_stack(0x1000, &saved, &host_gdt(), &host_registers());
    let plan = c.restore_plan();
    let data = 0x18;
    let expected = vec![
        RestoreStep::WriteMsr(MsrEntry { index: Msr::IA32_SYSENTER_CS, data: 0x10 }),
        RestoreStep::WriteMsr(MsrEntry { index: Msr::IA32_SYSENTER_ESP, data: 0xffff_fe00_0000_5000 }),
        RestoreStep::WriteMsr(MsrEntry { index: Msr::IA32_SYSENTER_EIP, data: 0xffff_ffff_8100_2000 }),
        RestoreStep::WriteEfer(0xd01),
        RestoreStep::WriteMsr(MsrEntry { index: Msr::STAR, data: 0x23_0010_0000_0000 }),
        RestoreStep::WriteMsr(MsrEntry { index: Msr::LSTAR, data: 0xffff_ffff_8100_0000 }),
        RestoreStep::WriteMsr(MsrEntry { index: Msr::CSTAR, data: 0xffff_ffff_8100_1000 }),
        RestoreStep::WriteMsr(MsrEntry { index: Msr::SYSCALL_MASK, data: 0x4_7700 }),
        RestoreStep::WriteMsr(MsrEntry { index: Msr::KERNEL_GSBASE, data: 0x7f00_0000_0000 }),
        RestoreStep::WriteMsr(MsrEntry { index: Msr::IA32_PAT, data: 0x7040600070406 }),
        RestoreStep::WriteCr0(0x8005_0033),
        RestoreStep::WriteCr4(0x3706f0),
        RestoreStep::WriteCr3(0x10_2000),
        RestoreStep::CopyTssDescriptor(0x40),
        RestoreStep::LoadTr(0x40),
        RestoreStep::LoadGdt(DescriptorTablePointer { limit: 0x7f, base: 0xffff_fe00_0000_1000 }),
        RestoreStep::LoadIdt(DescriptorTablePointer { limit: 0xfff, base: 0xffff_fe00_0000_0000 }),
        RestoreStep::LoadSegment(SegmentRegister::Es, data),
        RestoreStep::LoadSegment(SegmentRegister::Cs, 0x10),
        RestoreStep::LoadSegment(SegmentRegister::Ss, data),
        RestoreStep::LoadSegment(SegmentRegister::Ds, data),
        RestoreStep::LoadSegment(SegmentRegister::Fs, data),
        RestoreStep::LoadSegment(SegmentRegister::Gs, data),
        RestoreStep::WriteMsr(MsrEntry { index: Msr::IA32_FS_BASE, data: 0x7f12_3456_7000 }),
    ];
    assert_eq!(plan, expected);
}

#[test]
fn restore_cr3_drops_the_flag_bits() {
    let mut c = GuestContext::default();
    c.set_cr3(0x10_2018);
    assert_eq!(c.restore_cr3(), 0x10_2000);
    c.set_cr3(0x10_2000);
    assert_eq!(c.restore_cr3(), 0x10_2000);
}

#[test]
fn copy_tss_descriptor_marks_it_available() {
    let c = GuestContext::load_from_stack(0x1000, &[0u64; 8], &host_gdt(), &host_registers());
    // The TSS selector 0x40 names entries 8 and 9.
    let mut hv_gdt = vec![0x1111u64; 12];
    let mut linux_gdt = vec![0u64; 12];
    linux_gdt[8] = 0x0000_8b00_3000_4087; // busy TSS, base 0x3000
    linux_gdt[9] = 0xffff_fe00;
    c.copy_tss_descriptor(&mut hv_gdt, &linux_gdt);
    assert_eq!(hv_gdt[8], 0x0000_8900_3000_4087);
    assert_eq!((hv_gdt[8] >> 40) & 0xf, AR_TSS_AVAIL as u64);
    assert_eq!(hv_gdt[9], 0xffff_fe00);
    assert_eq!(hv_gdt[7], 0x1111);
    assert_eq!(hv_gdt[10], 0x1111);
    assert_eq!(hv_gdt.len(), 12);
}

#[test]
fn setup_context_holds_a_context() {
    let ctx = VCpuSetupContext::PVGuestContext(GuestContext::construct_minimal_guest64(1, 2, 3, 4));
    match ctx {
        VCpuSetupContext::PVGuestContext(c) => assert_eq!(c.rip, 1),
        _ => unreachable!(),
    }
    assert!(matches!(VCpuSetupContext::InitialBoot, VCpuSetupContext::InitialBoot));
}
