# x86_vcpu_state

Register-level state of an x86_64 virtual CPU, verified with Verus.

- `src/xstate.rs`: XSAVE-managed extended state (XCR0, IA32_XSS, IA32_XFD): what CPUID reports,
  XCR0 validation, and the host/guest switch as a plan of saves, register writes and restores.
- `src/context.rs`: the guest context (host Linux context taken over from the stack, minimal
  64-bit shim context, Linux 64-bit boot protocol context), GDT entry encoding, and the
  pieces of restoring the host context.
- `src/segmentation.rs`: segment registers decoded from GDT descriptors.
- `src/boot.rs`, `src/msr.rs`, `src/regs.rs`: boot protocol constants, the boot MSR table, MSR
  indices, general-purpose registers and control-register bits.
- `app/`: the privileged instructions and the XSAVE memory, carrying out what the library
  decides.
