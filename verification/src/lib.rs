//! Register-level state of an x86_64 virtual CPU: guest boot contexts, segment
//! descriptors, boot MSR tables and the XSAVE-managed extended state (XCR0,
//! IA32_XSS, IA32_XFD), with their behaviour stated as Verus contracts.
pub mod boot;
pub mod context;
pub mod msr;
pub mod regs;
pub mod segmentation;
pub mod xstate;
