//! Extended processor state (XSAVE) bookkeeping for switching between a host and a guest.
//!
//! The library decides; the caller performs the privileged instructions. `XState::probe_host`
//! asks CPUID what the processor supports, `XState::new` builds the state from that and from the
//! register values the caller read, and `switch_to_guest` / `switch_to_host` take the values
//! currently in the registers and return the plan of saves, writes and restores to perform.
use vstd::prelude::*;
use vstd::math::max;

use crate::regs::CR4_OSXSAVE;

verus! {

/// x87 floating point state (XCR0 bit 0).
pub const XFEATURE_FP: u64 = 0x1;
/// SSE state (XCR0 bit 1).
pub const XFEATURE_SSE: u64 = 0x2;
/// AVX (upper halves of YMM registers) state (XCR0 bit 2).
pub const XFEATURE_YMM: u64 = 0x4;
/// MPX bound registers (XCR0 bit 3).
pub const XFEATURE_BNDREGS: u64 = 0x8;
/// MPX bound configuration and status (XCR0 bit 4).
pub const XFEATURE_BNDCSR: u64 = 0x10;
/// AVX-512 opmask registers (XCR0 bit 5).
pub const XFEATURE_OPMASK: u64 = 0x20;
/// AVX-512 upper halves of ZMM0-15 (XCR0 bit 6).
pub const XFEATURE_ZMM_HI256: u64 = 0x40;
/// AVX-512 ZMM16-31 (XCR0 bit 7).
pub const XFEATURE_HI16_ZMM: u64 = 0x80;
/// AMX tile configuration (XCR0 bit 17).
pub const XFEATURE_XTILE_CFG: u64 = 0x2_0000;
/// AMX tile data (XCR0 bit 18).
pub const XFEATURE_XTILE_DATA: u64 = 0x4_0000;
/// Both AMX components (`XFEATURE_XTILE_CFG | XFEATURE_XTILE_DATA`).
pub const XFEATURE_XTILE: u64 = 0x6_0000;
/// All three AVX-512 components (`XFEATURE_OPMASK | XFEATURE_ZMM_HI256 | XFEATURE_HI16_ZMM`).
pub const XFEATURE_AVX512: u64 = 0xe0;
/// Both MPX components (`XFEATURE_BNDREGS | XFEATURE_BNDCSR`).
pub const XFEATURE_MPX: u64 = 0x18;
/// Components that XCR0 must always enable.
pub const XFEATURE_REQUIRED: u64 = XFEATURE_FP;

/// Required alignment of an XSAVE area in bytes.
pub const XSAVE_AREA_ALIGN: usize = 64;
/// Size of the legacy (FXSAVE-compatible) region that every XSAVE area starts with.
pub const XSAVE_LEGACY_AREA_SIZE: usize = 512;

/// Bit `i` of `x`.
pub open spec fn bit_of(x: u64, i: u64) -> bool {
    (x >> i) & 1 == 1
}

/// Every bit set in `x` is also set in `allowed`.
pub open spec fn bits_within(x: u64, allowed: u64) -> bool {
    x & allowed == x
}

/// At least one bit of `mask` is set in `x`.
pub open spec fn has_any(x: u64, mask: u64) -> bool {
    x & mask != 0
}

/// All bits of `mask` are set in `x`.
pub open spec fn has_all(x: u64, mask: u64) -> bool {
    x & mask == mask
}

/// The architectural consistency rules for an XCR0 value: x87 state is always enabled, AVX
/// needs SSE, AVX-512 needs AVX, and the MPX, AVX-512 and AMX groups are each enabled as a
/// whole or not at all.
pub open spec fn xcr0_valid(xcr0: u64) -> bool {
    &&& has_all(xcr0, XFEATURE_REQUIRED)
    &&& has_any(xcr0, XFEATURE_YMM) ==> has_any(xcr0, XFEATURE_SSE)
    &&& has_any(xcr0, XFEATURE_MPX) ==> has_all(xcr0, XFEATURE_MPX)
    &&& has_any(xcr0, XFEATURE_AVX512) ==> has_any(xcr0, XFEATURE_YMM) && has_all(
        xcr0,
        XFEATURE_AVX512,
    )
    &&& has_any(xcr0, XFEATURE_XTILE) ==> has_all(xcr0, XFEATURE_XTILE)
}

/// The 64-bit value whose low half is `lo` and high half is `hi`.
pub open spec fn join_halves(lo: u32, hi: u32) -> int {
    hi * 0x1_0000_0000 + lo
}

/// The components that XSAVE/XRSTOR handle: the XCR0 components, plus the IA32_XSS
/// (supervisor) components when XSAVES/XRSTORS are in use.
pub open spec fn xstate_mask_spec(xsaves_available: bool, xcr0: u64, xss: u64) -> u64 {
    if xsaves_available {
        xcr0 | xss
    } else {
        xcr0
    }
}

/// The registers returned by one CPUID query.
#[derive(Clone, Copy, Debug, PartialEq, Eq, Structural)]
pub struct CpuidLeaf {
    pub eax: u32,
    pub ebx: u32,
    pub ecx: u32,
    pub edx: u32,
}

/// A CPUID answer together with the query it answers: `regs` is what CPUID returned for
/// `leaf` in EAX and `sub_leaf` in ECX.
#[derive(Clone, Copy, Debug, PartialEq, Eq, Structural)]
pub struct CpuidAnswer {
    pub leaf: u32,
    pub sub_leaf: u32,
    pub regs: CpuidLeaf,
}

/// `a` answers CPUID leaf 0xD (processor extended state enumeration), sub-leaf `sub_leaf`.
pub open spec fn answers_xstate_leaf(a: CpuidAnswer, sub_leaf: u32) -> bool {
    a.leaf == 0x0d && a.sub_leaf == sub_leaf
}

/// `core::arch::x86_64::__cpuid_count`: executes CPUID with `leaf` in EAX and `sub_leaf` in
/// ECX and returns the answer labelled with that query. What the registers hold depends on the
/// processor the code runs on, so nothing is stated of them.
#[verifier::external_body]
fn cpuid_count(leaf: u32, sub_leaf: u32) -> (r: CpuidAnswer)
    ensures
        r.leaf == leaf,
        r.sub_leaf == sub_leaf,
{
    let res = core::arch::x86_64::__cpuid_count(leaf, sub_leaf);
    CpuidAnswer {
        leaf,
        sub_leaf,
        regs: CpuidLeaf { eax: res.eax, ebx: res.ebx, ecx: res.ecx, edx: res.edx },
    }
}

/// raw_cpuid: `CpuId::new().get_feature_info()` (CPUID leaf 1, `None` when the processor does
/// not report that leaf), then `FeatureInfo::has_xsave` on the answer. The answer depends on
/// the processor, so nothing is stated of it.
#[verifier::external_body]
fn cpuid_reports_xsave() -> (r: Option<bool>) {
    match raw_cpuid::CpuId::new().get_feature_info() {
        Some(info) => Some(info.has_xsave()),
        None => None,
    }
}

/// raw_cpuid: `CpuId::new().get_extended_state_info()` (CPUID leaf 0xD, `None` when the
/// processor does not report that leaf), then `ExtendedStateInfo::has_xsaves_xrstors` on the
/// answer. The answer depends on the processor, so nothing is stated of it.
#[verifier::external_body]
fn cpuid_reports_xsaves() -> (r: Option<bool>) {
    match raw_cpuid::CpuId::new().get_extended_state_info() {
        Some(info) => Some(info.has_xsaves_xrstors()),
        None => None,
    }
}

/// What the processor supports of XSAVE-managed state, as CPUID reports it.
#[derive(Clone, Copy, Debug, PartialEq, Eq, Structural)]
pub struct XFeatureSupport {
    /// XSAVE/XRSTOR and XCR0 are available.
    pub xsave_available: bool,
    /// XSAVES/XRSTORS and IA32_XSS are available.
    pub xsaves_available: bool,
    /// IA32_XFD and IA32_XFD_ERR are available.
    pub xfd_available: bool,
    /// XCR0 bits the processor supports.
    pub supported_xcr0: u64,
    /// IA32_XSS bits the processor supports.
    pub supported_xss: u64,
    /// IA32_XFD bits the processor supports.
    pub supported_xfd: u64,
    /// Bytes needed by an XSAVE area that holds every supported component (0 without XSAVE).
    pub xsave_area_size: usize,
}

impl XFeatureSupport {
    /// The relations between the fields that hold of every answer CPUID can give.
    pub open spec fn wf(&self) -> bool {
        &&& self.xsaves_available ==> self.xsave_available
        &&& !self.xsave_available ==> {
            &&& self.supported_xcr0 == 0
            &&& self.supported_xss == 0
            &&& self.xsave_area_size == 0
        }
        &&& self.xsave_available ==> self.xsave_area_size >= XSAVE_LEGACY_AREA_SIZE
        &&& self.supported_xfd == if self.xfd_available {
            self.supported_xcr0 & XFEATURE_XTILE
        } else {
            0
        }
    }

    /// Combines the answers of CPUID: `xsave` and `xsaves` are the feature flags for
    /// XSAVE and XSAVES, `leaf0` and `leaf1` the answers to leaf 0xD, sub-leaves 0 and 1
    /// (sub-leaf 0 is only asked, and only needed, when XSAVE is available). Without XSAVE
    /// nothing else is supported, except that IA32_XFD is still reported.
    pub fn from_cpuid(xsave: bool, xsaves: bool, leaf0: Option<CpuidAnswer>, leaf1: CpuidAnswer) -> (r:
        XFeatureSupport)
        requires
            xsave ==> leaf0 is Some,
            leaf0 matches Some(a0) ==> answers_xstate_leaf(a0, 0),
            answers_xstate_leaf(leaf1, 1),
        ensures
            r.wf(),
            r.xsave_available == xsave,
            r.xsaves_available == (xsave && xsaves),
            r.xfd_available == XState::xfd_bit(leaf1.regs.eax),
            r.supported_xcr0 == if xsave {
                join_halves(leaf0->Some_0.regs.eax, leaf0->Some_0.regs.edx)
            } else {
                0
            },
            r.supported_xss == if xsave {
                join_halves(leaf1.regs.ecx, leaf1.regs.edx)
            } else {
                0
            },
            r.supported_xfd == if r.xfd_available {
                r.supported_xcr0 & XFEATURE_XTILE
            } else {
                0
            },
            r.xsave_area_size == if xsave {
                XState::xsave_area_size_spec(leaf0->Some_0.regs, leaf1.regs)
            } else {
                0
            },
    {
        let xsaves_available = if xsave {
            xsaves
        } else {
            false
        };
        let xfd_available = XState::xfd_available_from(&leaf1);
        let (supported_xcr0, supported_xss, xsave_area_size) = match leaf0 {
            Some(a0) if xsave => {
                let (x, s) = XState::supported_xfeatures(&a0, &leaf1);
                (x, s, XState::xsave_area_size(&a0, &leaf1))
            },
            _ => (0, 0, 0),
        };
        let supported_xfd = if xfd_available {
            supported_xcr0 & XFEATURE_XTILE
        } else {
            0
        };
        XFeatureSupport {
            xsave_available: xsave,
            xsaves_available,
            xfd_available,
            supported_xcr0,
            supported_xss,
            supported_xfd,
            xsave_area_size,
        }
    }

    /// Which registers must be read to build the host state: XCR0 with XSAVE, IA32_XSS with
    /// XSAVES, IA32_XFD and IA32_XFD_ERR with XFD.
    pub fn initial_reads(&self) -> (r: XRegisterSelection)
        ensures
            r.xcr0 == self.xsave_available,
            r.xss == self.xsaves_available,
            r.xfd == self.xfd_available,
    {
        XRegisterSelection {
            xcr0: self.xsave_available,
            xss: self.xsaves_available,
            xfd: self.xfd_available,
        }
    }
}

/// Which of the extended-state registers the caller must read before a step.
#[derive(Clone, Copy, Debug, PartialEq, Eq, Structural)]
pub struct XRegisterSelection {
    /// Read XCR0 (XGETBV with ECX = 0).
    pub xcr0: bool,
    /// Read IA32_XSS.
    pub xss: bool,
    /// Read IA32_XFD and IA32_XFD_ERR.
    pub xfd: bool,
}

/// The values of the extended-state registers as read from the processor. Values of
/// registers that were not to be read are ignored.
#[derive(Clone, Copy, Debug, PartialEq, Eq, Structural)]
pub struct XRegisterValues {
    pub xcr0: u64,
    pub xss: u64,
    pub xfd: u64,
    pub xfd_err: u64,
}

/// One XSAVE or XRSTOR: the requested-feature bitmap and whether the supervisor forms
/// (XSAVES/XRSTORS, compacted layout) are used.
#[derive(Clone, Copy, Debug, PartialEq, Eq, Structural)]
pub struct XSaveOp {
    pub mask: u64,
    pub use_xsaves: bool,
}

/// What a switch asks the caller to do, in this order: clear CR0.TS and save the outgoing
/// side's area with `save`; write `xss` to IA32_XSS if present; write `xcr0` to XCR0; restore
/// the incoming side's area with `restore`; write IA32_XFD and IA32_XFD_ERR if `xfd` is present.
#[derive(Clone, Copy, Debug, PartialEq, Eq, Structural)]
pub struct XSwitchPlan {
    pub save: XSaveOp,
    pub xss: Option<u64>,
    pub xcr0: u64,
    pub restore: XSaveOp,
    pub xfd: Option<XfdValues>,
}

/// Values for IA32_XFD and IA32_XFD_ERR.
#[derive(Clone, Copy, Debug, PartialEq, Eq, Structural)]
pub struct XfdValues {
    pub xfd: u64,
    pub xfd_err: u64,
}

/// The abstract state of an [`XState`].
#[derive(Clone, Copy, Debug, PartialEq, Eq, Structural)]
pub struct XStateView {
    pub host_xcr0: u64,
    pub guest_xcr0: u64,
    pub host_xss: u64,
    pub guest_xss: u64,
    pub host_xfd: u64,
    pub guest_xfd: u64,
    pub host_xfd_err: u64,
    pub guest_xfd_err: u64,
    pub support: XFeatureSupport,
}

/// The extended-state registers of a host and of its guest, with what the processor supports.
/// The two XSAVE areas themselves belong to the caller; `support.xsave_area_size` is the size
/// each must have.
pub struct XState {
    host_xcr0: u64,
    guest_xcr0: u64,
    host_xss: u64,
    guest_xss: u64,
    host_xfd: u64,
    guest_xfd: u64,
    host_xfd_err: u64,
    guest_xfd_err: u64,
    support: XFeatureSupport,
}

impl View for XState {
    type V = XStateView;

    closed spec fn view(&self) -> XStateView {
        XStateView {
            host_xcr0: self.host_xcr0,
            guest_xcr0: self.guest_xcr0,
            host_xss: self.host_xss,
            guest_xss: self.guest_xss,
            host_xfd: self.host_xfd,
            guest_xfd: self.guest_xfd,
            host_xfd_err: self.host_xfd_err,
            guest_xfd_err: self.guest_xfd_err,
            support: self.support,
        }
    }
}

/// The state right after construction from `support` and the host's register values `regs`:
/// each register that the processor lacks reads as 0, and the guest starts from the host's
/// values.
pub open spec fn initial_view(support: XFeatureSupport, regs: XRegisterValues) -> XStateView {
    let xcr0 = if support.xsave_available {
        regs.xcr0
    } else {
        0
    };
    let xss = if support.xsaves_available {
        regs.xss
    } else {
        0
    };
    let xfd = if support.xfd_available {
        regs.xfd
    } else {
        0
    };
    let xfd_err = if support.xfd_available {
        regs.xfd_err
    } else {
        0
    };
    XStateView {
        host_xcr0: xcr0,
        guest_xcr0: xcr0,
        host_xss: xss,
        guest_xss: xss,
        host_xfd: xfd,
        guest_xfd: xfd,
        host_xfd_err: xfd_err,
        guest_xfd_err: xfd_err,
        support,
    }
}

/// The state after switching from host to guest, given the current register values `cur`
/// (which are the host's): with XSAVE, the host's XCR0 is recorded, and its IA32_XSS and
/// IA32_XFD/IA32_XFD_ERR where those exist; without XSAVE nothing changes.
pub open spec fn to_guest_view(s: XStateView, cur: XRegisterValues) -> XStateView {
    if !s.support.xsave_available {
        s
    } else {
        XStateView {
            host_xcr0: cur.xcr0,
            host_xss: if s.support.xsaves_available {
                cur.xss
            } else {
                s.host_xss
            },
            host_xfd: if s.support.xfd_available {
                cur.xfd
            } else {
                s.host_xfd
            },
            host_xfd_err: if s.support.xfd_available {
                cur.xfd_err
            } else {
                s.host_xfd_err
            },
            ..s
        }
    }
}

/// The state after switching from guest to host; the mirror image of [`to_guest_view`].
pub open spec fn to_host_view(s: XStateView, cur: XRegisterValues) -> XStateView {
    if !s.support.xsave_available {
        s
    } else {
        XStateView {
            guest_xcr0: cur.xcr0,
            guest_xss: if s.support.xsaves_available {
                cur.xss
            } else {
                s.guest_xss
            },
            guest_xfd: if s.support.xfd_available {
                cur.xfd
            } else {
                s.guest_xfd
            },
            guest_xfd_err: if s.support.xfd_available {
                cur.xfd_err
            } else {
                s.guest_xfd_err
            },
            ..s
        }
    }
}

/// The plan of a switch that saves the side whose registers are `(out_xcr0, out_xss)` and
/// loads the side whose registers are `in_*`.
pub open spec fn switch_plan_spec(
    support: XFeatureSupport,
    out_xcr0: u64,
    out_xss: u64,
    in_xcr0: u64,
    in_xss: u64,
    in_xfd: u64,
    in_xfd_err: u64,
) -> XSwitchPlan {
    XSwitchPlan {
        save: XSaveOp {
            mask: xstate_mask_spec(support.xsaves_available, out_xcr0, out_xss),
            use_xsaves: support.xsaves_available,
        },
        xss: if support.xsaves_available {
            Some(in_xss)
        } else {
            None
        },
        xcr0: in_xcr0,
        restore: XSaveOp {
            mask: xstate_mask_spec(support.xsaves_available, in_xcr0, in_xss),
            use_xsaves: support.xsaves_available,
        },
        xfd: if support.xfd_available {
            Some(XfdValues { xfd: in_xfd, xfd_err: in_xfd_err })
        } else {
            None
        },
    }
}

/// The plan of switching to the guest from state `s` (the state before the switch) with
/// current register values `cur`.
pub open spec fn to_guest_plan(s: XStateView, cur: XRegisterValues) -> Option<XSwitchPlan> {
    if !s.support.xsave_available {
        None
    } else {
        let n = to_guest_view(s, cur);
        Some(
            switch_plan_spec(
                s.support,
                n.host_xcr0,
                n.host_xss,
                n.guest_xcr0,
                n.guest_xss,
                n.guest_xfd,
                n.guest_xfd_err,
            ),
        )
    }
}

/// The plan of switching to the host from state `s` with current register values `cur`.
pub open spec fn to_host_plan(s: XStateView, cur: XRegisterValues) -> Option<XSwitchPlan> {
    if !s.support.xsave_available {
        None
    } else {
        let n = to_host_view(s, cur);
        Some(
            switch_plan_spec(
                s.support,
                n.guest_xcr0,
                n.guest_xss,
                n.host_xcr0,
                n.host_xss,
                n.host_xfd,
                n.host_xfd_err,
            ),
        )
    }
}

/// The register values that a processor holds after carrying out `plan` with `before` in its
/// registers.
pub open spec fn after_plan(before: XRegisterValues, plan: XSwitchPlan) -> XRegisterValues {
    XRegisterValues {
        xcr0: plan.xcr0,
        xss: match plan.xss {
            Some(v) => v,
            None => before.xss,
        },
        xfd: match plan.xfd {
            Some(p) => p.xfd,
            None => before.xfd,
        },
        xfd_err: match plan.xfd {
            Some(p) => p.xfd_err,
            None => before.xfd_err,
        },
    }
}

impl XState {
    /// IA32_XFD support as reported in EAX of CPUID leaf 0xD, sub-leaf 1 (bit 4).
    pub open spec fn xfd_bit(eax: u32) -> bool {
        eax & 0x10 != 0
    }

    /// The XSAVE area size CPUID reports: the largest of the sizes for the supported XCR0
    /// components (leaf 0xD.0 ECX), for the enabled ones (leaf 0xD.0 EBX) and for the enabled
    /// XCR0 | IA32_XSS components (leaf 0xD.1 EBX), and never less than the legacy region.
    pub open spec fn xsave_area_size_spec(leaf0: CpuidLeaf, leaf1: CpuidLeaf) -> int {
        max(
            max(max(leaf0.ecx as int, leaf0.ebx as int), leaf1.ebx as int),
            XSAVE_LEGACY_AREA_SIZE as int,
        )
    }

    /// Checks whether XSAVE is available on the current CPU (CPUID leaf 1). The answer depends
    /// on the processor; it is `false` when the leaf is not reported.
    pub fn xsave_available() -> bool {
        Self::reported_feature(cpuid_reports_xsave())
    }

    /// A feature flag as CPUID answers it: set when the leaf is reported with the flag set,
    /// clear when the flag is clear or the leaf is not reported.
    pub fn reported_feature(reported: Option<bool>) -> (r: bool)
        ensures
            r == (reported == Some(true)),
    {
        match reported {
            Some(b) => b,
            None => false,
        }
    }

    /// Checks whether XSAVES and XRSTORS (as well as IA32_XSS) are available on the current
    /// CPU (CPUID leaf 0xD). The answer depends on the processor; it is `false` when the leaf
    /// is not reported.
    pub fn xsaves_available() -> bool {
        Self::reported_feature(cpuid_reports_xsaves())
    }

    /// Checks whether IA32_XFD is available on the current CPU (CPUID leaf 0xD, sub-leaf 1).
    pub fn xfd_available() -> bool {
        let leaf1 = cpuid_count(0x0d, 1);
        Self::xfd_available_from(&leaf1)
    }

    /// Whether the answer `leaf1` to CPUID leaf 0xD, sub-leaf 1 reports IA32_XFD.
    pub fn xfd_available_from(leaf1: &CpuidAnswer) -> (r: bool)
        requires
            answers_xstate_leaf(*leaf1, 1),
        ensures
            r == Self::xfd_bit(leaf1.regs.eax),
    {
        assert((1u32 << 4u32) == 0x10) by (bit_vector);
        leaf1.regs.eax & (1 << 4) != 0
    }

    /// The supported XCR0 bits (EDX:EAX of leaf 0xD.0) and IA32_XSS bits (EDX:ECX of leaf
    /// 0xD.1).
    pub fn supported_xfeatures(leaf0: &CpuidAnswer, leaf1: &CpuidAnswer) -> (r: (u64, u64))
        requires
            answers_xstate_leaf(*leaf0, 0),
            answers_xstate_leaf(*leaf1, 1),
        ensures
            r.0 == join_halves(leaf0.regs.eax, leaf0.regs.edx),
            r.1 == join_halves(leaf1.regs.ecx, leaf1.regs.edx),
    {
        let xcr0 = leaf0.regs.eax as u64 | ((leaf0.regs.edx as u64) << 32);
        let xss = leaf1.regs.ecx as u64 | ((leaf1.regs.edx as u64) << 32);
        proof {
            lemma_join_halves(leaf0.regs.eax, leaf0.regs.edx);
            lemma_join_halves(leaf1.regs.ecx, leaf1.regs.edx);
        }
        (xcr0, xss)
    }

    /// The size of an XSAVE area from the answers to leaf 0xD, sub-leaves 0 and 1.
    pub fn xsave_area_size(leaf0: &CpuidAnswer, leaf1: &CpuidAnswer) -> (r: usize)
        requires
            answers_xstate_leaf(*leaf0, 0),
            answers_xstate_leaf(*leaf1, 1),
        ensures
            r == Self::xsave_area_size_spec(leaf0.regs, leaf1.regs),
            r >= XSAVE_LEGACY_AREA_SIZE,
    {
        let mut size = leaf0.regs.ecx as usize;
        if (leaf0.regs.ebx as usize) > size {
            size = leaf0.regs.ebx as usize;
        }
        if (leaf1.regs.ebx as usize) > size {
            size = leaf1.regs.ebx as usize;
        }
        if XSAVE_LEGACY_AREA_SIZE > size {
            size = XSAVE_LEGACY_AREA_SIZE;
        }
        size
    }

    /// The requested-feature bitmap for XSAVE/XRSTOR on a side with these registers.
    pub fn xstate_mask(xsaves_available: bool, xcr0: u64, xss: u64) -> (r: u64)
        ensures
            r == xstate_mask_spec(xsaves_available, xcr0, xss),
    {
        if xsaves_available {
            xcr0 | xss
        } else {
            xcr0
        }
    }

    /// Asks CPUID what the current processor supports (XSAVES only where XSAVE is available).
    pub fn probe_host() -> (r: XFeatureSupport)
        ensures
            r.wf(),
    {
        let xsave = Self::xsave_available();
        let xsaves = if xsave {
            Self::xsaves_available()
        } else {
            false
        };
        let leaf0 = if xsave {
            Some(cpuid_count(0x0d, 0))
        } else {
            None
        };
        let leaf1 = cpuid_count(0x0d, 1);
        XFeatureSupport::from_cpuid(xsave, xsaves, leaf0, leaf1)
    }

    /// The state is consistent with what a processor can report.
    pub open spec fn wf(&self) -> bool {
        self@.support.wf()
    }

    /// Creates the state of a host whose processor supports `support` and whose registers
    /// hold `regs` (read as `support.initial_reads()` selects). The guest starts as a copy of
    /// the host; the caller saves the host's XSAVE area with `host_save()` and copies it to
    /// the guest's.
    pub fn new(support: XFeatureSupport, regs: XRegisterValues) -> (r: XState)
        requires
            support.wf(),
        ensures
            r.wf(),
            r@ == initial_view(support, regs),
            r@.support == support,
            r@.guest_xcr0 == r@.host_xcr0 && r@.guest_xss == r@.host_xss,
            r@.guest_xfd == r@.host_xfd && r@.guest_xfd_err == r@.host_xfd_err,
            r@.host_xcr0 == (if support.xsave_available { regs.xcr0 } else { 0 }),
            r@.host_xss == (if support.xsaves_available { regs.xss } else { 0 }),
            r@.host_xfd == (if support.xfd_available { regs.xfd } else { 0 }),
            r@.host_xfd_err == (if support.xfd_available { regs.xfd_err } else { 0 }),
    {
        let xcr0 = if support.xsave_available {
            regs.xcr0
        } else {
            0
        };
        let xss = if support.xsaves_available {
            regs.xss
        } else {
            0
        };
        let xfd = if support.xfd_available {
            regs.xfd
        } else {
            0
        };
        let xfd_err = if support.xfd_available {
            regs.xfd_err
        } else {
            0
        };
        XState {
            host_xcr0: xcr0,
            guest_xcr0: xcr0,
            host_xss: xss,
            guest_xss: xss,
            host_xfd: xfd,
            guest_xfd: xfd,
            host_xfd_err: xfd_err,
            guest_xfd_err: xfd_err,
            support,
        }
    }

    /// Every `XState` keeps what the processor supports consistent (`XFeatureSupport::wf`):
    /// `new` establishes it and nothing changes `support` afterwards.
    #[verifier::type_invariant]
    spec fn support_is_consistent(self) -> bool {
        self.support.wf()
    }

    /// What the processor supports. Whatever calls the state went through, it is consistent:
    /// XSAVES only with XSAVE, no XCR0 or IA32_XSS support and no XSAVE area without XSAVE, an
    /// area of at least the legacy size with XSAVE, and IA32_XFD support exactly the AMX part
    /// of the supported XCR0 bits when XFD is available (none otherwise).
    pub fn support(&self) -> (r: XFeatureSupport)
        ensures
            r == self@.support,
            r.wf(),
    {
        proof {
            use_type_invariant(self);
        }
        self.support
    }

    /// The save of the host's area that follows construction: none without XSAVE.
    pub fn host_save(&self) -> (r: Option<XSaveOp>)
        ensures
            r == if self@.support.xsave_available {
                Some(
                    XSaveOp {
                        mask: xstate_mask_spec(
                            self@.support.xsaves_available,
                            self@.host_xcr0,
                            self@.host_xss,
                        ),
                        use_xsaves: self@.support.xsaves_available,
                    },
                )
            } else {
                None
            },
    {
        if self.support.xsave_available {
            Some(
                XSaveOp {
                    mask: Self::xstate_mask(
                        self.support.xsaves_available,
                        self.host_xcr0,
                        self.host_xss,
                    ),
                    use_xsaves: self.support.xsaves_available,
                },
            )
        } else {
            None
        }
    }

    /// Whether every bit of `xcr0` is supported by the processor.
    pub fn is_xcr0_supported(&self, xcr0: u64) -> (r: bool)
        ensures
            r == bits_within(xcr0, self@.support.supported_xcr0),
    {
        proof {
            lemma_clear_bits_zero(xcr0, self.support.supported_xcr0);
        }
        (xcr0 & !self.support.supported_xcr0) == 0
    }

    /// Whether every bit of `xss` is supported by the processor.
    pub fn is_xss_supported(&self, xss: u64) -> (r: bool)
        ensures
            r == bits_within(xss, self@.support.supported_xss),
    {
        proof {
            lemma_clear_bits_zero(xss, self.support.supported_xss);
        }
        (xss & !self.support.supported_xss) == 0
    }

    /// Whether every bit of `xfd` is supported by the processor.
    pub fn is_xfd_supported(&self, xfd: u64) -> (r: bool)
        ensures
            r == bits_within(xfd, self@.support.supported_xfd),
    {
        proof {
            lemma_clear_bits_zero(xfd, self.support.supported_xfd);
        }
        (xfd & !self.support.supported_xfd) == 0
    }

    /// Whether `xcr0` obeys the architectural consistency rules of XCR0 ([`xcr0_valid`]).
    pub fn validate_xcr0(xcr0: u64) -> (r: bool)
        ensures
            r == xcr0_valid(xcr0),
    {
        if (xcr0 & XFEATURE_REQUIRED) != XFEATURE_REQUIRED {
            return false;
        }
        if (xcr0 & XFEATURE_YMM) != 0 && (xcr0 & XFEATURE_SSE) == 0 {
            return false;
        }
        let mpx = xcr0 & XFEATURE_MPX;
        if mpx != 0 && mpx != XFEATURE_MPX {
            return false;
        }
        let avx512 = xcr0 & XFEATURE_AVX512;
        if avx512 != 0 && ((xcr0 & XFEATURE_YMM) == 0 || avx512 != XFEATURE_AVX512) {
            return false;
        }
        let xtile = xcr0 & XFEATURE_XTILE;
        if xtile != 0 && xtile != XFEATURE_XTILE {
            return false;
        }
        true
    }

    /// The guest's XCR0.
    pub fn guest_xcr0(&self) -> (r: u64)
        ensures
            r == self@.guest_xcr0,
    {
        self.guest_xcr0
    }

    /// Sets the guest's XCR0.
    pub fn set_guest_xcr0(&mut self, xcr0: u64)
        ensures
            final(self)@ == (XStateView { guest_xcr0: xcr0, ..old(self)@ }),
    {
        proof {
            use_type_invariant(&*self);
        }
        self.guest_xcr0 = xcr0;
    }

    /// Sets the guest's IA32_XSS.
    pub fn set_guest_xss(&mut self, xss: u64)
        ensures
            final(self)@ == (XStateView { guest_xss: xss, ..old(self)@ }),
    {
        proof {
            use_type_invariant(&*self);
        }
        self.guest_xss = xss;
    }

    /// The guest's IA32_XSS.
    pub fn guest_xss(&self) -> (r: u64)
        ensures
            r == self@.guest_xss,
    {
        self.guest_xss
    }

    /// Sets the guest's IA32_XFD.
    pub fn set_guest_xfd(&mut self, xfd: u64)
        ensures
            final(self)@ == (XStateView { guest_xfd: xfd, ..old(self)@ }),
    {
        proof {
            use_type_invariant(&*self);
        }
        self.guest_xfd = xfd;
    }

    /// The guest's IA32_XFD.
    pub fn guest_xfd(&self) -> (r: u64)
        ensures
            r == self@.guest_xfd,
    {
        self.guest_xfd
    }

    /// Sets the guest's IA32_XFD_ERR.
    pub fn set_guest_xfd_err(&mut self, xfd_err: u64)
        ensures
            final(self)@ == (XStateView { guest_xfd_err: xfd_err, ..old(self)@ }),
    {
        proof {
            use_type_invariant(&*self);
        }
        self.guest_xfd_err = xfd_err;
    }

    /// The guest's IA32_XFD_ERR.
    pub fn guest_xfd_err(&self) -> (r: u64)
        ensures
            r == self@.guest_xfd_err,
    {
        self.guest_xfd_err
    }

    /// Which registers must be read before a switch: nothing without XSAVE; otherwise XCR0,
    /// IA32_XSS with XSAVES, IA32_XFD and IA32_XFD_ERR with XFD.
    pub fn switch_reads(&self) -> (r: XRegisterSelection)
        ensures
            r.xcr0 == self@.support.xsave_available,
            r.xss == (self@.support.xsave_available && self@.support.xsaves_available),
            r.xfd == (self@.support.xsave_available && self@.support.xfd_available),
    {
        let on = self.support.xsave_available;
        XRegisterSelection {
            xcr0: on,
            xss: on && self.support.xsaves_available,
            xfd: on && self.support.xfd_available,
        }
    }

    /// Records the host's current register values `cur` and returns how to load the guest's
    /// state: save the host's area, load the guest's IA32_XSS and XCR0, restore the guest's
    /// area, load the guest's IA32_XFD and IA32_XFD_ERR. Without XSAVE nothing happens.
    pub fn switch_to_guest(&mut self, cur: XRegisterValues) -> (r: Option<XSwitchPlan>)
        ensures
            final(self)@ == to_guest_view(old(self)@, cur),
            r == to_guest_plan(old(self)@, cur),
            r is Some == old(self)@.support.xsave_available,
            r matches Some(p) ==> {
                let xsaves = old(self)@.support.xsaves_available;
                &&& p.save.use_xsaves == xsaves && p.restore.use_xsaves == xsaves
                &&& p.save.mask == (if xsaves { cur.xcr0 | cur.xss } else { cur.xcr0 })
                &&& p.restore.mask == (if xsaves {
                    old(self)@.guest_xcr0 | old(self)@.guest_xss
                } else {
                    old(self)@.guest_xcr0
                })
                &&& p.xcr0 == old(self)@.guest_xcr0
            },
    {
        proof {
            use_type_invariant(&*self);
        }
        if !self.support.xsave_available {
            return None;
        }
        self.host_xcr0 = cur.xcr0;
        if self.support.xsaves_available {
            self.host_xss = cur.xss;
        }
        if self.support.xfd_available {
            self.host_xfd = cur.xfd;
            self.host_xfd_err = cur.xfd_err;
        }
        let xsaves = self.support.xsaves_available;
        let save = XSaveOp {
            mask: Self::xstate_mask(xsaves, self.host_xcr0, self.host_xss),
            use_xsaves: xsaves,
        };
        let restore = XSaveOp {
            mask: Self::xstate_mask(xsaves, self.guest_xcr0, self.guest_xss),
            use_xsaves: xsaves,
        };
        let xss = if xsaves {
            Some(self.guest_xss)
        } else {
            None
        };
        let xfd = if self.support.xfd_available {
            Some(XfdValues { xfd: self.guest_xfd, xfd_err: self.guest_xfd_err })
        } else {
            None
        };
        Some(XSwitchPlan { save, xss, xcr0: self.guest_xcr0, restore, xfd })
    }

    /// Records the guest's current register values `cur` and returns how to load the host's
    /// state back: the mirror image of [`XState::switch_to_guest`].
    pub fn switch_to_host(&mut self, cur: XRegisterValues) -> (r: Option<XSwitchPlan>)
        ensures
            final(self)@ == to_host_view(old(self)@, cur),
            r == to_host_plan(old(self)@, cur),
            r is Some == old(self)@.support.xsave_available,
            r matches Some(p) ==> {
                let xsaves = old(self)@.support.xsaves_available;
                &&& p.save.use_xsaves == xsaves && p.restore.use_xsaves == xsaves
                &&& p.save.mask == (if xsaves { cur.xcr0 | cur.xss } else { cur.xcr0 })
                &&& p.restore.mask == (if xsaves {
                    old(self)@.host_xcr0 | old(self)@.host_xss
                } else {
                    old(self)@.host_xcr0
                })
                &&& p.xcr0 == old(self)@.host_xcr0
            },
    {
        proof {
            use_type_invariant(&*self);
        }
        if !self.support.xsave_available {
            return None;
        }
        self.guest_xcr0 = cur.xcr0;
        if self.support.xsaves_available {
            self.guest_xss = cur.xss;
        }
        if self.support.xfd_available {
            self.guest_xfd = cur.xfd;
            self.guest_xfd_err = cur.xfd_err;
        }
        let xsaves = self.support.xsaves_available;
        let save = XSaveOp {
            mask: Self::xstate_mask(xsaves, self.guest_xcr0, self.guest_xss),
            use_xsaves: xsaves,
        };
        let restore = XSaveOp {
            mask: Self::xstate_mask(xsaves, self.host_xcr0, self.host_xss),
            use_xsaves: xsaves,
        };
        let xss = if xsaves {
            Some(self.host_xss)
        } else {
            None
        };
        let xfd = if self.support.xfd_available {
            Some(XfdValues { xfd: self.host_xfd, xfd_err: self.host_xfd_err })
        } else {
            None
        };
        Some(XSwitchPlan { save, xss, xcr0: self.host_xcr0, restore, xfd })
    }

    /// Enables XSAVE and XGETBV: given the current CR4, the value to write back with
    /// CR4.OSXSAVE (bit 18) set, or `None` when the processor lacks XSAVE.
    pub fn enable_xsave(cr4: u64) -> (r: Option<u64>)
        ensures
            r matches Some(v) ==> v == cr4 | CR4_OSXSAVE,
    {
        Self::osxsave_cr4(Self::xsave_available(), cr4)
    }

    /// The CR4 value that enables XSAVE when the processor has it: `cr4` with CR4.OSXSAVE
    /// set, or `None` (nothing to write) without XSAVE.
    pub fn osxsave_cr4(xsave_available: bool, cr4: u64) -> (r: Option<u64>)
        ensures
            r == if xsave_available {
                Some(cr4 | CR4_OSXSAVE)
            } else {
                None
            },
    {
        if xsave_available {
            Some(cr4 | CR4_OSXSAVE)
        } else {
            None
        }
    }
}


/// XCR0 consistency, bit by bit: bit 0 (x87) is set; bit 2 (AVX) needs bit 1 (SSE); bits 3 and
/// 4 (MPX) are equal; any of bits 5-7 (AVX-512) needs all three and bit 2; bits 17 and 18 (AMX)
/// are equal.
pub proof fn lemma_xcr0_valid_bits(xcr0: u64)
    ensures
        xcr0_valid(xcr0) <==> {
            &&& bit_of(xcr0, 0)
            &&& bit_of(xcr0, 2) ==> bit_of(xcr0, 1)
            &&& bit_of(xcr0, 3) == bit_of(xcr0, 4)
            &&& (bit_of(xcr0, 5) || bit_of(xcr0, 6) || bit_of(xcr0, 7)) ==> (bit_of(xcr0, 2)
                && bit_of(xcr0, 5) && bit_of(xcr0, 6) && bit_of(xcr0, 7))
            &&& bit_of(xcr0, 17) == bit_of(xcr0, 18)
        },
{
    let x = xcr0;
    assert(((x & 1) == 1) == (((x >> 0u64) & 1) == 1)) by (bit_vector);
    assert(((x & 4) != 0) == (((x >> 2u64) & 1) == 1)) by (bit_vector);
    assert(((x & 2) != 0) == (((x >> 1u64) & 1) == 1)) by (bit_vector);
    assert((((x & 0x18) != 0) ==> ((x & 0x18) == 0x18)) == ((((x >> 3u64) & 1) == 1) == (((x
        >> 4u64) & 1) == 1))) by (bit_vector);
    assert((((x & 0xe0) != 0) ==> (((x & 4) != 0) && ((x & 0xe0) == 0xe0))) == (((((x >> 5u64)
        & 1) == 1) || (((x >> 6u64) & 1) == 1) || (((x >> 7u64) & 1) == 1)) ==> ((((x >> 2u64)
        & 1) == 1) && (((x >> 5u64) & 1) == 1) && (((x >> 6u64) & 1) == 1) && (((x >> 7u64)
        & 1) == 1)))) by (bit_vector);
    assert((((x & 0x6_0000) != 0) ==> ((x & 0x6_0000) == 0x6_0000)) == ((((x >> 17u64) & 1)
        == 1) == (((x >> 18u64) & 1) == 1))) by (bit_vector);
}

/// The bits of `x` below position `k` (all of them when `k` is 64).
pub open spec fn low_bits(x: u64, k: u64) -> u64 {
    if k >= 64 {
        x
    } else {
        x & (((1u64 << k) - 1) as u64)
    }
}

/// If each bit of `x` below `k` is set in `allowed`, so is each bit of `low_bits(x, k)`.
proof fn lemma_low_bits_within(x: u64, allowed: u64, k: u64)
    requires
        k <= 64,
        forall|i: u64| i < 64 ==> #[trigger] bit_of(x, i) ==> bit_of(allowed, i),
    ensures
        bits_within(low_bits(x, k), allowed),
    decreases k,
{
    if k == 0 {
        assert((x & (((1u64 << 0u64) - 1) as u64)) & allowed == (x & (((1u64 << 0u64) - 1)
            as u64))) by (bit_vector);
    } else {
        let j = (k - 1) as u64;
        lemma_low_bits_within(x, allowed, j);
        assert(bit_of(x, j) ==> bit_of(allowed, j));
        let lo = low_bits(x, j);
        if k == 64 {
            assert((lo & allowed) == lo && (((x >> j) & 1) == 1 ==> ((allowed >> j) & 1) == 1)
                ==> (x & allowed) == x) by (bit_vector)
                requires
                    j == 63,
                    lo == x & (((1u64 << j) - 1) as u64),
            ;
        } else {
            assert((lo & allowed) == lo && (((x >> j) & 1) == 1 ==> ((allowed >> j) & 1) == 1)
                ==> ((x & (((1u64 << k) - 1) as u64)) & allowed) == (x & (((1u64 << k) - 1)
                as u64))) by (bit_vector)
                requires
                    j < 63,
                    k == j + 1,
                    lo == x & (((1u64 << j) - 1) as u64),
            ;
        }
    }
}

/// `bits_within(x, allowed)` holds exactly when each bit set in `x` is set in `allowed`.
pub proof fn lemma_bits_within_per_bit(x: u64, allowed: u64)
    ensures
        bits_within(x, allowed) <==> (forall|i: u64|
            i < 64 ==> #[trigger] bit_of(x, i) ==> bit_of(allowed, i)),
{
    if bits_within(x, allowed) {
        assert forall|i: u64| i < 64 && #[trigger] bit_of(x, i) implies bit_of(allowed, i) by {
            assert((x & allowed) == x && i < 64 && ((x >> i) & 1) == 1 ==> ((allowed >> i) & 1)
                == 1) by (bit_vector);
        }
    }
    if forall|i: u64| i < 64 ==> #[trigger] bit_of(x, i) ==> bit_of(allowed, i) {
        lemma_low_bits_within(x, allowed, 64);
    }
}

/// The processor never supports an IA32_XFD bit outside the AMX components, so an IA32_XFD
/// value accepted by `is_xfd_supported` only touches AMX state.
pub proof fn lemma_supported_xfd_is_amx_only(support: XFeatureSupport, xfd: u64)
    requires
        support.wf(),
        bits_within(xfd, support.supported_xfd),
    ensures
        bits_within(xfd, XFEATURE_XTILE),
{
    let s = support.supported_xcr0;
    let f = support.supported_xfd;
    if support.xfd_available {
        assert((xfd & (s & 0x6_0000)) == xfd ==> (xfd & 0x6_0000) == xfd) by (bit_vector);
    } else {
        assert((xfd & 0) == xfd ==> (xfd & 0x6_0000) == xfd) by (bit_vector);
    }
}


/// Every switch uses the supervisor forms (XSAVES/XRSTORS, compacted layout) for both of its
/// area operations exactly when the processor has XSAVES, whatever the registers hold, which
/// is the choice `host_save` makes for the first save of the host's area.
pub proof fn lemma_switch_area_form(s: XStateView, cur: XRegisterValues)
    requires
        s.support.xsave_available,
    ensures
        to_guest_plan(s, cur)->Some_0.save.use_xsaves == s.support.xsaves_available,
        to_guest_plan(s, cur)->Some_0.restore.use_xsaves == s.support.xsaves_available,
        to_host_plan(s, cur)->Some_0.save.use_xsaves == s.support.xsaves_available,
        to_host_plan(s, cur)->Some_0.restore.use_xsaves == s.support.xsaves_available,
{
}

/// A switch saves the outgoing side's area with the components its registers enable right
/// now (the XCR0 just read, or'ed with the IA32_XSS just read when XSAVES is in use) and
/// restores the incoming side's area with the components of its recorded registers, which it
/// also loads into XCR0.
pub proof fn lemma_switch_masks(s: XStateView, cur: XRegisterValues)
    requires
        s.support.xsave_available,
    ensures
        ({
            let g = to_guest_plan(s, cur)->Some_0;
            let h = to_host_plan(s, cur)->Some_0;
            &&& s.support.xsaves_available ==> {
                &&& g.save.mask == cur.xcr0 | cur.xss
                &&& h.save.mask == cur.xcr0 | cur.xss
                &&& g.restore.mask == s.guest_xcr0 | s.guest_xss
                &&& h.restore.mask == s.host_xcr0 | s.host_xss
            }
            &&& !s.support.xsaves_available ==> {
                &&& g.save.mask == cur.xcr0
                &&& h.save.mask == cur.xcr0
                &&& g.restore.mask == s.guest_xcr0
                &&& h.restore.mask == s.host_xcr0
            }
            &&& g.xcr0 == s.guest_xcr0
            &&& h.xcr0 == s.host_xcr0
        }),
{
}

/// A fresh state starts the guest as a copy of the host: each guest register equals the
/// host's, and each host register is the value the caller read, or 0 where the processor
/// lacks the register.
pub proof fn lemma_new_guest_copies_host(support: XFeatureSupport, regs: XRegisterValues)
    ensures
        ({
            let v = initial_view(support, regs);
            &&& v.guest_xcr0 == v.host_xcr0 && v.guest_xss == v.host_xss
            &&& v.guest_xfd == v.host_xfd && v.guest_xfd_err == v.host_xfd_err
            &&& v.host_xcr0 == (if support.xsave_available { regs.xcr0 } else { 0 })
            &&& v.host_xss == (if support.xsaves_available { regs.xss } else { 0 })
            &&& v.host_xfd == (if support.xfd_available { regs.xfd } else { 0 })
            &&& v.host_xfd_err == (if support.xfd_available { regs.xfd_err } else { 0 })
            &&& v.support == support
        }),
{
}

/// Without XSAVE a switch in either direction changes nothing and plans nothing.
pub proof fn lemma_switch_without_xsave(s: XStateView, cur: XRegisterValues)
    requires
        !s.support.xsave_available,
    ensures
        to_guest_view(s, cur) == s,
        to_guest_plan(s, cur) is None,
        to_host_view(s, cur) == s,
        to_host_plan(s, cur) is None,
{
}

/// Entering the guest and coming back, with the processor holding in between exactly what the
/// first switch loaded: the second switch records the guest's registers unchanged, reloads the
/// host's registers that the first switch found, and uses the first switch's two area
/// operations the other way round.
pub proof fn lemma_switch_round_trip(s: XStateView, host: XRegisterValues)
    requires
        s.support.xsave_available,
    ensures
        ({
            let g = to_guest_view(s, host);
            let p1 = to_guest_plan(s, host)->Some_0;
            let in_guest = after_plan(host, p1);
            let back = to_host_view(g, in_guest);
            let p2 = to_host_plan(g, in_guest)->Some_0;
            let after = after_plan(in_guest, p2);
            &&& back == g
            &&& back.guest_xcr0 == s.guest_xcr0
            &&& back.guest_xss == s.guest_xss
            &&& back.guest_xfd == s.guest_xfd
            &&& back.guest_xfd_err == s.guest_xfd_err
            &&& p2.save == p1.restore
            &&& p2.restore == p1.save
            &&& after.xcr0 == host.xcr0
            &&& s.support.xsaves_available ==> after.xss == host.xss
            &&& s.support.xfd_available ==> after.xfd == host.xfd && after.xfd_err
                == host.xfd_err
        }),
{
}

/// `x & !allowed == 0` exactly when `x` has no bit outside `allowed`.
proof fn lemma_clear_bits_zero(x: u64, allowed: u64)
    ensures
        ((x & !allowed) == 0) == bits_within(x, allowed),
{
    assert(((x & !allowed) == 0) == (x & allowed == x)) by (bit_vector);
}

/// Joining two 32-bit halves with a shift and an or is the arithmetic join.
proof fn lemma_join_halves(lo: u32, hi: u32)
    ensures
        (lo as u64 | ((hi as u64) << 32)) == join_halves(lo, hi),
{
    assert((lo as u64 | ((hi as u64) << 32)) == (hi as u64) * 0x1_0000_0000u64 + (lo as u64))
        by (bit_vector);
}

} // verus!
