//! Segment registers and the GDT descriptors they are loaded from.
//!
//! A descriptor is the 64-bit GDT entry layout: limit 15:0 in bits 0-15, base 23:0 in bits
//! 16-39, type/S/DPL/P in bits 40-47, limit 19:16 in bits 48-51, AVL/L/D/G in bits 52-55 and
//! base 31:24 in bits 56-63. A system descriptor (S clear) in long mode takes two entries, the
//! second holding base 63:32 in its low half. Access rights use the VMX guest-state layout:
//! descriptor bits 40-47 and 52-55 moved to bits 0-7 and 12-15, plus bit 16 for "unusable".
use vstd::prelude::*;

verus! {

/// Accessed.
pub const AR_ACCESSED: u32 = 0x1;
/// Writable (data) or readable (code).
pub const AR_WRITABLE: u32 = 0x2;
/// Conforming (code) or expand-down (data).
pub const AR_CONFORMING: u32 = 0x4;
/// Executable (code segment).
pub const AR_EXECUTABLE: u32 = 0x8;
/// Code or data segment (descriptor S bit); clear for system segments.
pub const AR_CODE_DATA: u32 = 0x10;
/// Descriptor privilege level 3.
pub const AR_DPL_RING3: u32 = 0x60;
/// Present.
pub const AR_PRESENT: u32 = 0x80;
/// Available for system software.
pub const AR_AVAILABLE: u32 = 0x1000;
/// 64-bit code segment.
pub const AR_LONG_MODE: u32 = 0x2000;
/// Default operation size 32 bit (D/B).
pub const AR_DB: u32 = 0x4000;
/// Limit in 4 KiB units.
pub const AR_GRANULARITY: u32 = 0x8000;
/// The segment register holds no usable segment.
pub const AR_UNUSABLE: u32 = 0x1_0000;
/// The four type bits.
pub const AR_TYPE_MASK: u32 = 0xf;
/// Type of an available 64-bit TSS.
pub const AR_TSS_AVAIL: u32 = 0x9;
/// Type of a busy 64-bit TSS.
pub const AR_TSS_BUSY: u32 = 0xb;

/// The base address held in a descriptor.
pub open spec fn descriptor_base(entry: u64) -> u64 {
    ((entry >> 16) & 0xff_ffff) | ((entry >> 32) & 0xff00_0000)
}

/// The 20-bit limit field of a descriptor.
pub open spec fn descriptor_limit_field(entry: u64) -> u64 {
    (entry & 0xffff) | ((entry >> 32) & 0xf_0000)
}

/// The access rights of a descriptor in the VMX layout (bits 40-47 and 52-55).
pub open spec fn descriptor_rights(entry: u64) -> u64 {
    (entry >> 40) & 0xf0ff
}

/// The descriptor's P bit.
pub open spec fn descriptor_present(entry: u64) -> bool {
    (entry >> 47) & 1 == 1
}

/// The descriptor's G bit: the limit counts 4 KiB pages.
pub open spec fn descriptor_granular(entry: u64) -> bool {
    (entry >> 55) & 1 == 1
}

/// The descriptor describes a system segment (S clear), which takes two entries in long mode.
pub open spec fn descriptor_is_system(entry: u64) -> bool {
    (entry >> 44) & 1 == 0
}

/// The type field (bits 40-43) of a descriptor.
pub open spec fn descriptor_type(entry: u64) -> u64 {
    (entry >> 40) & 0xf
}

/// The limit in bytes: the limit field, scaled to whole 4 KiB pages when G is set.
pub open spec fn descriptor_byte_limit(entry: u64) -> u64 {
    if descriptor_granular(entry) {
        (descriptor_limit_field(entry) << 12) | 0xfff
    } else {
        descriptor_limit_field(entry)
    }
}

/// The access rights a segment register gets from a descriptor: the descriptor's rights,
/// marked unusable when the descriptor is not present.
pub open spec fn segment_rights(entry: u64) -> u32 {
    if descriptor_present(entry) {
        descriptor_rights(entry) as u32
    } else {
        (descriptor_rights(entry) | 0x1_0000) as u32
    }
}

/// The segment that `selector` names when the descriptor it selects is `entry` and the entry
/// after it is `upper`. Only a present system descriptor uses `upper`, for base bits 63:32.
pub open spec fn segment_from_entries(selector: u16, entry: u64, upper: u64) -> Segment {
    Segment {
        selector,
        base: if descriptor_is_system(entry) && descriptor_present(entry) {
            descriptor_base(entry) | ((upper & 0xffff_ffff) << 32)
        } else {
            descriptor_base(entry)
        },
        limit: descriptor_byte_limit(entry) as u32,
        access_rights: segment_rights(entry),
    }
}

/// A segment register: visible selector and hidden base, limit and access rights.
#[derive(Clone, Copy, Debug, PartialEq, Eq, Structural)]
pub struct Segment {
    pub selector: u16,
    pub base: u64,
    pub limit: u32,
    pub access_rights: u32,
}

/// x86: `SegmentSelector::new(index, Ring::Ring0)`, as raw bits: the GDT selector of entry
/// `index` with requested privilege level 0, which is `index << 3` in 16 bits (the top three
/// bits of `index` are shifted out).
#[verifier::external_body]
pub(crate) fn ring0_selector(index: u16) -> (r: u16)
    ensures
        r == (index * 8) % 0x1_0000,
{
    x86::segmentation::SegmentSelector::new(index, x86::Ring::Ring0).bits()
}

/// x86: `SegmentSelector::index` on `SegmentSelector::from_raw(selector)`: the descriptor
/// table index a selector names, `selector >> 3`.
#[verifier::external_body]
pub(crate) fn selector_index(selector: u16) -> (r: u16)
    ensures
        r == selector / 8,
{
    x86::segmentation::SegmentSelector::from_raw(selector).index()
}

/// The descriptor table index that `selector` names.
pub open spec fn selector_table_index(selector: u16) -> int {
    (selector / 8) as int
}

/// The segment that `selector` loads from the descriptor table `table`: the descriptor at the
/// index the selector names, with the entry after it (0 past the end) as its upper half.
pub open spec fn selected_segment(selector: u16, table: Seq<u64>) -> Segment {
    let i = selector_table_index(selector);
    segment_from_entries(
        selector,
        table[i],
        if i + 1 < table.len() {
            table[i + 1]
        } else {
            0
        },
    )
}

/// `table` holds the descriptor that `selector` names, and for a present system descriptor
/// also the entry after it.
pub open spec fn table_covers(selector: u16, table: Seq<u64>) -> bool {
    let i = selector_table_index(selector);
    &&& i < table.len()
    &&& descriptor_is_system(table[i]) && descriptor_present(table[i]) ==> i + 1 < table.len()
}

/// Whether `table` holds the descriptor `selector` names and, for a present system descriptor,
/// the entry after it, so that [`Segment::from_selector`] may read them.
pub fn descriptor_table_covers(selector: u16, table: &[u64]) -> (r: bool)
    ensures
        r == table_covers(selector, table@),
{
    let i = selector_index(selector) as usize;
    if i >= table.len() {
        return false;
    }
    let entry = table[i];
    let system = (entry >> 44) & 1 == 0;
    let present = (entry >> 47) & 1 == 1;
    !(system && present) || i + 1 < table.len()
}

impl Segment {
    /// The segment register contents that hold nothing usable: null selector, marked
    /// unusable.
    pub open spec fn invalid_spec() -> Segment {
        Segment { selector: 0, base: 0, limit: 0, access_rights: AR_UNUSABLE }
    }

    /// A segment register holding nothing usable (null selector).
    pub fn invalid() -> (r: Segment)
        ensures
            r == Segment::invalid_spec(),
    {
        Segment { selector: 0, base: 0, limit: 0, access_rights: AR_UNUSABLE }
    }

    /// Decodes `entry`, with `upper` as the entry after it, into the segment that `selector`
    /// loads.
    fn decode(selector: u16, entry: u64, upper: u64) -> (r: Segment)
        ensures
            r == segment_from_entries(selector, entry, upper),
    {
        let low_base = ((entry >> 16) & 0xff_ffff) | ((entry >> 32) & 0xff00_0000);
        let system = (entry >> 44) & 1 == 0;
        let present = (entry >> 47) & 1 == 1;
        let base = if system && present {
            low_base | ((upper & 0xffff_ffff) << 32)
        } else {
            low_base
        };
        let field = (entry & 0xffff) | ((entry >> 32) & 0xf_0000);
        assert(((entry & 0xffff) | ((entry >> 32) & 0xf_0000)) <= 0xf_ffff) by (bit_vector);
        let byte_limit = if (entry >> 55) & 1 == 1 {
            assert(field <= 0xf_ffff ==> ((field << 12) | 0xfff) <= 0xffff_ffff) by (bit_vector);
            (field << 12) | 0xfff
        } else {
            field
        };
        let rights = (entry >> 40) & 0xf0ff;
        assert(((entry >> 40) & 0xf0ff) <= 0xf0ff) by (bit_vector);
        assert(rights <= 0xf0ff ==> (rights | 0x1_0000) <= 0x1_f0ff) by (bit_vector);
        let access_rights = if present {
            rights as u32
        } else {
            (rights | 0x1_0000) as u32
        };
        Segment { selector, base, limit: byte_limit as u32, access_rights }
    }

    /// The segment described by the GDT entry `entry` at index `index`, selected with
    /// privilege level 0 (an index past 0x1fff loses its top bits in the selector, as
    /// `index << 3` does in 16 bits). The entry after it is not consulted (base bits 63:32 read
    /// as 0).
    pub fn from_raw_entry_value(entry: u64, index: u16) -> (r: Segment)
        ensures
            r == segment_from_entries(((index * 8) % 0x1_0000) as u16, entry, 0),
    {
        let selector = ring0_selector(index);
        Self::decode(selector, entry, 0)
    }

    /// The segment that `selector` loads from the descriptor table `table`.
    pub fn from_selector(selector: u16, table: &[u64]) -> (r: Segment)
        requires
            table_covers(selector, table@),
        ensures
            r == selected_segment(selector, table@),
    {
        let index = selector_index(selector) as usize;
        let entry = table[index];
        let upper = if index + 1 < table.len() {
            table[index + 1]
        } else {
            0
        };
        Self::decode(selector, entry, upper)
    }

    /// Replaces the type field (bits 40-43) of the descriptor `desc` by `type_field`,
    /// leaving every other bit alone.
    pub fn set_descriptor_type(desc: &mut u64, type_field: u32)
        requires
            type_field <= AR_TYPE_MASK,
        ensures
            descriptor_type(*final(desc)) == type_field as u64,
            *final(desc) & !0xf00_0000_0000u64 == *old(desc) & !0xf00_0000_0000u64,
    {
        let old_desc = *desc;
        let t = type_field as u64;
        let new_desc = (old_desc & !(0xfu64 << 40)) | (t << 40);
        assert(t <= 0xf ==> ((((old_desc & !(0xfu64 << 40)) | (t << 40)) >> 40) & 0xf) == t)
            by (bit_vector);
        assert((((old_desc & !(0xfu64 << 40)) | (t << 40)) & !0xf00_0000_0000u64) == (old_desc
            & !0xf00_0000_0000u64)) by (bit_vector)
            requires
                t <= 0xf,
        ;
        *desc = new_desc;
    }
}

} // verus!
