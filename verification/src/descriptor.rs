//! Segment and gate descriptors: the 8-byte records of the GDT and the IDT.
//!
//! The records are put together by the `x86` crate's descriptor builder. What
//! it returns is stated here bit by bit, over the two 32-bit halves of a
//! record, and the tables are proved from those statements.

use vstd::prelude::*;
use x86::segmentation::BuildDescriptor;
use x86::segmentation::CodeSegmentType;
use x86::segmentation::DataSegmentType;
use x86::segmentation::DescriptorBuilder;
use x86::segmentation::GateDescriptorBuilder;
use x86::segmentation::SegmentDescriptorBuilder;
use x86::segmentation::SegmentSelector;
use x86::Ring;

verus! {

/// Access bits of the kernel's code segment: present, ring 0, code,
/// execute/read, 32-bit, limit counted in 4 KiB units.
pub const CODE_SEGMENT_ACCESS: u32 = 0x00c0_9a00;

/// Access bits of the kernel's data segment: present, ring 0, data,
/// read/write, 32-bit, limit counted in 4 KiB units.
pub const DATA_SEGMENT_ACCESS: u32 = 0x00c0_9200;

/// Access bits of an available 32-bit task state segment: present, ring 0.
pub const TASK_SEGMENT_ACCESS: u32 = 0x0000_8900;

/// Access bits of a 32-bit interrupt gate: present, ring 0.
pub const INTERRUPT_GATE_ACCESS: u32 = 0x0000_8e00;

/// Lower half of a segment descriptor: limit bits 0 to 15, then base bits 0
/// to 15.
pub open spec fn segment_lower(base: u32, limit: u32) -> u32 {
    ((base & 0xffff) << 16) | (limit & 0xffff)
}

/// Upper half of a segment descriptor: base bits 16 to 23, the access bits
/// (8 to 15 and 20 to 23), limit bits 16 to 19, base bits 24 to 31.
pub open spec fn segment_upper(base: u32, limit: u32, access: u32) -> u32 {
    ((base >> 16) & 0xff) | ((base >> 24) << 24) | (((limit >> 16) & 0xf) << 16) | access
}

/// Lower half of a gate descriptor: handler address bits 0 to 15, then the
/// selector of the handler's code segment.
pub open spec fn gate_lower(selector: u16, offset: u32) -> u32 {
    ((selector as u32) << 16) | (offset & 0xffff)
}

/// Upper half of a gate descriptor: the access bits, then handler address
/// bits 16 to 31.
pub open spec fn gate_upper(offset: u32, access: u32) -> u32 {
    (offset & 0xffff_0000) | access
}

/// The selector of entry `index` of the GDT, for ring 0.
pub open spec fn selector_bits(index: u16) -> u16 {
    (index * 8) as u16
}

/// One 8-byte record of a descriptor table, in two halves.
///
/// A record comes from the descriptor builder only: no record can be made of
/// two arbitrary halves.
#[derive(Clone, Copy, Debug, PartialEq, Eq, Structural)]
pub struct Descriptor {
    lower: u32,
    upper: u32,
}

impl Descriptor {
    /// The lower half of the record.
    pub closed spec fn spec_lower(&self) -> u32 {
        self.lower
    }

    /// The upper half of the record.
    pub closed spec fn spec_upper(&self) -> u32 {
        self.upper
    }

    /// The record as the CPU reads it: the upper half above the lower.
    pub open spec fn spec_as_u64(&self) -> u64 {
        ((self.spec_upper() as u64) << 32) | (self.spec_lower() as u64)
    }

    /// Whether the record describes nothing: every bit is clear.
    pub open spec fn is_null(&self) -> bool {
        self.spec_lower() == 0 && self.spec_upper() == 0
    }

    /// Base address of the segment that the record describes.
    pub open spec fn base(&self) -> u32 {
        (self.spec_lower() >> 16) | ((self.spec_upper() & 0xff) << 16) | (self.spec_upper()
            & 0xff00_0000)
    }

    /// The 20-bit limit of the segment that the record describes.
    pub open spec fn limit(&self) -> u32 {
        (self.spec_lower() & 0xffff) | (self.spec_upper() & 0x000f_0000)
    }

    /// Whether the CPU may use the record.
    pub open spec fn present(&self) -> bool {
        self.spec_upper() & 0x8000 != 0
    }

    /// The privilege level that the record asks for, 0 to 3.
    pub open spec fn privilege_level(&self) -> u32 {
        (self.spec_upper() >> 13) & 0x3
    }

    /// The four type bits and the code-or-data bit above them.
    pub open spec fn kind(&self) -> u32 {
        (self.spec_upper() >> 8) & 0x1f
    }

    /// Whether the record describes a segment from which code is run.
    pub open spec fn executable(&self) -> bool {
        self.kind() & 0x18 == 0x18
    }

    /// Whether the record describes a data segment that can be written.
    pub open spec fn writable(&self) -> bool {
        self.kind() & 0x1a == 0x12
    }

    /// Whether the limit counts 4 KiB units.
    pub open spec fn granularity_4kb(&self) -> bool {
        self.spec_upper() & 0x0080_0000 != 0
    }

    /// Whether the segment is a 32-bit one.
    pub open spec fn default_size_32(&self) -> bool {
        self.spec_upper() & 0x0040_0000 != 0
    }

    /// The selector that a gate record names.
    pub open spec fn gate_selector(&self) -> u16 {
        (self.spec_lower() >> 16) as u16
    }

    /// The handler address that a gate record names.
    pub open spec fn gate_offset(&self) -> u32 {
        (self.spec_lower() & 0xffff) | (self.spec_upper() & 0xffff_0000)
    }

    /// The record that describes nothing.
    pub fn null() -> (descriptor: Self)
        ensures
            descriptor.is_null(),
    {
        Descriptor { lower: 0, upper: 0 }
    }

    /// The lower half of the record.
    #[verifier::when_used_as_spec(spec_lower)]
    pub fn lower(&self) -> (half: u32)
        ensures
            half == self.spec_lower(),
    {
        self.lower
    }

    /// The upper half of the record.
    #[verifier::when_used_as_spec(spec_upper)]
    pub fn upper(&self) -> (half: u32)
        ensures
            half == self.spec_upper(),
    {
        self.upper
    }

    /// The record as the CPU reads it.
    #[verifier::when_used_as_spec(spec_as_u64)]
    pub fn as_u64(&self) -> (bits: u64)
        ensures
            bits == self.spec_as_u64(),
    {
        ((self.upper as u64) << 32) | (self.lower as u64)
    }
}

/// Calls `x86::segmentation::SegmentSelector::new` with ring 0 and returns
/// the selector's bits: the index above three clear bits (table indicator
/// GDT, requested privilege level 0).
#[verifier::external_body]
pub(crate) fn kernel_selector(index: u16) -> (selector: u16)
    requires
        index < 0x2000,
    ensures
        selector == selector_bits(index),
{
    SegmentSelector::new(index, Ring::Ring0).bits()
}

/// Builds a code segment with the `x86` crate's `DescriptorBuilder`:
/// `code_descriptor` with type execute/read, then `limit_granularity_4kb`,
/// `present`, `db`, `dpl` with ring 0 and `finish`. The builder lays `base`
/// and the low 20 bits of `limit` out as `segment_lower` and `segment_upper`
/// say and sets the access bits of `CODE_SEGMENT_ACCESS`.
#[verifier::external_body]
pub(crate) fn code_segment_descriptor(base: u32, limit: u32) -> (descriptor: Descriptor)
    ensures
        descriptor.spec_lower() == segment_lower(base, limit),
        descriptor.spec_upper() == segment_upper(base, limit, CODE_SEGMENT_ACCESS),
{
    let builder = <DescriptorBuilder as SegmentDescriptorBuilder<u32>>::code_descriptor(
        base,
        limit,
        CodeSegmentType::ExecuteRead,
    );
    let built: x86::segmentation::Descriptor =
        builder.limit_granularity_4kb().present().db().dpl(Ring::Ring0).finish();
    Descriptor { lower: built.lower, upper: built.upper }
}

/// Builds a data segment with the `x86` crate's `DescriptorBuilder`:
/// `data_descriptor` with type read/write, then `limit_granularity_4kb`,
/// `present`, `db`, `dpl` with ring 0 and `finish`. The layout is that of a
/// code segment, with the access bits of `DATA_SEGMENT_ACCESS`.
#[verifier::external_body]
pub(crate) fn data_segment_descriptor(base: u32, limit: u32) -> (descriptor: Descriptor)
    ensures
        descriptor.spec_lower() == segment_lower(base, limit),
        descriptor.spec_upper() == segment_upper(base, limit, DATA_SEGMENT_ACCESS),
{
    let builder = <DescriptorBuilder as SegmentDescriptorBuilder<u32>>::data_descriptor(
        base,
        limit,
        DataSegmentType::ReadWrite,
    );
    let built: x86::segmentation::Descriptor =
        builder.limit_granularity_4kb().present().db().dpl(Ring::Ring0).finish();
    Descriptor { lower: built.lower, upper: built.upper }
}

/// Builds the descriptor of an available 32-bit task state segment with the
/// `x86` crate's `DescriptorBuilder`: `tss_descriptor`, then `present`, `dpl`
/// with ring 0 and `finish`. The layout is that of a segment, with the access
/// bits of `TASK_SEGMENT_ACCESS`: the limit counts bytes.
#[verifier::external_body]
pub(crate) fn task_segment_descriptor(base: u32, limit: u32) -> (descriptor: Descriptor)
    ensures
        descriptor.spec_lower() == segment_lower(base, limit),
        descriptor.spec_upper() == segment_upper(base, limit, TASK_SEGMENT_ACCESS),
{
    let builder = <DescriptorBuilder as GateDescriptorBuilder<u32>>::tss_descriptor(
        u64::from(base),
        u64::from(limit),
        true,
    );
    let built: x86::segmentation::Descriptor = builder.present().dpl(Ring::Ring0).finish();
    Descriptor { lower: built.lower, upper: built.upper }
}

/// Builds a 32-bit interrupt gate with the `x86` crate's `DescriptorBuilder`:
/// `interrupt_descriptor` for the selector with the bits `selector` and the
/// handler at `offset`, then `present` and `finish`. The builder lays both
/// out as `gate_lower` and `gate_upper` say and sets the access bits of
/// `INTERRUPT_GATE_ACCESS`.
#[verifier::external_body]
pub(crate) fn interrupt_gate_descriptor(selector: u16, offset: u32) -> (descriptor: Descriptor)
    ensures
        descriptor.spec_lower() == gate_lower(selector, offset),
        descriptor.spec_upper() == gate_upper(offset, INTERRUPT_GATE_ACCESS),
{
    let builder = <DescriptorBuilder as GateDescriptorBuilder<u32>>::interrupt_descriptor(
        SegmentSelector::from_raw(selector),
        offset,
    );
    let built: x86::segmentation::Descriptor = builder.present().finish();
    Descriptor { lower: built.lower, upper: built.upper }
}

/// What a segment descriptor says, read back from its two halves: the base,
/// the low 20 bits of the limit and the access bits that it was made of.
pub proof fn lemma_segment_fields(descriptor: Descriptor, base: u32, limit: u32, access: u32)
    requires
        access & 0xff0f_00ff == 0,
        descriptor.spec_lower() == segment_lower(base, limit),
        descriptor.spec_upper() == segment_upper(base, limit, access),
    ensures
        descriptor.base() == base,
        descriptor.limit() == limit & 0x000f_ffff,
        descriptor.spec_upper() & 0x00f0_ff00 == access,
        descriptor.present() == (access & 0x8000 != 0),
        descriptor.privilege_level() == (access >> 13) & 0x3,
        descriptor.kind() == (access >> 8) & 0x1f,
        descriptor.granularity_4kb() == (access & 0x0080_0000 != 0),
        descriptor.default_size_32() == (access & 0x0040_0000 != 0),
{
    let lower = descriptor.spec_lower();
    let upper = descriptor.spec_upper();
    assert((lower >> 16) | ((upper & 0xff) << 16) | (upper & 0xff00_0000) == base && (lower
        & 0xffff) | (upper & 0x000f_0000) == limit & 0x000f_ffff && upper & 0x00f0_ff00 == access
        && (upper & 0x8000 != 0) == (access & 0x8000 != 0) && (upper >> 13) & 0x3 == (access
        >> 13) & 0x3 && (upper >> 8) & 0x1f == (access >> 8) & 0x1f && (upper & 0x0080_0000 != 0)
        == (access & 0x0080_0000 != 0) && (upper & 0x0040_0000 != 0) == (access & 0x0040_0000
        != 0)) by (bit_vector)
        requires
            access & 0xff0f_00ff == 0,
            lower == ((base & 0xffff) << 16) | (limit & 0xffff),
            upper == ((base >> 16) & 0xff) | ((base >> 24) << 24) | (((limit >> 16) & 0xf) << 16)
                | access,
    ;
}

/// What a gate descriptor says, read back from its two halves: the selector,
/// the handler address and the access bits that it was made of.
pub proof fn lemma_gate_fields(descriptor: Descriptor, selector: u16, offset: u32, access: u32)
    requires
        access & 0xffff_0000 == 0,
        descriptor.spec_lower() == gate_lower(selector, offset),
        descriptor.spec_upper() == gate_upper(offset, access),
    ensures
        descriptor.gate_selector() == selector,
        descriptor.gate_offset() == offset,
        descriptor.spec_upper() & 0xffff == access,
        descriptor.present() == (access & 0x8000 != 0),
        descriptor.privilege_level() == (access >> 13) & 0x3,
        descriptor.kind() == (access >> 8) & 0x1f,
{
    let lower = descriptor.spec_lower();
    let upper = descriptor.spec_upper();
    let wide = selector as u32;
    assert((lower >> 16) == wide && (lower & 0xffff) | (upper & 0xffff_0000) == offset && upper
        & 0xffff == access && (upper & 0x8000 != 0) == (access & 0x8000 != 0) && (upper >> 13)
        & 0x3 == (access >> 13) & 0x3 && (upper >> 8) & 0x1f == (access >> 8) & 0x1f)
        by (bit_vector)
        requires
            access & 0xffff_0000 == 0,
            wide < 0x1_0000,
            lower == (wide << 16) | (offset & 0xffff),
            upper == (offset & 0xffff_0000) | access,
    ;
}

} // verus!
