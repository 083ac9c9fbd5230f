//! The global descriptor table: a flat code segment, a flat data segment
//! and, where the machine has one, the task state segment.

use vstd::prelude::*;
use crate::descriptor::code_segment_descriptor;
use crate::descriptor::data_segment_descriptor;
use crate::descriptor::kernel_selector;
use crate::descriptor::lemma_segment_fields;
use crate::descriptor::segment_lower;
use crate::descriptor::segment_upper;
use crate::descriptor::selector_bits;
use crate::descriptor::task_segment_descriptor;
use crate::descriptor::Descriptor;
use crate::descriptor::CODE_SEGMENT_ACCESS;
use crate::descriptor::DATA_SEGMENT_ACCESS;
use crate::descriptor::TASK_SEGMENT_ACCESS;
use crate::tss::TaskStateLocation;

verus! {

/// Index of the entry that describes nothing.
pub const NULL_SELECTOR_INDEX: u16 = 0;

/// Index of the kernel's code segment.
pub const CODE_SELECTOR_INDEX: u16 = 1;

/// Index of the kernel's data and stack segment.
pub const DATA_SELECTOR_INDEX: u16 = 2;

/// Index of the task state segment.
pub const TASK_SELECTOR_INDEX: u16 = 3;

/// The flat code segment as the CPU reads it.
pub const FLAT_CODE_DESCRIPTOR: u64 = 0x00cf_9a00_0000_ffff;

/// The flat data segment as the CPU reads it.
pub const FLAT_DATA_DESCRIPTOR: u64 = 0x00cf_9200_0000_ffff;

/// The four entries of the global descriptor table, in the order in which
/// the selectors count them.
pub struct GDT {
    _null: Descriptor,
    code: Descriptor,
    data: Descriptor,
    task: Descriptor,
}

impl GDT {
    /// The entries, from index 0 to 3.
    pub closed spec fn view(&self) -> Seq<Descriptor> {
        seq![self._null, self.code, self.data, self.task]
    }

    /// Builds the table.
    ///
    /// Entry 0 is null. Entries 1 and 2 are the code and the data segment,
    /// both from address 0 over the whole 4 GiB, for ring 0. Entry 3
    /// describes the task state segment at `task`, or is null without one.
    pub fn build(task: Option<TaskStateLocation>) -> (table: Self)
        ensures
            table@.len() == 4,
            table@[0].is_null(),
            table@[1].spec_as_u64() == FLAT_CODE_DESCRIPTOR,
            table@[2].spec_as_u64() == FLAT_DATA_DESCRIPTOR,
            is_flat_segment(table@[1], CODE_SEGMENT_ACCESS),
            is_flat_segment(table@[2], DATA_SEGMENT_ACCESS),
            table@[1].executable(),
            table@[2].writable(),
            match task {
                Some(location) => {
                    &&& table@[3].spec_lower() == segment_lower(location.base, location.size)
                    &&& table@[3].spec_upper() == segment_upper(
                        location.base,
                        location.size,
                        TASK_SEGMENT_ACCESS,
                    )
                    &&& table@[3].base() == location.base
                    &&& table@[3].limit() == location.size & 0x000f_ffff
                    &&& table@[3].present()
                    &&& table@[3].privilege_level() == 0
                    &&& table@[3].kind() == 0x09
                    &&& !table@[3].granularity_4kb()
                },
                None => table@[3].is_null(),
            },
    {
        let code = code_segment_descriptor(0, u32::MAX);
        let data = data_segment_descriptor(0, u32::MAX);
        let task_descriptor = match task {
            Some(location) => task_segment_descriptor(location.base, location.size),
            None => Descriptor::null(),
        };
        proof {
            lemma_access_bits();
            lemma_flat_segment(code, CODE_SEGMENT_ACCESS);
            lemma_flat_segment(data, DATA_SEGMENT_ACCESS);
            lemma_segment_fields(code, 0, u32::MAX, CODE_SEGMENT_ACCESS);
            lemma_segment_fields(data, 0, u32::MAX, DATA_SEGMENT_ACCESS);
            if let Some(location) = task {
                lemma_segment_fields(
                    task_descriptor,
                    location.base,
                    location.size,
                    TASK_SEGMENT_ACCESS,
                );
            }
        }
        GDT { _null: Descriptor::null(), code, data, task: task_descriptor }
    }

    /// The entries, from index 0 to 3, for whoever puts them where the CPU
    /// reads them.
    pub fn entries(&self) -> (entries: [Descriptor; 4])
        ensures
            entries@ == self@,
    {
        let entries = [self._null, self.code, self.data, self.task];
        assert(entries@ =~= self@);
        entries
    }

    /// Selector to load into the local-descriptor-table register, which is
    /// not used: the null selector.
    pub fn null_selector() -> (selector: u16)
        ensures
            selector == 0,
            names_entry(selector, NULL_SELECTOR_INDEX),
    {
        proof {
            lemma_selectors_name_their_entries();
        }
        kernel_selector(NULL_SELECTOR_INDEX)
    }

    /// Selector of the code segment, for the code segment register and for
    /// every interrupt gate.
    pub fn code_selector() -> (selector: u16)
        ensures
            selector == 0x08,
            selector == selector_bits(CODE_SELECTOR_INDEX),
            names_entry(selector, CODE_SELECTOR_INDEX),
    {
        proof {
            lemma_selectors_name_their_entries();
        }
        kernel_selector(CODE_SELECTOR_INDEX)
    }

    /// Selector of the data segment, for the stack segment register and the
    /// four data segment registers.
    pub fn data_selector() -> (selector: u16)
        ensures
            selector == 0x10,
            selector == selector_bits(DATA_SELECTOR_INDEX),
            names_entry(selector, DATA_SELECTOR_INDEX),
    {
        proof {
            lemma_selectors_name_their_entries();
        }
        kernel_selector(DATA_SELECTOR_INDEX)
    }

    /// Selector of the task state segment, for the task register.
    pub fn task_selector() -> (selector: u16)
        ensures
            selector == 0x18,
            selector == selector_bits(TASK_SELECTOR_INDEX),
            names_entry(selector, TASK_SELECTOR_INDEX),
    {
        proof {
            lemma_selectors_name_their_entries();
        }
        kernel_selector(TASK_SELECTOR_INDEX)
    }
}

/// Whether `selector` names entry `index` of the global descriptor table and
/// asks for ring 0: the index stands above the three low bits, which are
/// clear.
pub open spec fn names_entry(selector: u16, index: u16) -> bool {
    selector >> 3 == index && selector & 0x7 == 0
}

/// Each of the four selectors names the entry of its index.
proof fn lemma_selectors_name_their_entries()
    ensures
        names_entry(0x00, NULL_SELECTOR_INDEX),
        names_entry(0x08, CODE_SELECTOR_INDEX),
        names_entry(0x10, DATA_SELECTOR_INDEX),
        names_entry(0x18, TASK_SELECTOR_INDEX),
{
    assert(0x00u16 >> 3 == 0 && 0x00u16 & 0x7 == 0 && 0x08u16 >> 3 == 1 && 0x08u16 & 0x7 == 0
        && 0x10u16 >> 3 == 2 && 0x10u16 & 0x7 == 0 && 0x18u16 >> 3 == 3 && 0x18u16 & 0x7 == 0)
        by (bit_vector);
}

/// Whether `descriptor` is a present ring-0 segment from address 0 over the
/// whole 4 GiB, with the kind and the sizes that `access` asks for: base 0,
/// the largest limit, counted in 4 KiB units.
pub open spec fn is_flat_segment(descriptor: Descriptor, access: u32) -> bool {
    &&& descriptor.base() == 0
    &&& descriptor.limit() == 0x000f_ffff
    &&& descriptor.granularity_4kb()
    &&& descriptor.default_size_32()
    &&& descriptor.present()
    &&& descriptor.privilege_level() == 0
    &&& descriptor.kind() == (access >> 8) & 0x1f
}

/// A flat segment as a 64-bit record: the access bits between the largest
/// limit and a base of 0.
proof fn lemma_flat_segment(descriptor: Descriptor, access: u32)
    requires
        descriptor.spec_lower() == segment_lower(0, u32::MAX),
        descriptor.spec_upper() == segment_upper(0, u32::MAX, access),
    ensures
        access == CODE_SEGMENT_ACCESS ==> descriptor.spec_as_u64() == FLAT_CODE_DESCRIPTOR,
        access == DATA_SEGMENT_ACCESS ==> descriptor.spec_as_u64() == FLAT_DATA_DESCRIPTOR,
{
    let lower = descriptor.spec_lower();
    let upper = descriptor.spec_upper();
    assert((access == 0x00c0_9a00u32 ==> ((upper as u64) << 32) | (lower as u64)
        == 0x00cf_9a00_0000_ffffu64) && (access == 0x00c0_9200u32 ==> ((upper as u64) << 32) | (
    lower as u64) == 0x00cf_9200_0000_ffffu64)) by (bit_vector)
        requires
            lower == ((0u32 & 0xffff) << 16) | (0xffff_ffffu32 & 0xffff),
            upper == ((0u32 >> 16) & 0xff) | ((0u32 >> 24) << 24) | (((0xffff_ffffu32 >> 16) & 0xf)
                << 16) | access,
    ;
}

/// What the three access constants ask for.
proof fn lemma_access_bits()
    ensures
        CODE_SEGMENT_ACCESS & 0xff0f_00ff == 0,
        DATA_SEGMENT_ACCESS & 0xff0f_00ff == 0,
        TASK_SEGMENT_ACCESS & 0xff0f_00ff == 0,
        CODE_SEGMENT_ACCESS & 0x8000 != 0 && DATA_SEGMENT_ACCESS & 0x8000 != 0
            && TASK_SEGMENT_ACCESS & 0x8000 != 0,
        (CODE_SEGMENT_ACCESS >> 13) & 0x3 == 0 && (DATA_SEGMENT_ACCESS >> 13) & 0x3 == 0 && (
        TASK_SEGMENT_ACCESS >> 13) & 0x3 == 0,
        (CODE_SEGMENT_ACCESS >> 8) & 0x1f == 0x1a,
        (DATA_SEGMENT_ACCESS >> 8) & 0x1f == 0x12,
        (TASK_SEGMENT_ACCESS >> 8) & 0x1f == 0x09,
        CODE_SEGMENT_ACCESS & 0x0080_0000 != 0 && DATA_SEGMENT_ACCESS & 0x0080_0000 != 0
            && TASK_SEGMENT_ACCESS & 0x0080_0000 == 0,
        CODE_SEGMENT_ACCESS & 0x0040_0000 != 0 && DATA_SEGMENT_ACCESS & 0x0040_0000 != 0,
        0xffff_ffffu32 & 0x000f_ffff == 0x000f_ffff,
        0x1au32 & 0x18 == 0x18,
        0x12u32 & 0x1a == 0x12,
{
    assert(0x00c0_9a00u32 & 0xff0f_00ff == 0 && 0x00c0_9200u32 & 0xff0f_00ff == 0 && 0x0000_8900u32
        & 0xff0f_00ff == 0 && 0x00c0_9a00u32 & 0x8000 != 0 && 0x00c0_9200u32 & 0x8000 != 0
        && 0x0000_8900u32 & 0x8000 != 0 && (0x00c0_9a00u32 >> 13) & 0x3 == 0 && (0x00c0_9200u32
        >> 13) & 0x3 == 0 && (0x0000_8900u32 >> 13) & 0x3 == 0 && (0x00c0_9a00u32 >> 8) & 0x1f
        == 0x1a && (0x00c0_9200u32 >> 8) & 0x1f == 0x12 && (0x0000_8900u32 >> 8) & 0x1f == 0x09
        && 0x00c0_9a00u32 & 0x0080_0000 != 0 && 0x00c0_9200u32 & 0x0080_0000 != 0
        && 0x0000_8900u32 & 0x0080_0000 == 0 && 0x00c0_9a00u32 & 0x0040_0000 != 0
        && 0x00c0_9200u32 & 0x0040_0000 != 0 && 0xffff_ffffu32 & 0x000f_ffff == 0x000f_ffff
        && 0x1au32 & 0x18 == 0x18 && 0x12u32 & 0x1a == 0x12) by (bit_vector);
}

} // verus!
