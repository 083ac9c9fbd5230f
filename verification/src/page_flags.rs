//! The flag sets of the four kinds of PAE page-table entry.
//!
//! Each set is a `u64` in which only the bits that the entry kind gives a
//! meaning may be set; the bit positions are those of the entry itself, so a
//! flag set can be OR'd into an entry as it is.

use vstd::prelude::*;
use core::ops::BitOr;
use vstd::std_specs::ops::BitOrSpecImpl;

verus! {

pub const PRESENT_BIT: u64 = 0x1;
pub const READ_WRITE_BIT: u64 = 0x2;
pub const USER_SUPERVISOR_BIT: u64 = 0x4;
pub const PAGE_LEVEL_WRITETHROUGH_BIT: u64 = 0x8;
pub const PAGE_LEVEL_CACHE_DISABLE_BIT: u64 = 0x10;
pub const ACCESSED_BIT: u64 = 0x20;
pub const DIRTY_BIT: u64 = 0x40;
pub const PAGE_ATTRIBUTE_TABLE_4K_BIT: u64 = 0x80;
pub const GLOBAL_PAGE_BIT: u64 = 0x100;
pub const PAGE_ATTRIBUTE_TABLE_2MB_BIT: u64 = 0x1000;
pub const NO_EXECUTE_BIT: u64 = 0x8000_0000_0000_0000;

/// Every flag of a page-directory-pointer entry.
pub const L3_ALL_BITS: u64 = 0x19;
/// Every flag of a page-directory entry that points to a page table.
pub const L2_ALL_BITS: u64 = 0x8000_0000_0000_003f;
/// Every flag of a page-directory entry that maps a 2 MiB page.
pub const L2_2MB_ALL_BITS: u64 = 0x8000_0000_0000_117f;
/// Every flag of a page-table entry.
pub const L1_ALL_BITS: u64 = 0x8000_0000_0000_01ff;

/// A set of flags of one kind of page-table entry.
pub trait EntryFlags: Sized + Copy {
    /// The union of every flag of this kind.
    spec fn all_bits() -> u64;

    /// The flags held, each at its position in the entry.
    spec fn spec_bits(&self) -> u64;

    /// The set of every flag.
    fn all() -> (flags: Self)
        ensures
            flags.spec_bits() == Self::all_bits(),
    ;

    /// The flags held; never a bit outside `all_bits()`.
    fn bits(&self) -> (bits: u64)
        ensures
            bits == self.spec_bits(),
            bits & !Self::all_bits() == 0,
    ;

    /// The flags among `value`; bits that are no flag of this kind are dropped.
    fn from_bits_truncate(value: u64) -> (flags: Self)
        ensures
            flags.spec_bits() == value & Self::all_bits(),
    ;

    /// The flags held by either set.
    fn union(self, other: Self) -> (flags: Self)
        ensures
            flags.spec_bits() == self.spec_bits() | other.spec_bits(),
    ;
}

/// `a | b` stays inside `all` when both do.
pub proof fn lemma_union_within(a: u64, b: u64, all: u64)
    requires
        a & !all == 0,
        b & !all == 0,
    ensures
        (a | b) & !all == 0,
{
    assert((a | b) & !all == 0) by (bit_vector)
        requires
            a & !all == 0,
            b & !all == 0,
    ;
}

/// `value & all` stays inside `all`, and is `value` itself when `value` does.
pub proof fn lemma_truncate_within(value: u64, all: u64)
    ensures
        (value & all) & !all == 0,
        value & !all == 0 ==> value & all == value,
{
    assert((value & all) & !all == 0 && (value & !all == 0 ==> value & all == value))
        by (bit_vector);
}

/// Every flag constant lies inside the `*_ALL_BITS` of each kind that has it.
pub proof fn lemma_flags_within_all()
    ensures
        0u64 & !L3_ALL_BITS == 0,
        0u64 & !L2_ALL_BITS == 0,
        0u64 & !L2_2MB_ALL_BITS == 0,
        0u64 & !L1_ALL_BITS == 0,
        L3_ALL_BITS & !L3_ALL_BITS == 0,
        L2_ALL_BITS & !L2_ALL_BITS == 0,
        L2_2MB_ALL_BITS & !L2_2MB_ALL_BITS == 0,
        L1_ALL_BITS & !L1_ALL_BITS == 0,
        PRESENT_BIT & !L3_ALL_BITS == 0,
        PAGE_LEVEL_WRITETHROUGH_BIT & !L3_ALL_BITS == 0,
        PAGE_LEVEL_CACHE_DISABLE_BIT & !L3_ALL_BITS == 0,
        PRESENT_BIT & !L2_ALL_BITS == 0,
        READ_WRITE_BIT & !L2_ALL_BITS == 0,
        USER_SUPERVISOR_BIT & !L2_ALL_BITS == 0,
        PAGE_LEVEL_WRITETHROUGH_BIT & !L2_ALL_BITS == 0,
        PAGE_LEVEL_CACHE_DISABLE_BIT & !L2_ALL_BITS == 0,
        ACCESSED_BIT & !L2_ALL_BITS == 0,
        NO_EXECUTE_BIT & !L2_ALL_BITS == 0,
        PRESENT_BIT & !L2_2MB_ALL_BITS == 0,
        READ_WRITE_BIT & !L2_2MB_ALL_BITS == 0,
        USER_SUPERVISOR_BIT & !L2_2MB_ALL_BITS == 0,
        PAGE_LEVEL_WRITETHROUGH_BIT & !L2_2MB_ALL_BITS == 0,
        PAGE_LEVEL_CACHE_DISABLE_BIT & !L2_2MB_ALL_BITS == 0,
        ACCESSED_BIT & !L2_2MB_ALL_BITS == 0,
        DIRTY_BIT & !L2_2MB_ALL_BITS == 0,
        GLOBAL_PAGE_BIT & !L2_2MB_ALL_BITS == 0,
        PAGE_ATTRIBUTE_TABLE_2MB_BIT & !L2_2MB_ALL_BITS == 0,
        NO_EXECUTE_BIT & !L2_2MB_ALL_BITS == 0,
        PRESENT_BIT & !L1_ALL_BITS == 0,
        READ_WRITE_BIT & !L1_ALL_BITS == 0,
        USER_SUPERVISOR_BIT & !L1_ALL_BITS == 0,
        PAGE_LEVEL_WRITETHROUGH_BIT & !L1_ALL_BITS == 0,
        PAGE_LEVEL_CACHE_DISABLE_BIT & !L1_ALL_BITS == 0,
        ACCESSED_BIT & !L1_ALL_BITS == 0,
        DIRTY_BIT & !L1_ALL_BITS == 0,
        PAGE_ATTRIBUTE_TABLE_4K_BIT & !L1_ALL_BITS == 0,
        GLOBAL_PAGE_BIT & !L1_ALL_BITS == 0,
        NO_EXECUTE_BIT & !L1_ALL_BITS == 0,
{
    let l3 = L3_ALL_BITS;
    let l2 = L2_ALL_BITS;
    let l2m = L2_2MB_ALL_BITS;
    let l1 = L1_ALL_BITS;
    assert(0u64 & !l3 == 0 && 0u64 & !l2 == 0 && 0u64 & !l2m == 0 && 0u64 & !l1 == 0 && l3 & !l3
        == 0 && l2 & !l2 == 0 && l2m & !l2m == 0 && l1 & !l1 == 0 && 0x1u64 & !l3 == 0 && 0x8u64
        & !l3 == 0 && 0x10u64 & !l3 == 0 && 0x1u64 & !l2 == 0 && 0x2u64 & !l2 == 0 && 0x4u64 & !l2
        == 0 && 0x8u64 & !l2 == 0 && 0x10u64 & !l2 == 0 && 0x20u64 & !l2 == 0
        && 0x8000_0000_0000_0000u64 & !l2 == 0 && 0x1u64 & !l2m == 0 && 0x2u64 & !l2m == 0
        && 0x4u64 & !l2m == 0 && 0x8u64 & !l2m == 0 && 0x10u64 & !l2m == 0 && 0x20u64 & !l2m == 0
        && 0x40u64 & !l2m == 0 && 0x100u64 & !l2m == 0 && 0x1000u64 & !l2m == 0
        && 0x8000_0000_0000_0000u64 & !l2m == 0 && 0x1u64 & !l1 == 0 && 0x2u64 & !l1 == 0
        && 0x4u64 & !l1 == 0 && 0x8u64 & !l1 == 0 && 0x10u64 & !l1 == 0 && 0x20u64 & !l1 == 0
        && 0x40u64 & !l1 == 0 && 0x80u64 & !l1 == 0 && 0x100u64 & !l1 == 0
        && 0x8000_0000_0000_0000u64 & !l1 == 0) by (bit_vector)
        requires
            l3 == 0x19u64,
            l2 == 0x8000_0000_0000_003fu64,
            l2m == 0x8000_0000_0000_117fu64,
            l1 == 0x8000_0000_0000_01ffu64,
    ;
}

/// Flags of a page-directory-pointer entry (level 3).
#[derive(Clone, Copy, Debug)]
pub struct L3Flags {
    bits: u64,
}

impl L3Flags {
    #[verifier::type_invariant]
    spec fn within_all(self) -> bool {
        self.bits & !L3_ALL_BITS == 0
    }

    /// No flag at all.
    pub fn empty() -> (flags: Self)
        ensures
            flags.spec_bits() == 0,
    {
        proof {
            lemma_flags_within_all();
        }
        L3Flags { bits: 0 }
    }

    /// The entry is in use.
    pub fn present() -> (flags: Self)
        ensures
            flags.spec_bits() == PRESENT_BIT,
    {
        proof {
            lemma_flags_within_all();
        }
        L3Flags { bits: PRESENT_BIT }
    }

    /// Write-through caching.
    pub fn page_level_writethrough() -> (flags: Self)
        ensures
            flags.spec_bits() == PAGE_LEVEL_WRITETHROUGH_BIT,
    {
        proof {
            lemma_flags_within_all();
        }
        L3Flags { bits: PAGE_LEVEL_WRITETHROUGH_BIT }
    }

    /// Caching is disabled.
    pub fn page_level_cache_disable() -> (flags: Self)
        ensures
            flags.spec_bits() == PAGE_LEVEL_CACHE_DISABLE_BIT,
    {
        proof {
            lemma_flags_within_all();
        }
        L3Flags { bits: PAGE_LEVEL_CACHE_DISABLE_BIT }
    }

    /// Whether every flag of `other` is held.
    pub fn contains(&self, other: Self) -> (held: bool)
        ensures
            held == (self.spec_bits() & other.spec_bits() == other.spec_bits()),
    {
        self.bits & other.bits == other.bits
    }
}

impl EntryFlags for L3Flags {
    open spec fn all_bits() -> u64 {
        L3_ALL_BITS
    }

    closed spec fn spec_bits(&self) -> u64 {
        self.bits
    }

    fn all() -> (flags: Self) {
        proof {
            lemma_flags_within_all();
        }
        L3Flags { bits: L3_ALL_BITS }
    }

    fn bits(&self) -> (bits: u64) {
        proof {
            use_type_invariant(self);
        }
        self.bits
    }

    fn from_bits_truncate(value: u64) -> (flags: Self) {
        proof {
            lemma_truncate_within(value, L3_ALL_BITS);
        }
        L3Flags { bits: value & L3_ALL_BITS }
    }

    fn union(self, other: Self) -> (flags: Self) {
        proof {
            use_type_invariant(self);
            use_type_invariant(other);
            lemma_union_within(self.bits, other.bits, L3_ALL_BITS);
        }
        L3Flags { bits: self.bits | other.bits }
    }
}

impl BitOr for L3Flags {
    type Output = L3Flags;

    fn bitor(self, rhs: L3Flags) -> (flags: L3Flags)
        ensures
            flags.spec_bits() == self.spec_bits() | rhs.spec_bits(),
    {
        self.union(rhs)
    }
}

impl BitOrSpecImpl for L3Flags {
    open spec fn obeys_bitor_spec() -> bool {
        true
    }

    open spec fn bitor_req(self, rhs: L3Flags) -> bool {
        true
    }

    closed spec fn bitor_spec(self, rhs: L3Flags) -> L3Flags {
        L3Flags { bits: self.bits | rhs.bits }
    }
}

/// Flags of a page-directory entry that points to a page table (level 2).
#[derive(Clone, Copy, Debug)]
pub struct L2Flags {
    bits: u64,
}

impl L2Flags {
    #[verifier::type_invariant]
    spec fn within_all(self) -> bool {
        self.bits & !L2_ALL_BITS == 0
    }

    /// No flag at all.
    pub fn empty() -> (flags: Self)
        ensures
            flags.spec_bits() == 0,
    {
        proof {
            lemma_flags_within_all();
        }
        L2Flags { bits: 0 }
    }

    /// The entry is in use.
    pub fn present() -> (flags: Self)
        ensures
            flags.spec_bits() == PRESENT_BIT,
    {
        proof {
            lemma_flags_within_all();
        }
        L2Flags { bits: PRESENT_BIT }
    }

    /// Writes are allowed.
    pub fn read_write() -> (flags: Self)
        ensures
            flags.spec_bits() == READ_WRITE_BIT,
    {
        proof {
            lemma_flags_within_all();
        }
        L2Flags { bits: READ_WRITE_BIT }
    }

    /// User-mode accesses are allowed.
    pub fn user_supervisor() -> (flags: Self)
        ensures
            flags.spec_bits() == USER_SUPERVISOR_BIT,
    {
        proof {
            lemma_flags_within_all();
        }
        L2Flags { bits: USER_SUPERVISOR_BIT }
    }

    /// Write-through caching.
    pub fn page_level_writethrough() -> (flags: Self)
        ensures
            flags.spec_bits() == PAGE_LEVEL_WRITETHROUGH_BIT,
    {
        proof {
            lemma_flags_within_all();
        }
        L2Flags { bits: PAGE_LEVEL_WRITETHROUGH_BIT }
    }

    /// Caching is disabled.
    pub fn page_level_cache_disable() -> (flags: Self)
        ensures
            flags.spec_bits() == PAGE_LEVEL_CACHE_DISABLE_BIT,
    {
        proof {
            lemma_flags_within_all();
        }
        L2Flags { bits: PAGE_LEVEL_CACHE_DISABLE_BIT }
    }

    /// Set by the CPU when the entry is used.
    pub fn accessed() -> (flags: Self)
        ensures
            flags.spec_bits() == ACCESSED_BIT,
    {
        proof {
            lemma_flags_within_all();
        }
        L2Flags { bits: ACCESSED_BIT }
    }

    /// Instruction fetches are refused.
    pub fn no_execute() -> (flags: Self)
        ensures
            flags.spec_bits() == NO_EXECUTE_BIT,
    {
        proof {
            lemma_flags_within_all();
        }
        L2Flags { bits: NO_EXECUTE_BIT }
    }

    /// Whether every flag of `other` is held.
    pub fn contains(&self, other: Self) -> (held: bool)
        ensures
            held == (self.spec_bits() & other.spec_bits() == other.spec_bits()),
    {
        self.bits & other.bits == other.bits
    }
}

impl EntryFlags for L2Flags {
    open spec fn all_bits() -> u64 {
        L2_ALL_BITS
    }

    closed spec fn spec_bits(&self) -> u64 {
        self.bits
    }

    fn all() -> (flags: Self) {
        proof {
            lemma_flags_within_all();
        }
        L2Flags { bits: L2_ALL_BITS }
    }

    fn bits(&self) -> (bits: u64) {
        proof {
            use_type_invariant(self);
        }
        self.bits
    }

    fn from_bits_truncate(value: u64) -> (flags: Self) {
        proof {
            lemma_truncate_within(value, L2_ALL_BITS);
        }
        L2Flags { bits: value & L2_ALL_BITS }
    }

    fn union(self, other: Self) -> (flags: Self) {
        proof {
            use_type_invariant(self);
            use_type_invariant(other);
            lemma_union_within(self.bits, other.bits, L2_ALL_BITS);
        }
        L2Flags { bits: self.bits | other.bits }
    }
}

impl BitOr for L2Flags {
    type Output = L2Flags;

    fn bitor(self, rhs: L2Flags) -> (flags: L2Flags)
        ensures
            flags.spec_bits() == self.spec_bits() | rhs.spec_bits(),
    {
        self.union(rhs)
    }
}

impl BitOrSpecImpl for L2Flags {
    open spec fn obeys_bitor_spec() -> bool {
        true
    }

    open spec fn bitor_req(self, rhs: L2Flags) -> bool {
        true
    }

    closed spec fn bitor_spec(self, rhs: L2Flags) -> L2Flags {
        L2Flags { bits: self.bits | rhs.bits }
    }
}

/// Flags of a page-directory entry that maps a 2 MiB page (level 2).
#[derive(Clone, Copy, Debug)]
pub struct L2Flags2MB {
    bits: u64,
}

impl L2Flags2MB {
    #[verifier::type_invariant]
    spec fn within_all(self) -> bool {
        self.bits & !L2_2MB_ALL_BITS == 0
    }

    /// No flag at all.
    pub fn empty() -> (flags: Self)
        ensures
            flags.spec_bits() == 0,
    {
        proof {
            lemma_flags_within_all();
        }
        L2Flags2MB { bits: 0 }
    }

    /// The entry is in use.
    pub fn present() -> (flags: Self)
        ensures
            flags.spec_bits() == PRESENT_BIT,
    {
        proof {
            lemma_flags_within_all();
        }
        L2Flags2MB { bits: PRESENT_BIT }
    }

    /// Writes are allowed.
    pub fn read_write() -> (flags: Self)
        ensures
            flags.spec_bits() == READ_WRITE_BIT,
    {
        proof {
            lemma_flags_within_all();
        }
        L2Flags2MB { bits: READ_WRITE_BIT }
    }

    /// User-mode accesses are allowed.
    pub fn user_supervisor() -> (flags: Self)
        ensures
            flags.spec_bits() == USER_SUPERVISOR_BIT,
    {
        proof {
            lemma_flags_within_all();
        }
        L2Flags2MB { bits: USER_SUPERVISOR_BIT }
    }

    /// Write-through caching.
    pub fn page_level_writethrough() -> (flags: Self)
        ensures
            flags.spec_bits() == PAGE_LEVEL_WRITETHROUGH_BIT,
    {
        proof {
            lemma_flags_within_all();
        }
        L2Flags2MB { bits: PAGE_LEVEL_WRITETHROUGH_BIT }
    }

    /// Caching is disabled.
    pub fn page_level_cache_disable() -> (flags: Self)
        ensures
            flags.spec_bits() == PAGE_LEVEL_CACHE_DISABLE_BIT,
    {
        proof {
            lemma_flags_within_all();
        }
        L2Flags2MB { bits: PAGE_LEVEL_CACHE_DISABLE_BIT }
    }

    /// Set by the CPU when the entry is used.
    pub fn accessed() -> (flags: Self)
        ensures
            flags.spec_bits() == ACCESSED_BIT,
    {
        proof {
            lemma_flags_within_all();
        }
        L2Flags2MB { bits: ACCESSED_BIT }
    }

    /// Set by the CPU when the page is written.
    pub fn dirty() -> (flags: Self)
        ensures
            flags.spec_bits() == DIRTY_BIT,
    {
        proof {
            lemma_flags_within_all();
        }
        L2Flags2MB { bits: DIRTY_BIT }
    }

    /// The mapping survives a change of CR3.
    pub fn global_page() -> (flags: Self)
        ensures
            flags.spec_bits() == GLOBAL_PAGE_BIT,
    {
        proof {
            lemma_flags_within_all();
        }
        L2Flags2MB { bits: GLOBAL_PAGE_BIT }
    }

    /// Selects the page-attribute table entry.
    pub fn page_attribute_table() -> (flags: Self)
        ensures
            flags.spec_bits() == PAGE_ATTRIBUTE_TABLE_2MB_BIT,
    {
        proof {
            lemma_flags_within_all();
        }
        L2Flags2MB { bits: PAGE_ATTRIBUTE_TABLE_2MB_BIT }
    }

    /// Instruction fetches are refused.
    pub fn no_execute() -> (flags: Self)
        ensures
            flags.spec_bits() == NO_EXECUTE_BIT,
    {
        proof {
            lemma_flags_within_all();
        }
        L2Flags2MB { bits: NO_EXECUTE_BIT }
    }

    /// Whether every flag of `other` is held.
    pub fn contains(&self, other: Self) -> (held: bool)
        ensures
            held == (self.spec_bits() & other.spec_bits() == other.spec_bits()),
    {
        self.bits & other.bits == other.bits
    }
}

impl EntryFlags for L2Flags2MB {
    open spec fn all_bits() -> u64 {
        L2_2MB_ALL_BITS
    }

    closed spec fn spec_bits(&self) -> u64 {
        self.bits
    }

    fn all() -> (flags: Self) {
        proof {
            lemma_flags_within_all();
        }
        L2Flags2MB { bits: L2_2MB_ALL_BITS }
    }

    fn bits(&self) -> (bits: u64) {
        proof {
            use_type_invariant(self);
        }
        self.bits
    }

    fn from_bits_truncate(value: u64) -> (flags: Self) {
        proof {
            lemma_truncate_within(value, L2_2MB_ALL_BITS);
        }
        L2Flags2MB { bits: value & L2_2MB_ALL_BITS }
    }

    fn union(self, other: Self) -> (flags: Self) {
        proof {
            use_type_invariant(self);
            use_type_invariant(other);
            lemma_union_within(self.bits, other.bits, L2_2MB_ALL_BITS);
        }
        L2Flags2MB { bits: self.bits | other.bits }
    }
}

impl BitOr for L2Flags2MB {
    type Output = L2Flags2MB;

    fn bitor(self, rhs: L2Flags2MB) -> (flags: L2Flags2MB)
        ensures
            flags.spec_bits() == self.spec_bits() | rhs.spec_bits(),
    {
        self.union(rhs)
    }
}

impl BitOrSpecImpl for L2Flags2MB {
    open spec fn obeys_bitor_spec() -> bool {
        true
    }

    open spec fn bitor_req(self, rhs: L2Flags2MB) -> bool {
        true
    }

    closed spec fn bitor_spec(self, rhs: L2Flags2MB) -> L2Flags2MB {
        L2Flags2MB { bits: self.bits | rhs.bits }
    }
}

/// Flags of a page-table entry (level 1).
#[derive(Clone, Copy, Debug)]
pub struct L1Flags {
    bits: u64,
}

impl L1Flags {
    #[verifier::type_invariant]
    spec fn within_all(self) -> bool {
        self.bits & !L1_ALL_BITS == 0
    }

    /// No flag at all.
    pub fn empty() -> (flags: Self)
        ensures
            flags.spec_bits() == 0,
    {
        proof {
            lemma_flags_within_all();
        }
        L1Flags { bits: 0 }
    }

    /// The entry is in use.
    pub fn present() -> (flags: Self)
        ensures
            flags.spec_bits() == PRESENT_BIT,
    {
        proof {
            lemma_flags_within_all();
        }
        L1Flags { bits: PRESENT_BIT }
    }

    /// Writes are allowed.
    pub fn read_write() -> (flags: Self)
        ensures
            flags.spec_bits() == READ_WRITE_BIT,
    {
        proof {
            lemma_flags_within_all();
        }
        L1Flags { bits: READ_WRITE_BIT }
    }

    /// User-mode accesses are allowed.
    pub fn user_supervisor() -> (flags: Self)
        ensures
            flags.spec_bits() == USER_SUPERVISOR_BIT,
    {
        proof {
            lemma_flags_within_all();
        }
        L1Flags { bits: USER_SUPERVISOR_BIT }
    }

    /// Write-through caching.
    pub fn page_level_writethrough() -> (flags: Self)
        ensures
            flags.spec_bits() == PAGE_LEVEL_WRITETHROUGH_BIT,
    {
        proof {
            lemma_flags_within_all();
        }
        L1Flags { bits: PAGE_LEVEL_WRITETHROUGH_BIT }
    }

    /// Caching is disabled.
    pub fn page_level_cache_disable() -> (flags: Self)
        ensures
            flags.spec_bits() == PAGE_LEVEL_CACHE_DISABLE_BIT,
    {
        proof {
            lemma_flags_within_all();
        }
        L1Flags { bits: PAGE_LEVEL_CACHE_DISABLE_BIT }
    }

    /// Set by the CPU when the entry is used.
    pub fn accessed() -> (flags: Self)
        ensures
            flags.spec_bits() == ACCESSED_BIT,
    {
        proof {
            lemma_flags_within_all();
        }
        L1Flags { bits: ACCESSED_BIT }
    }

    /// Set by the CPU when the page is written.
    pub fn dirty() -> (flags: Self)
        ensures
            flags.spec_bits() == DIRTY_BIT,
    {
        proof {
            lemma_flags_within_all();
        }
        L1Flags { bits: DIRTY_BIT }
    }

    /// Selects the page-attribute table entry.
    pub fn page_attribute_table() -> (flags: Self)
        ensures
            flags.spec_bits() == PAGE_ATTRIBUTE_TABLE_4K_BIT,
    {
        proof {
            lemma_flags_within_all();
        }
        L1Flags { bits: PAGE_ATTRIBUTE_TABLE_4K_BIT }
    }

    /// The mapping survives a change of CR3.
    pub fn global_page() -> (flags: Self)
        ensures
            flags.spec_bits() == GLOBAL_PAGE_BIT,
    {
        proof {
            lemma_flags_within_all();
        }
        L1Flags { bits: GLOBAL_PAGE_BIT }
    }

    /// Instruction fetches are refused.
    pub fn no_execute() -> (flags: Self)
        ensures
            flags.spec_bits() == NO_EXECUTE_BIT,
    {
        proof {
            lemma_flags_within_all();
        }
        L1Flags { bits: NO_EXECUTE_BIT }
    }

    /// Whether every flag of `other` is held.
    pub fn contains(&self, other: Self) -> (held: bool)
        ensures
            held == (self.spec_bits() & other.spec_bits() == other.spec_bits()),
    {
        self.bits & other.bits == other.bits
    }
}

impl EntryFlags for L1Flags {
    open spec fn all_bits() -> u64 {
        L1_ALL_BITS
    }

    closed spec fn spec_bits(&self) -> u64 {
        self.bits
    }

    fn all() -> (flags: Self) {
        proof {
            lemma_flags_within_all();
        }
        L1Flags { bits: L1_ALL_BITS }
    }

    fn bits(&self) -> (bits: u64) {
        proof {
            use_type_invariant(self);
        }
        self.bits
    }

    fn from_bits_truncate(value: u64) -> (flags: Self) {
        proof {
            lemma_truncate_within(value, L1_ALL_BITS);
        }
        L1Flags { bits: value & L1_ALL_BITS }
    }

    fn union(self, other: Self) -> (flags: Self) {
        proof {
            use_type_invariant(self);
            use_type_invariant(other);
            lemma_union_within(self.bits, other.bits, L1_ALL_BITS);
        }
        L1Flags { bits: self.bits | other.bits }
    }
}

impl BitOr for L1Flags {
    type Output = L1Flags;

    fn bitor(self, rhs: L1Flags) -> (flags: L1Flags)
        ensures
            flags.spec_bits() == self.spec_bits() | rhs.spec_bits(),
    {
        self.union(rhs)
    }
}

impl BitOrSpecImpl for L1Flags {
    open spec fn obeys_bitor_spec() -> bool {
        true
    }

    open spec fn bitor_req(self, rhs: L1Flags) -> bool {
        true
    }

    closed spec fn bitor_spec(self, rhs: L1Flags) -> L1Flags {
        L1Flags { bits: self.bits | rhs.bits }
    }
}

/// Each `*_ALL_BITS` constant is the union of the flags of its kind.
pub proof fn lemma_all_bits_are_the_flags()
    ensures
        L3_ALL_BITS == PRESENT_BIT | PAGE_LEVEL_WRITETHROUGH_BIT | PAGE_LEVEL_CACHE_DISABLE_BIT,
        L2_ALL_BITS == PRESENT_BIT | READ_WRITE_BIT | USER_SUPERVISOR_BIT
            | PAGE_LEVEL_WRITETHROUGH_BIT | PAGE_LEVEL_CACHE_DISABLE_BIT | ACCESSED_BIT
            | NO_EXECUTE_BIT,
        L2_2MB_ALL_BITS == PRESENT_BIT | READ_WRITE_BIT | USER_SUPERVISOR_BIT
            | PAGE_LEVEL_WRITETHROUGH_BIT | PAGE_LEVEL_CACHE_DISABLE_BIT | ACCESSED_BIT | DIRTY_BIT
            | GLOBAL_PAGE_BIT | PAGE_ATTRIBUTE_TABLE_2MB_BIT | NO_EXECUTE_BIT,
        L1_ALL_BITS == PRESENT_BIT | READ_WRITE_BIT | USER_SUPERVISOR_BIT
            | PAGE_LEVEL_WRITETHROUGH_BIT | PAGE_LEVEL_CACHE_DISABLE_BIT | ACCESSED_BIT | DIRTY_BIT
            | PAGE_ATTRIBUTE_TABLE_4K_BIT | GLOBAL_PAGE_BIT | NO_EXECUTE_BIT,
{
    assert(0x19u64 == 0x1u64 | 0x8u64 | 0x10u64 && 0x8000_0000_0000_003fu64 == 0x1u64 | 0x2u64
        | 0x4u64 | 0x8u64 | 0x10u64 | 0x20u64 | 0x8000_0000_0000_0000u64
        && 0x8000_0000_0000_117fu64 == 0x1u64 | 0x2u64 | 0x4u64 | 0x8u64 | 0x10u64 | 0x20u64
        | 0x40u64 | 0x100u64 | 0x1000u64 | 0x8000_0000_0000_0000u64 && 0x8000_0000_0000_01ffu64
        == 0x1u64 | 0x2u64 | 0x4u64 | 0x8u64 | 0x10u64 | 0x20u64 | 0x40u64 | 0x80u64 | 0x100u64
        | 0x8000_0000_0000_0000u64) by (bit_vector);
}

} // verus!
