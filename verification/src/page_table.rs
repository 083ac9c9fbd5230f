//! PAE page-table entries, the identity map built from them and the CR3
//! payload that points the CPU at it.

use vstd::prelude::*;
use core::marker::PhantomData;
pub use crate::page_flags::EntryFlags;
pub use crate::page_flags::L1Flags;
pub use crate::page_flags::L2Flags;
pub use crate::page_flags::L2Flags2MB;
pub use crate::page_flags::L3Flags;
use crate::page_flags::L1_ALL_BITS;
use crate::page_flags::L2_2MB_ALL_BITS;
use crate::page_flags::L2_ALL_BITS;
use crate::page_flags::L3_ALL_BITS;
use crate::page_flags::NO_EXECUTE_BIT;
use crate::page_flags::PAGE_LEVEL_CACHE_DISABLE_BIT;
use crate::page_flags::PRESENT_BIT;
use crate::page_flags::READ_WRITE_BIT;
use crate::page_flags::USER_SUPERVISOR_BIT;
use crate::resource::AcquireOnce;

verus! {

/// Bytes in a mebibyte.
pub const MIBIBYTE: u64 = 1024 * 1024;

/// Bytes in a gibibyte.
pub const GIBIBYTE: u64 = MIBIBYTE * 1024;

/// Address bits of an entry that points to a table or a 4 KiB page: 12 to 51.
pub const PHYSICAL_ADDRESS_MASK: u64 = 0x000f_ffff_ffff_f000;

/// Address bits of an entry that maps a 2 MiB page: 21 to 51.
pub const PHYSICAL_ADDRESS_MASK_2MB_PDE: u64 = 0x000f_ffff_ffe0_0000;

/// The page-size bit, which makes a page-directory entry map a 2 MiB page.
pub const ENABLE_2MB_PAGES: u64 = 0x80;

/// How one kind of entry holds a physical address: which bits carry it and
/// which bits the kind sets beside it.
pub trait PhysicalAddressHandler {
    /// The bits of an entry that carry the address.
    const MASK: u64;

    /// `MASK` in words, for messages.
    const MASK_STR: &'static str;

    /// Bits that every entry of this kind has set.
    const REQUIRED_FLAGS: u64;

    /// The address held in `entry`.
    fn extract(entry: &u64) -> (address: u64)
        ensures
            address == *entry & Self::MASK,
    {
        *entry & Self::MASK
    }

    /// The address as it stands in an entry, with the bits that the kind
    /// requires. The address must lie wholly inside `MASK`.
    fn to_entry_format(address: &u64) -> (formatted: u64)
        requires
            *address & !Self::MASK == 0,
        ensures
            formatted == *address | Self::REQUIRED_FLAGS,
    {
        *address | Self::REQUIRED_FLAGS
    }

    /// `to_entry_format`, or `None` for an address with a bit outside `MASK`.
    fn checked_entry_format(address: &u64) -> (formatted: Option<u64>)
        ensures
            formatted.is_some() == (*address & !Self::MASK == 0),
            formatted.is_some() ==> formatted.unwrap() == *address | Self::REQUIRED_FLAGS,
    {
        if *address & !Self::MASK != 0 {
            None
        } else {
            Some(*address | Self::REQUIRED_FLAGS)
        }
    }
}

/// Whether an entry of kind `A` can hold `address`: no bit outside the mask.
pub open spec fn accepts<A: PhysicalAddressHandler>(address: u64) -> bool {
    address & !A::MASK == 0
}

/// The address field of an entry of kind `A` that holds `address`.
pub open spec fn entry_format<A: PhysicalAddressHandler>(address: u64) -> u64 {
    address | A::REQUIRED_FLAGS
}

/// The entry of kind `A` that holds `address` and the flags `flag_bits`.
pub open spec fn encode<A: PhysicalAddressHandler>(address: u64, flag_bits: u64) -> u64 {
    entry_format::<A>(address) | flag_bits
}

/// The address that an entry of kind `A` holds.
pub open spec fn decode_address<A: PhysicalAddressHandler>(entry: u64) -> u64 {
    entry & A::MASK
}

/// The flags of kind `F` that an entry holds.
pub open spec fn decode_flags<F: EntryFlags>(entry: u64) -> u64 {
    entry & F::all_bits()
}

/// Whether the address, the required bits and the flags of an entry with
/// flags `F` and addresses `A` lie in separate bits, so that none can be
/// mistaken for another.
pub open spec fn fields_disjoint<F: EntryFlags, A: PhysicalAddressHandler>() -> bool {
    &&& A::MASK & F::all_bits() == 0
    &&& A::MASK & A::REQUIRED_FLAGS == 0
    &&& A::REQUIRED_FLAGS & F::all_bits() == 0
}

/// Addresses of tables and of 4 KiB pages.
#[derive(Copy, Clone)]
pub struct PhysicalAddressHandlerNormal;

impl PhysicalAddressHandler for PhysicalAddressHandlerNormal {
    const MASK: u64 = PHYSICAL_ADDRESS_MASK;

    const MASK_STR: &'static str = "bits 12 to 51";

    const REQUIRED_FLAGS: u64 = 0;
}

/// Addresses of 2 MiB pages in a page-directory entry.
#[derive(Copy, Clone)]
pub struct PhysicalAddressHandler2MBytesPDE;

impl PhysicalAddressHandler for PhysicalAddressHandler2MBytesPDE {
    const MASK: u64 = PHYSICAL_ADDRESS_MASK_2MB_PDE;

    const MASK_STR: &'static str = "bits 21 to 51";

    const REQUIRED_FLAGS: u64 = ENABLE_2MB_PAGES;
}

/// An entry for a table or a 4 KiB page holds exactly the addresses that are
/// aligned to 4 KiB and below 2^52; one for a 2 MiB page, those aligned to
/// 2 MiB and below 2^52. Any other address is refused.
pub proof fn lemma_accepts_iff_aligned(address: u64)
    ensures
        accepts::<PhysicalAddressHandlerNormal>(address) <==> (address % 0x1000 == 0 && address
            < 0x10_0000_0000_0000),
        accepts::<PhysicalAddressHandler2MBytesPDE>(address) <==> (address % 0x20_0000 == 0
            && address < 0x10_0000_0000_0000),
{
    assert((address & !0x000f_ffff_ffff_f000u64 == 0) == (address % 0x1000 == 0 && address
        < 0x10_0000_0000_0000) && (address & !0x000f_ffff_ffe0_0000u64 == 0) == (address
        % 0x20_0000 == 0 && address < 0x10_0000_0000_0000)) by (bit_vector);
}

/// At each of the four levels the address, the required bits and the flags
/// lie in separate bits.
pub proof fn lemma_levels_fields_disjoint()
    ensures
        fields_disjoint::<L3Flags, PhysicalAddressHandlerNormal>(),
        fields_disjoint::<L2Flags, PhysicalAddressHandlerNormal>(),
        fields_disjoint::<L2Flags2MB, PhysicalAddressHandler2MBytesPDE>(),
        fields_disjoint::<L1Flags, PhysicalAddressHandlerNormal>(),
{
    let l3 = L3_ALL_BITS;
    let l2 = L2_ALL_BITS;
    let l2m = L2_2MB_ALL_BITS;
    let l1 = L1_ALL_BITS;
    let ps = ENABLE_2MB_PAGES;
    assert(0x000f_ffff_ffff_f000u64 & l3 == 0 && 0x000f_ffff_ffff_f000u64 & l2 == 0
        && 0x000f_ffff_ffff_f000u64 & l1 == 0 && 0x000f_ffff_ffe0_0000u64 & l2m == 0
        && 0x000f_ffff_ffe0_0000u64 & ps == 0 && ps & l2m == 0 && 0x000f_ffff_ffff_f000u64 & 0
        == 0 && 0u64 & l3 == 0 && 0u64 & l2 == 0 && 0u64 & l1 == 0) by (bit_vector)
        requires
            l3 == 0x19u64,
            l2 == 0x8000_0000_0000_003fu64,
            l2m == 0x8000_0000_0000_117fu64,
            l1 == 0x8000_0000_0000_01ffu64,
            ps == 0x80u64,
    ;
}

/// Decoding an encoded entry gives back the address and the flags, whenever
/// the entry can hold the address, the flags are flags of the kind, and the
/// fields of the kind lie in separate bits.
pub proof fn lemma_encode_decode_round_trip<F: EntryFlags, A: PhysicalAddressHandler>(
    address: u64,
    flag_bits: u64,
)
    requires
        fields_disjoint::<F, A>(),
        accepts::<A>(address),
        flag_bits & !F::all_bits() == 0,
    ensures
        decode_address::<A>(encode::<A>(address, flag_bits)) == address,
        decode_flags::<F>(encode::<A>(address, flag_bits)) == flag_bits,
{
    let mask = A::MASK;
    let required = A::REQUIRED_FLAGS;
    let all = F::all_bits();
    assert(((address | required) | flag_bits) & mask == address && ((address | required)
        | flag_bits) & all == flag_bits) by (bit_vector)
        requires
            mask & all == 0,
            mask & required == 0,
            required & all == 0,
            address & !mask == 0,
            flag_bits & !all == 0,
    ;
}

/// Replacing one field of an entry leaves the other as it was and stores the
/// new value, under the conditions of the round trip.
pub proof fn lemma_field_updates<F: EntryFlags, A: PhysicalAddressHandler>(
    entry: u64,
    address: u64,
    flag_bits: u64,
)
    requires
        fields_disjoint::<F, A>(),
        accepts::<A>(address),
        flag_bits & !F::all_bits() == 0,
    ensures
        decode_flags::<F>(with_flags::<F>(entry, flag_bits)) == flag_bits,
        decode_address::<A>(with_flags::<F>(entry, flag_bits)) == decode_address::<A>(entry),
        decode_address::<A>(with_address::<A>(entry, address)) == address,
        decode_flags::<F>(with_address::<A>(entry, address)) == decode_flags::<F>(entry),
{
    let mask = A::MASK;
    let required = A::REQUIRED_FLAGS;
    let all = F::all_bits();
    assert(((entry & !all) | flag_bits) & all == flag_bits && ((entry & !all) | flag_bits) & mask
        == entry & mask && ((entry & !mask) | (address | required)) & mask == address && ((entry
        & !mask) | (address | required)) & all == entry & all) by (bit_vector)
        requires
            mask & all == 0,
            mask & required == 0,
            required & all == 0,
            address & !mask == 0,
            flag_bits & !all == 0,
    ;
}

/// `entry` with its flags of kind `F` replaced by `flag_bits`.
pub open spec fn with_flags<F: EntryFlags>(entry: u64, flag_bits: u64) -> u64 {
    (entry & !F::all_bits()) | flag_bits
}

/// `entry` with its address replaced by `address`, as kind `A` holds it.
pub open spec fn with_address<A: PhysicalAddressHandler>(entry: u64, address: u64) -> u64 {
    (entry & !A::MASK) | entry_format::<A>(address)
}

/// One 64-bit entry of a page table, with flags of kind `F` and an address
/// held as `A` says.
pub struct GenericPageTableEntry<F: EntryFlags, A: PhysicalAddressHandler>(
    u64,
    PhantomData<F>,
    PhantomData<A>,
);

impl<F: EntryFlags, A: PhysicalAddressHandler> Clone for GenericPageTableEntry<F, A> {
    fn clone(&self) -> (copy: Self)
        ensures
            copy == *self,
    {
        GenericPageTableEntry(self.0, PhantomData, PhantomData)
    }
}

impl<F: EntryFlags, A: PhysicalAddressHandler> Copy for GenericPageTableEntry<F, A> {

}

impl<F: EntryFlags, A: PhysicalAddressHandler> GenericPageTableEntry<F, A> {
    /// The 64 bits of the entry, as the CPU reads them.
    pub closed spec fn spec_raw(&self) -> u64 {
        self.0
    }

    /// The 64 bits of the entry, as the CPU reads them.
    #[verifier::when_used_as_spec(spec_raw)]
    pub fn raw(&self) -> (bits: u64)
        ensures
            bits == self.spec_raw(),
    {
        self.0
    }

    /// The entry with every bit clear: not present.
    pub fn zero() -> (entry: Self)
        ensures
            entry.raw() == 0,
    {
        GenericPageTableEntry(0, PhantomData, PhantomData)
    }

    /// The entry that holds `address` and `flags`.
    pub fn new(address: u64, flags: F) -> (entry: Self)
        requires
            accepts::<A>(address),
        ensures
            entry.raw() == encode::<A>(address, flags.spec_bits()),
            fields_disjoint::<F, A>() ==> decode_address::<A>(entry.raw()) == address
                && decode_flags::<F>(entry.raw()) == flags.spec_bits(),
    {
        let flag_bits = flags.bits();
        let entry = A::to_entry_format(&address) | flag_bits;
        proof {
            if fields_disjoint::<F, A>() {
                lemma_encode_decode_round_trip::<F, A>(address, flag_bits);
            }
        }
        GenericPageTableEntry(entry, PhantomData, PhantomData)
    }

    /// `new`, or `None` for an address that the entry kind cannot hold.
    pub fn try_new(address: u64, flags: F) -> (entry: Option<Self>)
        ensures
            entry.is_some() == accepts::<A>(address),
            entry.is_some() ==> entry.unwrap().raw() == encode::<A>(address, flags.spec_bits()),
    {
        match A::checked_entry_format(&address) {
            Some(formatted) => Some(
                GenericPageTableEntry(formatted | flags.bits(), PhantomData, PhantomData),
            ),
            None => None,
        }
    }

    /// The flags that the entry holds.
    pub fn flags(&self) -> (flags: F)
        ensures
            flags.spec_bits() == decode_flags::<F>(self.raw()),
    {
        F::from_bits_truncate(self.0)
    }

    /// Replaces the flags and leaves every other bit as it was.
    pub fn flags_mut(&mut self, flags: F)
        ensures
            final(self).raw() == with_flags::<F>(old(self).raw(), flags.spec_bits()),
            decode_flags::<F>(final(self).raw()) == flags.spec_bits(),
            fields_disjoint::<F, A>() ==> decode_address::<A>(final(self).raw())
                == decode_address::<A>(old(self).raw()),
    {
        let all = F::all().bits();
        let flag_bits = flags.bits();
        let ghost before = self.0;
        self.0 = (self.0 & !all) | flag_bits;
        proof {
            let mask = A::MASK;
            assert(((before & !all) | flag_bits) & all == flag_bits) by (bit_vector)
                requires
                    flag_bits & !all == 0,
            ;
            assert(mask & all == 0 ==> ((before & !all) | flag_bits) & mask == before & mask)
                by (bit_vector)
                requires
                    flag_bits & !all == 0,
            ;
        }
    }

    /// The address that the entry holds.
    pub fn address(&self) -> (address: u64)
        ensures
            address == decode_address::<A>(self.raw()),
    {
        A::extract(&self.0)
    }

    /// Replaces the address and leaves every bit outside the address mask
    /// as it was, but for the bits that the entry kind requires, which are
    /// set.
    pub fn address_mut(&mut self, address: u64)
        requires
            accepts::<A>(address),
        ensures
            final(self).raw() == with_address::<A>(old(self).raw(), address),
            A::MASK & A::REQUIRED_FLAGS == 0 ==> decode_address::<A>(final(self).raw()) == address,
            fields_disjoint::<F, A>() ==> decode_flags::<F>(final(self).raw()) == decode_flags::<
                F,
            >(old(self).raw()),
    {
        let ghost before = self.0;
        self.0 = (self.0 & !A::MASK) | A::to_entry_format(&address);
        proof {
            let mask = A::MASK;
            let required = A::REQUIRED_FLAGS;
            let all = F::all_bits();
            assert(mask & required == 0 ==> ((before & !mask) | (address | required)) & mask
                == address) by (bit_vector)
                requires
                    address & !mask == 0,
            ;
            assert((mask & all == 0 && required & all == 0) ==> ((before & !mask) | (address
                | required)) & all == before & all) by (bit_vector)
                requires
                    address & !mask == 0,
            ;
        }
    }
}

/// Page-directory-pointer entry.
pub type L3PageTableEntry = GenericPageTableEntry<L3Flags, PhysicalAddressHandlerNormal>;

/// Page-directory entry that points to a page table.
pub type L2PageTableEntry = GenericPageTableEntry<L2Flags, PhysicalAddressHandlerNormal>;

/// Page-directory entry that maps a 2 MiB page.
pub type L2PageTableEntry2MB = GenericPageTableEntry<L2Flags2MB, PhysicalAddressHandler2MBytesPDE>;

/// Page-table entry.
pub type L1PageTableEntry = GenericPageTableEntry<L1Flags, PhysicalAddressHandlerNormal>;

/// Number of level-2 tables, and of entries in use in the level-3 table.
pub const LEVEL2_TABLE_COUNT: usize = 4;

/// Number of entries in a level-2 table.
pub const LEVEL2_ENTRY_COUNT: usize = 512;

/// Physical address of the page that holds the memory-mapped display buffer.
pub const DISPLAY_PAGE_ADDRESS: u64 = 0;

/// The address that entry `index` of level-2 table `table` maps, in the
/// identity map: the pages follow each other, 2 MiB apart, 1 GiB per table.
pub open spec fn identity_page_address(table: int, index: int) -> int {
    table * 0x4000_0000 + index * 0x20_0000
}

/// The flags of the identity-mapped page at `address`.
///
/// Every page is present and open to user mode. It is writable from
/// `read_write_start` on; below that lies what must stay read-only. The
/// display page is writable wherever the boundary lies, and not cached.
pub open spec fn identity_page_flag_bits(address: u64, read_write_start: u64) -> u64 {
    if address == DISPLAY_PAGE_ADDRESS {
        0x17
    } else if address >= read_write_start {
        0x7
    } else {
        0x5
    }
}

/// The level-2 entry of the identity-mapped page at `address`.
pub open spec fn identity_page_entry(address: u64, read_write_start: u64) -> u64 {
    encode::<PhysicalAddressHandler2MBytesPDE>(
        address,
        identity_page_flag_bits(address, read_write_start),
    )
}

/// The flags that `fill_page_table` gives the page at `address`.
pub open spec fn filled_flag_bits(
    flag_bits: u64,
    read_write_bits: u64,
    address: u64,
    read_write_start: u64,
) -> u64 {
    if address >= read_write_start {
        flag_bits | read_write_bits
    } else {
        flag_bits
    }
}

/// The address of page `index` among pages that follow each other from
/// `start_address`, `address_offset` apart.
pub open spec fn nth_page_address(start_address: u64, address_offset: u64, index: int) -> int {
    start_address + index * address_offset
}

/// Fills a level-2 table with 2 MiB pages that follow each other from
/// `start_address`, `address_offset` apart. Each page gets `flags`, and
/// `read_write_flag` too if it starts at or above `read_write_start`.
pub fn fill_page_table<F: EntryFlags>(
    flags: F,
    start_address: u64,
    table: &mut [GenericPageTableEntry<F, PhysicalAddressHandler2MBytesPDE>; 512],
    address_offset: u64,
    read_write_flag: F,
    read_write_start: u64,
)
    requires
        forall|i: int|
            0 <= i < 512 ==> #[trigger] nth_page_address(start_address, address_offset, i)
                <= u64::MAX && accepts::<PhysicalAddressHandler2MBytesPDE>(
                nth_page_address(start_address, address_offset, i) as u64,
            ),
    ensures
        forall|i: int|
            0 <= i < 512 ==> (#[trigger] final(table)[i]).raw() == encode::<
                PhysicalAddressHandler2MBytesPDE,
            >(
                nth_page_address(start_address, address_offset, i) as u64,
                filled_flag_bits(
                    flags.spec_bits(),
                    read_write_flag.spec_bits(),
                    nth_page_address(start_address, address_offset, i) as u64,
                    read_write_start,
                ),
            ),
{
    let mut index: usize = 0;
    let mut address: u64 = start_address;
    assert(nth_page_address(start_address, address_offset, 0) == start_address);
    while index < 512
        invariant
            index <= 512,
            index < 512 ==> address == nth_page_address(
                start_address,
                address_offset,
                index as int,
            ),
            forall|i: int|
                0 <= i < 512 ==> #[trigger] nth_page_address(start_address, address_offset, i)
                    <= u64::MAX && accepts::<PhysicalAddressHandler2MBytesPDE>(
                    nth_page_address(start_address, address_offset, i) as u64,
                ),
            forall|i: int|
                0 <= i < index ==> (#[trigger] table[i]).raw() == encode::<
                    PhysicalAddressHandler2MBytesPDE,
                >(
                    nth_page_address(start_address, address_offset, i) as u64,
                    filled_flag_bits(
                        flags.spec_bits(),
                        read_write_flag.spec_bits(),
                        nth_page_address(start_address, address_offset, i) as u64,
                        read_write_start,
                    ),
                ),
        decreases 512 - index,
    {
        let entry_flags = if address >= read_write_start {
            flags.union(read_write_flag)
        } else {
            flags
        };
        table[index] = GenericPageTableEntry::new(address, entry_flags);
        index += 1;
        if index < 512 {
            assert(nth_page_address(start_address, address_offset, index as int)
                == nth_page_address(start_address, address_offset, index - 1) + address_offset)
                by (nonlinear_arith);
            address += address_offset;
        }
    }
}

/// The entries of a PAE page-table structure that maps 4 GiB in 2 MiB pages:
/// one level-3 table and the four level-2 tables that its entries point to.
pub struct PageTableData {
    level3: [L3PageTableEntry; 4],
    level2_1: [L2PageTableEntry2MB; 512],
    level2_2: [L2PageTableEntry2MB; 512],
    level2_3: [L2PageTableEntry2MB; 512],
    level2_4: [L2PageTableEntry2MB; 512],
}

impl PageTableData {
    /// The four level-3 entries, as the CPU reads them.
    pub closed spec fn level3_view(&self) -> Seq<u64> {
        Seq::new(4, |i: int| self.level3[i].raw())
    }

    /// The 512 entries of level-2 table `table` (0 to 3), as the CPU reads
    /// them.
    pub closed spec fn level2_view(&self, table: int) -> Seq<u64> {
        if table == 0 {
            Seq::new(512, |i: int| self.level2_1[i].raw())
        } else if table == 1 {
            Seq::new(512, |i: int| self.level2_2[i].raw())
        } else if table == 2 {
            Seq::new(512, |i: int| self.level2_3[i].raw())
        } else {
            Seq::new(512, |i: int| self.level2_4[i].raw())
        }
    }

    /// Whether the tables hold the identity map of the whole 32-bit address
    /// space, for level-2 tables that stand at `level2_addresses`: level-3
    /// entry `t` is present and points to level-2 table `t`, and entry `i` of
    /// that table maps the 2 MiB page at `t` GiB + `i` times 2 MiB to itself,
    /// with the flags of `identity_page_flag_bits`.
    pub open spec fn holds_identity_map(
        &self,
        level2_addresses: [u64; 4],
        read_write_start: u64,
    ) -> bool {
        &&& self.level3_view().len() == 4
        &&& forall|table: int|
            0 <= table < 4 ==> #[trigger] self.level3_view()[table] == encode::<
                PhysicalAddressHandlerNormal,
            >(level2_addresses[table], PRESENT_BIT)
        &&& forall|table: int|
            0 <= table < 4 ==> (#[trigger] self.level2_view(table)).len() == 512
        &&& forall|table: int, index: int|
            0 <= table < 4 && 0 <= index < 512 ==> #[trigger] self.level2_view(table)[index]
                == identity_page_entry(
                identity_page_address(table, index) as u64,
                read_write_start,
            )
    }

    /// Tables in which no entry is present.
    pub fn zeroed() -> (data: Self)
        ensures
            data.level3_view() == Seq::new(4, |i: int| 0u64),
            forall|table: int|
                0 <= table < 4 ==> #[trigger] data.level2_view(table) == Seq::new(
                    512,
                    |i: int| 0u64,
                ),
    {
        let data = PageTableData {
            level3: [L3PageTableEntry::zero(); 4],
            level2_1: [L2PageTableEntry2MB::zero(); 512],
            level2_2: [L2PageTableEntry2MB::zero(); 512],
            level2_3: [L2PageTableEntry2MB::zero(); 512],
            level2_4: [L2PageTableEntry2MB::zero(); 512],
        };
        assert(data.level3_view() =~= Seq::new(4, |i: int| 0u64));
        assert forall|table: int| 0 <= table < 4 implies #[trigger] data.level2_view(table)
            == Seq::new(512, |i: int| 0u64) by {
            assert(data.level2_view(table) =~= Seq::new(512, |i: int| 0u64));
        }
        data
    }

    /// Writes the identity map into the tables, whatever they held.
    pub fn load_identity_map(&mut self, level2_addresses: &[u64; 4], read_write_start: u64)
        requires
            forall|table: int|
                0 <= table < 4 ==> accepts::<PhysicalAddressHandlerNormal>(
                    #[trigger] level2_addresses[table],
                ),
        ensures
            final(self).holds_identity_map(*level2_addresses, read_write_start),
    {
        proof {
            lemma_identity_pages_accepted();
            crate::page_flags::lemma_flags_within_all();
        }
        let mut table: usize = 0;
        while table < 4
            invariant
                table <= 4,
                forall|t: int|
                    0 <= t < 4 ==> accepts::<PhysicalAddressHandlerNormal>(
                        #[trigger] level2_addresses[t],
                    ),
                forall|t: int|
                    0 <= t < table ==> (#[trigger] self.level3[t]).raw() == encode::<
                        PhysicalAddressHandlerNormal,
                    >(level2_addresses[t], PRESENT_BIT),
            decreases 4 - table,
        {
            self.level3[table] = L3PageTableEntry::new(level2_addresses[table], L3Flags::present());
            table += 1;
        }
        let flags = L2Flags2MB::present() | L2Flags2MB::user_supervisor();
        proof {
            assert(MIBIBYTE * 2 == 0x20_0000 && GIBIBYTE == 0x4000_0000);
            assert forall|i: int| 0 <= i < 512 implies #[trigger] nth_page_address(
                0,
                0x20_0000,
                i,
            ) == identity_page_address(0, i) by {}
            assert forall|i: int| 0 <= i < 512 implies #[trigger] nth_page_address(
                0x4000_0000,
                0x20_0000,
                i,
            ) == identity_page_address(1, i) by {}
            assert forall|i: int| 0 <= i < 512 implies #[trigger] nth_page_address(
                0x8000_0000,
                0x20_0000,
                i,
            ) == identity_page_address(2, i) by {}
            assert forall|i: int| 0 <= i < 512 implies #[trigger] nth_page_address(
                0xc000_0000,
                0x20_0000,
                i,
            ) == identity_page_address(3, i) by {}
        }
        fill_page_table(
            flags,
            0,
            &mut self.level2_1,
            MIBIBYTE * 2,
            L2Flags2MB::read_write(),
            read_write_start,
        );
        fill_page_table(
            flags,
            GIBIBYTE,
            &mut self.level2_2,
            MIBIBYTE * 2,
            L2Flags2MB::read_write(),
            read_write_start,
        );
        fill_page_table(
            flags,
            GIBIBYTE * 2,
            &mut self.level2_3,
            MIBIBYTE * 2,
            L2Flags2MB::read_write(),
            read_write_start,
        );
        fill_page_table(
            flags,
            GIBIBYTE * 3,
            &mut self.level2_4,
            MIBIBYTE * 2,
            L2Flags2MB::read_write(),
            read_write_start,
        );
        proof {
            assert(identity_page_address(0, 0) == DISPLAY_PAGE_ADDRESS);
        }
        // The display buffer lies in the first page: it must take writes, uncached.
        self.level2_1[0] = L2PageTableEntry2MB::new(
            DISPLAY_PAGE_ADDRESS,
            flags | L2Flags2MB::read_write() | L2Flags2MB::page_level_cache_disable(),
        );
        proof {
            lemma_identity_flag_values();
            assert forall|t: int, i: int|
                0 <= t < 4 && 0 <= i < 512 implies #[trigger] self.level2_view(t)[i]
                == identity_page_entry(identity_page_address(t, i) as u64, read_write_start) by {
                if t == 0 {
                    assert(self.level2_view(t)[i] == self.level2_1[i].raw());
                } else if t == 1 {
                    assert(self.level2_view(t)[i] == self.level2_2[i].raw());
                } else if t == 2 {
                    assert(self.level2_view(t)[i] == self.level2_3[i].raw());
                } else {
                    assert(self.level2_view(t)[i] == self.level2_4[i].raw());
                }
            }
            assert forall|t: int| 0 <= t < 4 implies #[trigger] self.level3_view()[t] == encode::<
                PhysicalAddressHandlerNormal,
            >(level2_addresses[t], PRESENT_BIT) by {
                assert(self.level3_view()[t] == self.level3[t].raw());
            }
        }
    }

    /// The level-3 table.
    pub fn level3(&self) -> (entries: &[L3PageTableEntry; 4])
        ensures
            forall|i: int| 0 <= i < 4 ==> (#[trigger] entries[i]).raw() == self.level3_view()[i],
    {
        &self.level3
    }

    /// Level-2 table `table`.
    pub fn level2(&self, table: usize) -> (entries: &[L2PageTableEntry2MB; 512])
        requires
            table < 4,
        ensures
            forall|i: int|
                0 <= i < 512 ==> (#[trigger] entries[i]).raw() == self.level2_view(
                    table as int,
                )[i],
    {
        if table == 0 {
            &self.level2_1
        } else if table == 1 {
            &self.level2_2
        } else if table == 2 {
            &self.level2_3
        } else {
            &self.level2_4
        }
    }
}

/// Whether five tables can stand at these addresses: the level-3 table where
/// CR3 can point to it, each level-2 table where a level-3 entry can.
pub open spec fn table_addresses_ok(level3_address: usize, level2_addresses: [u64; 4]) -> bool {
    &&& cr3_base_ok(level3_address as int)
    &&& forall|table: int|
        0 <= table < 4 ==> accepts::<PhysicalAddressHandlerNormal>(
            #[trigger] level2_addresses[table],
        )
}

/// The handle on the page-table structure of the machine.
///
/// It holds the entries and the physical addresses at which the five tables
/// stand, since the level-3 entries and CR3 are made of those addresses.
pub struct GlobalPageTable {
    data: PageTableData,
    level3_address: usize,
    level2_addresses: [u64; 4],
    read_write_start: u64,
}

impl GlobalPageTable {
    #[verifier::type_invariant]
    spec fn addresses_ok(self) -> bool {
        table_addresses_ok(self.level3_address, self.level2_addresses)
    }

    /// The entries.
    pub closed spec fn data(&self) -> PageTableData {
        self.data
    }

    /// Physical address of the level-3 table.
    pub closed spec fn spec_level3_start_address(&self) -> usize {
        self.level3_address
    }

    /// Physical addresses of the four level-2 tables.
    pub closed spec fn level2_addresses(&self) -> [u64; 4] {
        self.level2_addresses
    }

    /// The address from which pages are writable.
    pub closed spec fn read_write_start(&self) -> u64 {
        self.read_write_start
    }

    /// Whether the tables hold the identity map for the addresses and the
    /// boundary of this handle.
    pub open spec fn is_identity_map(&self) -> bool {
        self.data().holds_identity_map(self.level2_addresses(), self.read_write_start())
    }

    /// Claims the page-table structure and builds the identity map in it.
    ///
    /// Returns `None`, and builds nothing, if the structure has been claimed
    /// before and not released.
    pub fn new(
        claim: &mut AcquireOnce,
        level3_address: usize,
        level2_addresses: [u64; 4],
        read_write_start: u64,
    ) -> (handle: Option<Self>)
        requires
            table_addresses_ok(level3_address, level2_addresses),
        ensures
            handle.is_some() == !old(claim).is_acquired(),
            final(claim).is_acquired(),
            handle.is_some() ==> {
                let table = handle.unwrap();
                &&& table.is_identity_map()
                &&& table.spec_level3_start_address() == level3_address
                &&& table.read_write_start() == read_write_start
                &&& table.level2_addresses() == level2_addresses
            },
    {
        if !claim.try_acquire() {
            None
        } else {
            let mut data = PageTableData::zeroed();
            data.load_identity_map(&level2_addresses, read_write_start);
            Some(GlobalPageTable { data, level3_address, level2_addresses, read_write_start })
        }
    }

    /// Writes the identity map into the tables, whatever they held.
    pub fn load_identity_map(&mut self)
        ensures
            final(self).is_identity_map(),
            final(self).spec_level3_start_address() == old(self).spec_level3_start_address(),
            final(self).read_write_start() == old(self).read_write_start(),
            final(self).level2_addresses() == old(self).level2_addresses(),
    {
        proof {
            use_type_invariant(&*self);
        }
        let mut data = PageTableData::zeroed();
        data.load_identity_map(&self.level2_addresses, self.read_write_start);
        self.data = data;
    }

    /// Physical address of the level-3 table, which CR3 is made of.
    #[verifier::when_used_as_spec(spec_level3_start_address)]
    pub fn level3_start_address(&self) -> (address: usize)
        ensures
            address == self.spec_level3_start_address(),
            cr3_base_ok(address as int),
    {
        proof {
            use_type_invariant(self);
        }
        self.level3_address
    }

    /// The entries, for whoever puts them where the CPU reads them.
    pub fn entries(&self) -> (data: &PageTableData)
        ensures
            *data == self.data(),
    {
        &self.data
    }
}

/// Every page of the identity map has an address that a 2 MiB entry can hold.
pub proof fn lemma_identity_pages_accepted()
    ensures
        forall|table: int, index: int|
            0 <= table < 4 && 0 <= index < 512 ==> 0 <= #[trigger] identity_page_address(
                table,
                index,
            ) < 0x1_0000_0000 && accepts::<PhysicalAddressHandler2MBytesPDE>(
                identity_page_address(table, index) as u64,
            ),
{
    assert forall|table: int, index: int| 0 <= table < 4 && 0 <= index < 512 implies 0
        <= #[trigger] identity_page_address(table, index) < 0x1_0000_0000 && accepts::<
        PhysicalAddressHandler2MBytesPDE,
    >(identity_page_address(table, index) as u64) by {
        let page: u64 = (table * 512 + index) as u64;
        let address: u64 = identity_page_address(table, index) as u64;
        assert(address == page * 0x20_0000);
        assert((page * 0x20_0000) as u64 & !0x000f_ffff_ffe0_0000u64 == 0) by (bit_vector)
            requires
                page < 2048,
        ;
    }
}

/// What the entry of an identity-mapped page says to the CPU: the page is
/// present, 2 MiB large, open to user mode and mapped to its own address; it
/// may be run from; it can be written if it is the display page or lies at or
/// above the boundary, and only then; and it is cached unless it is the
/// display page.
pub proof fn lemma_identity_page_entry(address: u64, read_write_start: u64)
    requires
        accepts::<PhysicalAddressHandler2MBytesPDE>(address),
    ensures
        ({
            let entry = identity_page_entry(address, read_write_start);
            &&& decode_address::<PhysicalAddressHandler2MBytesPDE>(entry) == address
            &&& entry & PRESENT_BIT != 0
            &&& entry & USER_SUPERVISOR_BIT != 0
            &&& entry & ENABLE_2MB_PAGES != 0
            &&& entry & NO_EXECUTE_BIT == 0
            &&& (entry & READ_WRITE_BIT != 0) == (address == DISPLAY_PAGE_ADDRESS || address
                >= read_write_start)
            &&& (entry & PAGE_LEVEL_CACHE_DISABLE_BIT != 0) == (address == DISPLAY_PAGE_ADDRESS)
        }),
{
    let flags = identity_page_flag_bits(address, read_write_start);
    let entry = identity_page_entry(address, read_write_start);
    assert(entry & 0x000f_ffff_ffe0_0000 == address && entry & 0x1 != 0 && entry & 0x4 != 0 && entry
        & 0x80 != 0 && entry & 0x8000_0000_0000_0000 == 0 && (entry & 0x2 != 0) == (flags != 0x5)
        && (entry & 0x10 != 0) == (flags == 0x17)) by (bit_vector)
        requires
            address & !0x000f_ffff_ffe0_0000u64 == 0,
            flags == 0x17 || flags == 0x7 || flags == 0x5,
            entry == (address | 0x80) | flags,
    ;
}

/// Where a 32-bit linear address leads, for a CPU that walks these tables
/// with 2 MiB pages: bits 30 and 31 choose the level-3 entry, bits 21 to 29
/// the entry of the level-2 table that it points to, and bits 0 to 20 are
/// the place in the page.
///
/// The walk ends in nothing if the level-3 entry is not present or does not
/// point to the level-2 table of its index, or if the level-2 entry is not
/// present or maps no 2 MiB page.
pub open spec fn translate(
    data: PageTableData,
    level2_addresses: [u64; 4],
    address: u32,
) -> Option<u64> {
    let table = (address >> 30) as int;
    let index = ((address >> 21) & 0x1ff) as int;
    let pointer = data.level3_view()[table];
    let entry = data.level2_view(table)[index];
    if pointer & PRESENT_BIT == 0 || decode_address::<PhysicalAddressHandlerNormal>(pointer)
        != level2_addresses[table] {
        None
    } else if entry & PRESENT_BIT == 0 || entry & ENABLE_2MB_PAGES == 0 {
        None
    } else {
        Some(
            decode_address::<PhysicalAddressHandler2MBytesPDE>(entry) | (address & 0x1f_ffff) as u64,
        )
    }
}

/// The 2 MiB page in which a 32-bit address lies, by table and index.
pub proof fn lemma_page_of_address(address: u32)
    ensures
        0 <= (address >> 30) < 4,
        0 <= ((address >> 21) & 0x1ff) < 512,
        identity_page_address((address >> 30) as int, ((address >> 21) & 0x1ff) as int) == (address
            & 0xffe0_0000),
        ((address & 0xffe0_0000) as u64) | (address & 0x1f_ffff) as u64 == address,
{
    let table = address >> 30;
    let index = (address >> 21) & 0x1ff;
    assert(table < 4 && index < 512 && table * 0x4000_0000 + index * 0x20_0000 == (address
        & 0xffe0_0000) && ((address & 0xffe0_0000) as u64) | (address & 0x1f_ffff) as u64
        == address as u64) by (bit_vector)
        requires
            table == address >> 30,
            index == (address >> 21) & 0x1ff,
    ;
}

/// Under the identity map every 32-bit linear address leads to the physical
/// address of the same number: all of the 4 GiB are mapped, each byte to
/// itself.
pub proof fn lemma_identity_map_translates_to_itself(
    data: PageTableData,
    level2_addresses: [u64; 4],
    read_write_start: u64,
    address: u32,
)
    requires
        data.holds_identity_map(level2_addresses, read_write_start),
        forall|table: int|
            0 <= table < 4 ==> accepts::<PhysicalAddressHandlerNormal>(
                #[trigger] level2_addresses[table],
            ),
    ensures
        translate(data, level2_addresses, address) == Some(address as u64),
{
    let table = (address >> 30) as int;
    let index = ((address >> 21) & 0x1ff) as int;
    let page = (address & 0xffe0_0000) as u64;
    lemma_page_of_address(address);
    lemma_identity_pages_accepted();
    assert(identity_page_address(table, index) == page);
    lemma_identity_page_entry(page, read_write_start);
    let pointer = data.level3_view()[table];
    let target = level2_addresses[table];
    assert(pointer == encode::<PhysicalAddressHandlerNormal>(target, PRESENT_BIT));
    assert(((target | 0) | 0x1) & 0x1 != 0 && ((target | 0) | 0x1) & 0x000f_ffff_ffff_f000 == target)
        by (bit_vector)
        requires
            target & !0x000f_ffff_ffff_f000u64 == 0,
    ;
    let entry = data.level2_view(table)[index];
    assert(entry == identity_page_entry(page, read_write_start));
}

/// The flag values of the identity map are the unions of the flags they name.
pub proof fn lemma_identity_flag_values()
    ensures
        PRESENT_BIT | USER_SUPERVISOR_BIT == 0x5,
        (PRESENT_BIT | USER_SUPERVISOR_BIT) | READ_WRITE_BIT == 0x7,
        ((PRESENT_BIT | USER_SUPERVISOR_BIT) | READ_WRITE_BIT) | PAGE_LEVEL_CACHE_DISABLE_BIT
            == 0x17,
{
    assert(0x1u64 | 0x4u64 == 0x5 && (0x1u64 | 0x4u64) | 0x2u64 == 0x7 && ((0x1u64 | 0x4u64)
        | 0x2u64) | 0x10u64 == 0x17) by (bit_vector);
}

/// The CR3 payload for a page-directory-pointer table at `address`: the
/// address itself with bit 3 (write-through) and bit 4 (cache disable) added.
pub open spec fn cr3_payload(address: int, writethrough: bool, cache_disable: bool) -> int {
    address + (if writethrough { 8int } else { 0int }) + (if cache_disable { 16int } else { 0int })
}

/// Whether `address` can be the base of a PAE page-directory-pointer table:
/// aligned to 32 bytes and representable in the 32-bit CR3 register.
pub open spec fn cr3_base_ok(address: int) -> bool {
    0 <= address <= u32::MAX && address % 32 == 0
}

/// Why an address cannot be loaded into CR3.
#[derive(Clone, Copy, Debug, PartialEq, Eq, Structural)]
pub enum Cr3FormatError {
    /// The address is not a multiple of 32; `modulo` is the remainder.
    Misaligned { modulo: usize },
    /// The address does not fit the 32-bit register.
    AddressTooWide,
}

/// Computes the CR3 payload for a table whose base address is known to be
/// aligned to 32 bytes and to fit in 32 bits.
pub fn pae_cr3_format(
    address: usize,
    page_level_writethrough: bool,
    page_level_cache_disable: bool,
) -> (payload: u32)
    requires
        cr3_base_ok(address as int),
    ensures
        payload == cr3_payload(address as int, page_level_writethrough, page_level_cache_disable),
        payload & 0xffff_ffe0 == address,
        (payload & 0x8 != 0) == page_level_writethrough,
        (payload & 0x10 != 0) == page_level_cache_disable,
        payload & 0x7 == 0,
{
    let base: u32 = address as u32;
    let mut result: u32 = base;
    if page_level_writethrough {
        result |= 1u32 << 3;
    }
    if page_level_cache_disable {
        result |= 1u32 << 4;
    }
    assert(base | (1u32 << 3) == base + 8 && base | (1u32 << 4) == base + 16
        && (base | (1u32 << 3)) | (1u32 << 4) == base + 24) by (bit_vector)
        requires
            base % 32 == 0,
    ;
    assert(result & 0xffff_ffe0 == base && (result & 0x8 != 0) == page_level_writethrough
        && (result & 0x10 != 0) == page_level_cache_disable && result & 0x7 == 0) by (bit_vector)
        requires
            base % 32 == 0,
            result == (if page_level_writethrough {
                if page_level_cache_disable {
                    (base | (1u32 << 3)) | (1u32 << 4)
                } else {
                    base | (1u32 << 3)
                }
            } else {
                if page_level_cache_disable {
                    base | (1u32 << 4)
                } else {
                    base
                }
            }),
    ;
    result
}

/// Computes the CR3 payload, or says why `address` cannot be a table base.
pub fn checked_pae_cr3_format(
    address: usize,
    page_level_writethrough: bool,
    page_level_cache_disable: bool,
) -> (outcome: Result<u32, Cr3FormatError>)
    ensures
        match outcome {
            Ok(payload) => cr3_base_ok(address as int) && payload == cr3_payload(
                address as int,
                page_level_writethrough,
                page_level_cache_disable,
            ),
            Err(Cr3FormatError::Misaligned { modulo }) => address % 32 != 0 && modulo == address
                % 32,
            Err(Cr3FormatError::AddressTooWide) => address % 32 == 0 && address > u32::MAX,
        },
{
    let modulo: usize = address % 32;
    if modulo != 0 {
        return Err(Cr3FormatError::Misaligned { modulo });
    }
    if address > 0xffff_ffff {
        return Err(Cr3FormatError::AddressTooWide);
    }
    Ok(pae_cr3_format(address, page_level_writethrough, page_level_cache_disable))
}

} // verus!
