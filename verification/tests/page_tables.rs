use kernel_bringup::page_flags::EntryFlags;
use kernel_bringup::page_flags::L1Flags;
use kernel_bringup::page_flags::L2Flags;
use kernel_bringup::page_flags::L2Flags2MB;
use kernel_bringup::page_flags::L3Flags;
use kernel_bringup::page_table::checked_pae_cr3_format;
use kernel_bringup::page_table::fill_page_table;
use kernel_bringup::page_table::pae_cr3_format;
use kernel_bringup::page_table::Cr3FormatError;
use kernel_bringup::page_table::GlobalPageTable;
use kernel_bringup::page_table::L1PageTableEntry;
use kernel_bringup::page_table::L2PageTableEntry;
use kernel_bringup::page_table::L2PageTableEntry2MB;
use kernel_bringup::page_table::L3PageTableEntry;
use kernel_bringup::page_table::PageTableData;
use kernel_bringup::page_table::PhysicalAddressHandler;
use kernel_bringup::page_table::PhysicalAddressHandler2MBytesPDE;
use kernel_bringup::page_table::PhysicalAddressHandlerNormal;
use kernel_bringup::page_table::GIBIBYTE;
use kernel_bringup::page_table::MIBIBYTE;
use kernel_bringup::resource::AcquireOnce;

const LEVEL2_ADDRESSES: [u64; 4] = [0x0020_1000, 0x0020_2000, 0x0020_3000, 0x0020_4000];

fn identity_map(read_write_start: u64) -> GlobalPageTable {
    let mut claim = AcquireOnce::new();
    GlobalPageTable::new(&mut claim, 0x0020_0000, LEVEL2_ADDRESSES, read_write_start).unwrap()
}

#[test]
fn cr3_payload_of_plain_base() {
    assert_eq!(pae_cr3_format(0x0010_0000, false, false), 0x0010_0000);
}

#[test]
fn cr3_payload_with_cache_disable() {
    assert_eq!(pae_cr3_format(0x0010_0000, false, true), 0x0010_0010);
}

#[test]
fn cr3_payload_with_writethrough() {
    assert_eq!(pae_cr3_format(0x0010_0000, true, false), 0x0010_0008);
    assert_eq!(pae_cr3_format(0x0010_0000, true, true), 0x0010_0018);
    assert_eq!(pae_cr3_format(0xffff_ffe0, true, true), 0xffff_fff8);
    assert_eq!(pae_cr3_format(0, false, false), 0);
}

#[test]
fn cr3_payload_checked() {
    assert_eq!(checked_pae_cr3_format(0x0010_0000, false, false), Ok(0x0010_0000));
    assert_eq!(checked_pae_cr3_format(0x0010_0000, false, true), Ok(0x0010_0010));
    assert_eq!(checked_pae_cr3_format(0x0010_0020, true, false), Ok(0x0010_0028));
}

#[test]
fn cr3_payload_refuses_misaligned_base() {
    assert_eq!(
        checked_pae_cr3_format(0x0010_0001, false, false),
        Err(Cr3FormatError::Misaligned { modulo: 1 })
    );
    assert_eq!(
        checked_pae_cr3_format(0x0010_0010, true, true),
        Err(Cr3FormatError::Misaligned { modulo: 16 })
    );
    assert_eq!(
        checked_pae_cr3_format(31, false, false),
        Err(Cr3FormatError::Misaligned { modulo: 31 })
    );
}

#[test]
fn cr3_payload_refuses_base_beyond_32_bits() {
    if usize::BITS > 32 {
        let wide = 0x1_0000_0000u64 as usize;
        assert_eq!(
            checked_pae_cr3_format(wide, false, false),
            Err(Cr3FormatError::AddressTooWide)
        );
    }
}

#[test]
fn flag_sets_hold_their_bits() {
    assert_eq!(L3Flags::all().bits(), 0x19);
    assert_eq!(L2Flags::all().bits(), 0x8000_0000_0000_003f);
    assert_eq!(L2Flags2MB::all().bits(), 0x8000_0000_0000_117f);
    assert_eq!(L1Flags::all().bits(), 0x8000_0000_0000_01ff);
    assert_eq!(L3Flags::empty().bits(), 0);
    assert_eq!(L3Flags::present().bits(), 1);
    assert_eq!(L3Flags::page_level_writethrough().bits(), 1 << 3);
    assert_eq!(L3Flags::page_level_cache_disable().bits(), 1 << 4);
    assert_eq!(L2Flags2MB::read_write().bits(), 1 << 1);
    assert_eq!(L2Flags2MB::user_supervisor().bits(), 1 << 2);
    assert_eq!(L2Flags2MB::accessed().bits(), 1 << 5);
    assert_eq!(L2Flags2MB::dirty().bits(), 1 << 6);
    assert_eq!(L2Flags2MB::global_page().bits(), 1 << 8);
    assert_eq!(L2Flags2MB::page_attribute_table().bits(), 1 << 12);
    assert_eq!(L2Flags2MB::no_execute().bits(), 1 << 63);
    assert_eq!(L1Flags::page_attribute_table().bits(), 1 << 7);
    assert_eq!(L2Flags::no_execute().bits(), 1 << 63);
}

#[test]
fn flag_sets_combine_and_truncate() {
    let flags = L2Flags2MB::present() | L2Flags2MB::user_supervisor();
    assert_eq!(flags.bits(), 0x5);
    assert_eq!(flags.union(L2Flags2MB::read_write()).bits(), 0x7);
    assert!(flags.contains(L2Flags2MB::present()));
    assert!(!flags.contains(L2Flags2MB::read_write()));
    assert_eq!(L3Flags::from_bits_truncate(u64::MAX).bits(), 0x19);
    assert_eq!(L2Flags2MB::from_bits_truncate(0x80).bits(), 0);
    assert_eq!(L1Flags::from_bits_truncate(0x1234_5678_9abc_def0).bits(), 0x00f0);
}

#[test]
fn handler_masks() {
    assert_eq!(PhysicalAddressHandlerNormal::MASK, 0x000f_ffff_ffff_f000);
    assert_eq!(PhysicalAddressHandlerNormal::REQUIRED_FLAGS, 0);
    assert_eq!(PhysicalAddressHandler2MBytesPDE::MASK, 0x000f_ffff_ffe0_0000);
    assert_eq!(PhysicalAddressHandler2MBytesPDE::REQUIRED_FLAGS, 1 << 7);
    assert_eq!(PhysicalAddressHandlerNormal::extract(&0x8000_0000_1234_5fff), 0x1234_5000);
    assert_eq!(PhysicalAddressHandler2MBytesPDE::extract(&0xffff_ffff_ffff_ffff), 0x000f_ffff_ffe0_0000);
    assert_eq!(PhysicalAddressHandlerNormal::to_entry_format(&0x3000), 0x3000);
    assert_eq!(PhysicalAddressHandler2MBytesPDE::to_entry_format(&0x0040_0000), 0x0040_0080);
}

#[test]
fn entry_round_trip_2mb() {
    let addresses = [0u64, 0x0020_0000, 0x4000_0000, 0xffe0_0000, 0x000f_ffff_ffe0_0000];
    let flag_bits = [0u64, 0x1, 0x7, 0x17, 0x1000, 0x8000_0000_0000_0000, 0x8000_0000_0000_117f];
    for address in addresses {
        for bits in flag_bits {
            let flags = L2Flags2MB::from_bits_truncate(bits);
            let entry = L2PageTableEntry2MB::new(address, flags);
            assert_eq!(entry.address(), address);
            assert_eq!(entry.flags().bits(), bits);
            assert_eq!(entry.raw(), address | 0x80 | bits);
        }
    }
}

#[test]
fn entry_round_trip_normal_levels() {
    let addresses = [0u64, 0x1000, 0x0020_3000, 0xffff_f000, 0x000f_ffff_ffff_f000];
    for address in addresses {
        let l3 = L3PageTableEntry::new(address, L3Flags::all());
        assert_eq!((l3.address(), l3.flags().bits()), (address, 0x19));
        let l2 = L2PageTableEntry::new(address, L2Flags::all());
        assert_eq!((l2.address(), l2.flags().bits()), (address, 0x8000_0000_0000_003f));
        let l1 = L1PageTableEntry::new(address, L1Flags::all());
        assert_eq!((l1.address(), l1.flags().bits()), (address, 0x8000_0000_0000_01ff));
        assert_eq!(l1.raw(), address | 0x8000_0000_0000_01ff);
    }
}

#[test]
fn encoder_refuses_misaligned_2mb_address() {
    let flags = L2Flags2MB::present();
    assert!(L2PageTableEntry2MB::try_new(0x0020_0000, flags).is_some());
    assert!(L2PageTableEntry2MB::try_new(0x0010_0000, flags).is_none());
    assert!(L2PageTableEntry2MB::try_new(0x0020_1000, flags).is_none());
    assert!(L2PageTableEntry2MB::try_new(0x1, flags).is_none());
    assert!(L2PageTableEntry2MB::try_new(0x001f_ffff, flags).is_none());
    assert!(L2PageTableEntry2MB::try_new(0x0010_0000_0000_0000, flags).is_none());
    assert_eq!(PhysicalAddressHandler2MBytesPDE::checked_entry_format(&0x1000), None);
    assert_eq!(PhysicalAddressHandler2MBytesPDE::checked_entry_format(&0x0020_0000), Some(0x0020_0080));
}

#[test]
fn encoder_refuses_misaligned_4k_address() {
    let flags = L1Flags::present();
    assert!(L1PageTableEntry::try_new(0x1000, flags).is_some());
    assert!(L1PageTableEntry::try_new(0x0800, flags).is_none());
    assert!(L1PageTableEntry::try_new(0x1001, flags).is_none());
    assert!(L1PageTableEntry::try_new(0x0fff, flags).is_none());
    assert!(L3PageTableEntry::try_new(0x0010_0000_0000_0000, L3Flags::present()).is_none());
    assert_eq!(PhysicalAddressHandlerNormal::checked_entry_format(&0x20), None);
    assert_eq!(PhysicalAddressHandlerNormal::checked_entry_format(&0x2000), Some(0x2000));
}

#[test]
fn try_new_agrees_with_new() {
    let flags = L2Flags2MB::present() | L2Flags2MB::read_write();
    let entry = L2PageTableEntry2MB::try_new(0x0060_0000, flags).unwrap();
    assert_eq!(entry.raw(), L2PageTableEntry2MB::new(0x0060_0000, flags).raw());
    assert_eq!(entry.raw(), 0x0060_0083);
}

#[test]
fn zero_entry_is_not_present() {
    let entry = L2PageTableEntry2MB::zero();
    assert_eq!(entry.raw(), 0);
    assert_eq!(entry.address(), 0);
    assert_eq!(entry.flags().bits(), 0);
}

#[test]
fn setting_flags_keeps_the_address() {
    let mut entry = L2PageTableEntry2MB::new(0x0040_0000, L2Flags2MB::present());
    entry.flags_mut(L2Flags2MB::present() | L2Flags2MB::read_write() | L2Flags2MB::no_execute());
    assert_eq!(entry.address(), 0x0040_0000);
    assert_eq!(entry.flags().bits(), 0x8000_0000_0000_0003);
    assert_eq!(entry.raw(), 0x8000_0000_0040_0083);
    entry.flags_mut(L2Flags2MB::empty());
    assert_eq!(entry.raw(), 0x0040_0080);
}

#[test]
fn setting_address_keeps_the_flags() {
    let mut entry = L2PageTableEntry2MB::new(0x0040_0000, L2Flags2MB::all());
    entry.address_mut(0xffe0_0000);
    assert_eq!(entry.address(), 0xffe0_0000);
    assert_eq!(entry.flags().bits(), 0x8000_0000_0000_117f);
    assert_eq!(entry.raw(), 0x8000_0000_ffe0_11ff);
    let mut l1 = L1PageTableEntry::new(0x5000, L1Flags::present() | L1Flags::dirty());
    l1.address_mut(0x7000);
    assert_eq!(l1.raw(), 0x7041);
}

#[test]
fn fill_page_table_marks_pages_from_the_boundary_writable() {
    let mut table = [L2PageTableEntry2MB::zero(); 512];
    let flags = L2Flags2MB::present() | L2Flags2MB::user_supervisor();
    fill_page_table(flags, GIBIBYTE, &mut table, MIBIBYTE * 2, L2Flags2MB::read_write(), GIBIBYTE + 6 * MIBIBYTE);
    assert_eq!(table[0].raw(), 0x4000_0085);
    assert_eq!(table[1].raw(), 0x4020_0085);
    assert_eq!(table[2].raw(), 0x4040_0085);
    assert_eq!(table[3].raw(), 0x4060_0087);
    assert_eq!(table[4].raw(), 0x4080_0087);
    assert_eq!(table[511].raw(), 0x7fe0_0087);
}

#[test]
fn identity_map_level3_points_to_level2_tables() {
    let table = identity_map(0x0040_0000);
    let level3 = table.entries().level3();
    assert_eq!(level3.len(), 4);
    for (index, entry) in level3.iter().enumerate() {
        assert_eq!(entry.raw(), LEVEL2_ADDRESSES[index] | 1);
        assert_eq!(entry.address(), LEVEL2_ADDRESSES[index]);
        assert_eq!(entry.flags().bits(), 1);
    }
}

#[test]
fn identity_map_maps_every_page_to_itself() {
    let read_write_start = 0x0040_0000u64;
    let table = identity_map(read_write_start);
    for level2 in 0..4usize {
        let entries = table.entries().level2(level2);
        assert_eq!(entries.len(), 512);
        for (index, entry) in entries.iter().enumerate() {
            let address = level2 as u64 * GIBIBYTE + index as u64 * 2 * MIBIBYTE;
            assert_eq!(entry.address(), address);
            let expected = if address == 0 {
                0x17
            } else if address >= read_write_start {
                0x7
            } else {
                0x5
            };
            assert_eq!(entry.flags().bits(), expected);
            assert_eq!(entry.raw(), address | 0x80 | expected);
        }
    }
}

#[test]
fn identity_map_known_entries() {
    let table = identity_map(0x0040_0000);
    let first = table.entries().level2(0);
    assert_eq!(first[0].raw(), 0x0000_0097);
    assert_eq!(first[1].raw(), 0x0020_0085);
    assert_eq!(first[2].raw(), 0x0040_0087);
    assert_eq!(first[511].raw(), 0x3fe0_0087);
    assert_eq!(table.entries().level2(1)[0].raw(), 0x4000_0087);
    assert_eq!(table.entries().level2(3)[511].raw(), 0xffe0_0087);
}

#[test]
fn identity_map_with_boundary_at_zero_is_all_writable() {
    let table = identity_map(0);
    assert_eq!(table.entries().level2(0)[0].raw(), 0x97);
    assert_eq!(table.entries().level2(0)[1].raw(), 0x0020_0087);
}

#[test]
fn identity_map_with_boundary_above_everything_keeps_display_writable() {
    let table = identity_map(u64::MAX);
    assert_eq!(table.entries().level2(0)[0].raw(), 0x97);
    assert_eq!(table.entries().level2(0)[1].raw(), 0x0020_0085);
    assert_eq!(table.entries().level2(3)[511].raw(), 0xffe0_0085);
}

#[test]
fn level3_start_address_feeds_cr3() {
    let table = identity_map(0x0040_0000);
    assert_eq!(table.level3_start_address(), 0x0020_0000);
    assert_eq!(pae_cr3_format(table.level3_start_address(), false, false), 0x0020_0000);
}

#[test]
fn reloading_the_identity_map_gives_the_same_tables() {
    let mut table = identity_map(0x0080_0000);
    let before: Vec<u64> = table.entries().level2(0).iter().map(|entry| entry.raw()).collect();
    table.load_identity_map();
    let after: Vec<u64> = table.entries().level2(0).iter().map(|entry| entry.raw()).collect();
    assert_eq!(before, after);
    assert_eq!(table.level3_start_address(), 0x0020_0000);
}

#[test]
fn page_table_can_be_claimed_once() {
    let mut claim = AcquireOnce::new();
    let first = GlobalPageTable::new(&mut claim, 0x0020_0000, LEVEL2_ADDRESSES, 0x0040_0000);
    assert!(first.is_some());
    let second = GlobalPageTable::new(&mut claim, 0x0020_0000, LEVEL2_ADDRESSES, 0x0040_0000);
    assert!(second.is_none());
    let third = GlobalPageTable::new(&mut claim, 0x0020_0000, LEVEL2_ADDRESSES, 0x0040_0000);
    assert!(third.is_none());
    assert!(first.is_some());
}

#[test]
fn released_claim_can_be_taken_again() {
    let mut claim = AcquireOnce::new();
    assert!(!claim.acquired());
    assert!(claim.try_acquire());
    assert!(claim.acquired());
    assert!(!claim.try_acquire());
    claim.release();
    assert!(!claim.acquired());
    assert!(claim.try_acquire());
    assert!(!claim.try_acquire());
}

#[test]
fn zeroed_tables_hold_no_entry() {
    let data = PageTableData::zeroed();
    assert!(data.level3().iter().all(|entry| entry.raw() == 0));
    for level2 in 0..4 {
        assert!(data.level2(level2).iter().all(|entry| entry.raw() == 0));
    }
}
