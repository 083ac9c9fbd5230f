use kernel_bringup::descriptor::Descriptor;
use kernel_bringup::gdt::GDT;
use kernel_bringup::gdt::FLAT_CODE_DESCRIPTOR;
use kernel_bringup::gdt::FLAT_DATA_DESCRIPTOR;
use kernel_bringup::idt::IDT;
use kernel_bringup::tss::TaskStateLocation;

fn handler_addresses() -> [u32; 256] {
    let mut handlers = [0u32; 256];
    let mut vector = 0usize;
    while vector < 256 {
        handlers[vector] = 0x0010_0000 + 0x1_0040 * vector as u32;
        vector += 1;
    }
    handlers
}

#[test]
fn gdt_holds_flat_code_and_data_segments() {
    let table = GDT::build(None);
    let entries = table.entries();
    assert_eq!(entries[0], Descriptor::null());
    assert_eq!(entries[0].as_u64(), 0);
    assert_eq!(entries[1].as_u64(), 0x00cf_9a00_0000_ffff);
    assert_eq!(entries[2].as_u64(), 0x00cf_9200_0000_ffff);
    assert_eq!(entries[1].as_u64(), FLAT_CODE_DESCRIPTOR);
    assert_eq!(entries[2].as_u64(), FLAT_DATA_DESCRIPTOR);
    assert_eq!(entries[3], Descriptor::null());
}

#[test]
fn gdt_code_and_data_differ_only_in_type() {
    let entries = GDT::build(None).entries();
    assert_eq!(entries[1].lower(), entries[2].lower());
    assert_eq!(entries[1].upper() ^ entries[2].upper(), 0x0000_0800);
}

#[test]
fn gdt_task_entry_describes_the_task_state_segment() {
    let location = TaskStateLocation { base: 0x1234_5678, size: 104 };
    let entries = GDT::build(Some(location)).entries();
    // limit 15:0, base 15:0 | base 23:16, type 9, present, limit 19:16, base 31:24
    assert_eq!(entries[3].lower(), 0x5678_0068);
    assert_eq!(entries[3].upper(), 0x1200_8934);
    assert_eq!(entries[3].as_u64(), 0x1200_8934_5678_0068);
}

#[test]
fn gdt_task_entry_keeps_the_low_twenty_bits_of_the_limit() {
    let location = TaskStateLocation { base: 0, size: 0xfffa_bcde };
    let entries = GDT::build(Some(location)).entries();
    assert_eq!(entries[3].lower(), 0x0000_bcde);
    assert_eq!(entries[3].upper(), 0x000a_8900);
}

#[test]
fn task_state_location_has_the_usual_size() {
    assert_eq!(TaskStateLocation::at(0x2000), TaskStateLocation { base: 0x2000, size: 104 });
}

#[test]
fn selectors_follow_the_table_layout() {
    assert_eq!(GDT::null_selector(), 0x00);
    assert_eq!(GDT::code_selector(), 0x08);
    assert_eq!(GDT::data_selector(), 0x10);
    assert_eq!(GDT::task_selector(), 0x18);
}

#[test]
fn idt_has_a_present_gate_for_every_vector() {
    let handlers = handler_addresses();
    let table = IDT::build(&handlers);
    let entries = table.entries();
    assert_eq!(entries.len(), 256);
    let mut vector = 0usize;
    while vector < 256 {
        let handler = handlers[vector];
        assert_eq!(entries[vector].lower(), 0x0008_0000 | (handler & 0xffff));
        assert_eq!(entries[vector].upper(), (handler & 0xffff_0000) | 0x8e00);
        vector += 1;
    }
}

#[test]
fn idt_gate_of_a_known_handler() {
    let mut handlers = [0u32; 256];
    handlers[33] = 0xdead_beef;
    let table = IDT::build(&handlers);
    assert_eq!(table.entries()[33].as_u64(), 0xdead_8e00_0008_beef);
    assert_eq!(table.entries()[0].as_u64(), 0x0000_8e00_0008_0000);
}

#[test]
fn null_descriptor_is_all_zero() {
    assert_eq!(Descriptor::null().as_u64(), 0);
}
