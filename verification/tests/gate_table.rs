use felix_core::exceptions::DIV_ERROR_HANDLER_ADDRESS;
use felix_core::exceptions::DOUBLE_FAULT_HANDLER_ADDRESS;
use felix_core::exceptions::GENERAL_PROTECTION_FAULT_HANDLER_ADDRESS;
use felix_core::exceptions::GENERIC_HANDLER_ADDRESS;
use felix_core::exceptions::INVALID_OPCODE_HANDLER_ADDRESS;
use felix_core::exceptions::PAGE_FAULT_HANDLER_ADDRESS;
use felix_core::idt::IdtEntry;
use felix_core::idt::InterruptDescriptorTable;

#[test]
fn default_table_is_present_and_generic_everywhere() {
    let table = InterruptDescriptorTable::new();
    assert_eq!(table.entries.len(), 256);
    for v in 0..256 {
        let entry = table.entries[v];
        assert_eq!(entry.flags & 0x80, 0x80, "vector {} must be present", v);
        assert_eq!(entry.handler_address(), GENERIC_HANDLER_ADDRESS);
        assert_eq!(entry.segment_selector, 0x8);
        assert_eq!(entry.reserved, 0);
        assert_eq!(entry.flags, 0x8e);
    }
}

#[test]
fn entry_encoding_splits_address_into_halves() {
    let entry = IdtEntry::new(0xaabb_ccdd);
    assert_eq!(entry.offset_low, 0xccdd);
    assert_eq!(entry.offset_high, 0xaabb);
    assert_eq!(entry.segment_selector, 0x8);
    assert_eq!(entry.reserved, 0);
    assert_eq!(entry.flags, 0x8e);
}

#[test]
fn set_re_encodes_address_and_keeps_flags() {
    let mut entry = IdtEntry::new(0x1234_5678);
    entry.set(0x9abc_def0);
    assert_eq!(entry.handler_address(), 0x9abc_def0);
    assert_eq!(entry.segment_selector, 0x8);
    assert_eq!(entry.flags, 0x8e);
}

#[test]
fn added_entry_decodes_to_exactly_the_given_address() {
    let mut table = InterruptDescriptorTable::new();
    table.add(42, 0xdead_beef);
    assert_eq!(table.entries[42].handler_address(), 0xdead_beef);
    table.add(0, 0x0000_0000);
    assert_eq!(table.entries[0].handler_address(), 0x0000_0000);
    table.add(255, 0xffff_ffff);
    assert_eq!(table.entries[255].handler_address(), 0xffff_ffff);
    table.add(7, 0x0001_0000);
    assert_eq!(table.entries[7].handler_address(), 0x0001_0000);
    table.add(9, 0x0000_ffff);
    assert_eq!(table.entries[9].handler_address(), 0x0000_ffff);
}

#[test]
fn registered_exceptions_decode_to_five_distinct_handlers() {
    let mut table = InterruptDescriptorTable::new();
    table.add_exceptions();
    let expected = [
        (0usize, DIV_ERROR_HANDLER_ADDRESS),
        (6, INVALID_OPCODE_HANDLER_ADDRESS),
        (8, DOUBLE_FAULT_HANDLER_ADDRESS),
        (13, GENERAL_PROTECTION_FAULT_HANDLER_ADDRESS),
        (14, PAGE_FAULT_HANDLER_ADDRESS),
    ];
    for (vector, address) in expected {
        assert_eq!(table.entries[vector].handler_address(), address);
    }
    for i in 0..expected.len() {
        for j in 0..expected.len() {
            if i != j {
                assert_ne!(expected[i].1, expected[j].1);
            }
        }
    }
    for v in 0..256 {
        if v != 0 && v != 6 && v != 8 && v != 13 && v != 14 {
            assert_eq!(table.entries[v].handler_address(), GENERIC_HANDLER_ADDRESS);
        }
    }
}

#[test]
fn init_resets_every_gate_to_the_fallback() {
    let mut table = InterruptDescriptorTable::new();
    table.add_exceptions();
    table.add(200, 0x1234_5678);
    table.init();
    for v in 0..256 {
        assert_eq!(table.entries[v].handler_address(), GENERIC_HANDLER_ADDRESS);
        assert_eq!(table.entries[v].flags & 0x80, 0x80);
    }
}

#[test]
fn descriptor_encodes_size_minus_one_and_base() {
    let table = InterruptDescriptorTable::new();
    let descriptor = table.descriptor(0x0009_f000);
    assert_eq!(descriptor.size, 2047);
    assert_eq!(descriptor.offset, 0x0009_f000);
}
