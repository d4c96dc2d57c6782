use myboot::gdt::{create_gdt, create_simple_gdtr, GdtEntry};
use myboot::paging::{
    build_identity_map, prepare_identity_mapped_pt, PageTable, PAGE_TABLE_FLAGS, TABLE_COUNT,
};

#[test]
fn page_table_entries_identity_map_their_frames() {
    let table = prepare_identity_mapped_pt(0x4000_0000);
    for i in [0usize, 1, 255, 511] {
        let entry = table.entry(i);
        assert_eq!(entry & 0xfff, PAGE_TABLE_FLAGS);
        assert_eq!(entry & !0xfff, 0x4000_0000 + (i as u64) * 4096);
    }
}

#[test]
fn set_entry_ors_address_and_flags() {
    let mut table = PageTable::new();
    table.set_entry(3, 0x1000, 3);
    assert_eq!(table.entry(3), 0x1003);
    assert_eq!(table.entry(2), 0);
}

/// Walks the built hierarchy for a handful of addresses and checks that
/// every link is present and writable and the leaf maps the address's own
/// frame.
#[test]
fn identity_map_walk_resolves_addresses() {
    let base: u64 = 0x10_0000;
    let mut addrs: Vec<u64> = Vec::new();
    for i in 0..TABLE_COUNT {
        addrs.push(base + (i as u64) * 4096);
    }
    let plan = build_identity_map(&addrs);
    assert_eq!(plan.pml4.addr, base);
    assert_eq!(plan.pdpt.addr, base + 4096);
    assert_eq!(plan.pml4.table.entry(0), plan.pdpt.addr | 3);
    for i in 1..512 {
        assert_eq!(plan.pml4.table.entry(i), 0);
    }

    for a in [0u64, 0x1234_5000, 0x3_FFFF_F000, 0x2_0000_0000] {
        let i4 = ((a >> 39) & 0x1ff) as usize;
        let i3 = ((a >> 30) & 0x1ff) as usize;
        let i2 = ((a >> 21) & 0x1ff) as usize;
        let i1 = ((a >> 12) & 0x1ff) as usize;
        assert_eq!(i4, 0);
        let pdpt_entry = plan.pdpt.table.entry(i3);
        assert_eq!(pdpt_entry, plan.pds[i3].addr | 3);
        let pd_entry = plan.pds[i3].table.entry(i2);
        assert_eq!(pd_entry, plan.pts[i3 * 512 + i2].addr | 3);
        let pt_entry = plan.pts[i3 * 512 + i2].table.entry(i1);
        assert_eq!(pt_entry & 0xfff, 3);
        assert_eq!(pt_entry & !0xfff, a & !0xfff);
    }
}

#[test]
fn unpopulated_pdpt_slots_stay_clear() {
    let base: u64 = 0x10_0000;
    let mut addrs: Vec<u64> = Vec::new();
    for i in 0..TABLE_COUNT {
        addrs.push(base + (i as u64) * 4096);
    }
    let plan = build_identity_map(&addrs);
    for i in 16..512 {
        assert_eq!(plan.pdpt.table.entry(i), 0);
    }
}

#[test]
fn page_table_bytes_are_little_endian_entries() {
    let mut table = PageTable::new();
    table.set_entry(1, 0x0102_0304_0506_0000, 3);
    let bytes = table.to_bytes();
    assert_eq!(bytes.len(), 4096);
    assert_eq!(&bytes[0..8], &[0; 8]);
    assert_eq!(&bytes[8..16], &[0x03, 0x00, 0x06, 0x05, 0x04, 0x03, 0x02, 0x01]);
}

#[test]
fn gdt_has_null_code_and_data_descriptors() {
    let gdt = create_gdt();
    assert_eq!(gdt.len(), 4);
    assert_eq!(gdt[0].to_bytes(), vec![0; 8]);
    assert_eq!(gdt[1].to_bytes(), vec![0; 8]);
    // code: limit 0xFFFFF, base 0, access P|S|E|RW|A, flags G|L
    assert_eq!(gdt[2].to_bytes(), vec![0xFF, 0xFF, 0, 0, 0, 0x9B, 0xAF, 0]);
    // data: limit 0xFFFFF, base 0, access P|S|RW|A, flags G|DB
    assert_eq!(gdt[3].to_bytes(), vec![0xFF, 0xFF, 0, 0, 0, 0x93, 0xCF, 0]);
}

#[test]
fn gdt_setters_pack_the_fields() {
    let mut entry = GdtEntry::zeroed();
    entry.set_base(0x1234_5678);
    entry.set_limit(0xABCDE);
    entry.set_access_flags(0x9B);
    entry.set_flags(0b1010);
    let bytes = entry.to_bytes();
    // limit_lower, base_lower, base_middle, access, limit_hi|flags, base_higher
    assert_eq!(bytes, vec![0xDE, 0xBC, 0x78, 0x56, 0x34, 0x9B, 0xAA, 0x12]);
}

#[test]
fn gdtr_records_base_and_populated_length() {
    let gdtr = create_simple_gdtr(0x8_0000);
    assert_eq!(gdtr.base, 0x8_0000);
    assert_eq!(gdtr.limit, 32);
}
