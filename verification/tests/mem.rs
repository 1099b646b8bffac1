use rustos::mem::{align_up, build_tables, put_hex, FrameAlloc, PageTable, TableAddrs};
use rustos::mem::{AF, ATTRIDX1, PXN, RAM_END, RAM_START, UXN};

#[test]
fn align_up_rounds_to_next_multiple() {
    assert_eq!(align_up(5, 16), 16);
    assert_eq!(align_up(16, 16), 16);
    assert_eq!(align_up(4097, 4096), 8192);
    assert_eq!(align_up(0, 4096), 0);
    assert_eq!(align_up(RAM_START + 1, 4096), RAM_START + 4096);
}

#[test]
fn frame_allocator_hands_out_consecutive_frames() {
    let mut fa = FrameAlloc::new(RAM_START, RAM_END);
    assert_eq!(fa.alloc_frame(), Some(RAM_START));
    assert_eq!(fa.alloc_frame(), Some(RAM_START + 4096));
    assert_eq!(fa.alloc_frame(), Some(RAM_START + 8192));
}

#[test]
fn frame_allocator_exhaustion() {
    let x = RAM_START;
    let mut fa = FrameAlloc::new(x, x + 4096);
    assert_eq!(fa.alloc_frame(), Some(x));
    assert_eq!(fa.alloc_frame(), None);
    // Exhaustion is stable: asking again still yields nothing.
    assert_eq!(fa.alloc_frame(), None);
}

#[test]
fn frame_allocator_empty_window() {
    let mut fa = FrameAlloc::new(RAM_START, RAM_START);
    assert_eq!(fa.alloc_frame(), None);
}

#[test]
fn page_table_starts_zeroed() {
    let pt = PageTable::new();
    assert_eq!(pt.entries.len(), 512);
    assert!(pt.entries.iter().all(|&e| e == 0));
}

fn demo_addrs() -> TableAddrs {
    TableAddrs {
        l0: 0x4010_0000,
        l1: 0x4010_1000,
        l2_0: 0x4010_2000,
        l2_1: 0x4010_3000,
        l2_2: 0x4010_4000,
        l3_test: 0x4010_5000,
    }
}

#[test]
fn build_tables_root_entry_is_valid_table() {
    let addrs = demo_addrs();
    let (ts, root, test_va) = build_tables(0x4020_0000, &addrs);
    assert_eq!(root, addrs.l0);
    assert_eq!(test_va, 0x8000_0000);
    // The root table's first entry: valid + table, low attribute bits clear.
    assert_eq!(ts.l0.entries[0] & 0xFFF, 0b0000_0000_0011);
    assert_eq!(ts.l0.entries[0] & !0xFFFu64, addrs.l1);
    for i in 1..512 {
        assert_eq!(ts.l0.entries[i], 0);
    }
}

#[test]
fn build_tables_uart_block_is_device_execute_never() {
    let addrs = demo_addrs();
    let (ts, _root, _va) = build_tables(0x4020_0000, &addrs);
    let uart_idx = ((0x0900_0000u64 >> 21) & 0x1FF) as usize;
    let entry = ts.l2_0.entries[uart_idx];
    // Base-address field of a 2 MiB block: bits 47..21.
    assert_eq!(entry & 0x0000_FFFF_FFE0_0000, 0x0900_0000);
    assert_eq!(entry & 1, 1); // valid
    assert_eq!(entry & 2, 0); // block, not table
    assert_eq!(entry & ATTRIDX1, ATTRIDX1); // device attributes
    assert_eq!(entry & AF, AF); // access flag
    assert_eq!(entry & PXN, PXN);
    assert_eq!(entry & UXN, UXN);
}

#[test]
fn build_tables_level1_covers_three_windows() {
    let addrs = demo_addrs();
    let (ts, _root, _va) = build_tables(0x4020_0000, &addrs);
    assert_eq!(ts.l1.entries[0] & !0xFFFu64, addrs.l2_0);
    assert_eq!(ts.l1.entries[1] & !0xFFFu64, addrs.l2_1);
    assert_eq!(ts.l1.entries[2] & !0xFFFu64, addrs.l2_2);
    for i in 0..3 {
        assert_eq!(ts.l1.entries[i] & 0xFFF, 0b11);
    }
    for i in 3..512 {
        assert_eq!(ts.l1.entries[i], 0);
    }
}

#[test]
fn build_tables_ram_blocks_are_identity_mapped() {
    let addrs = demo_addrs();
    let (ts, _root, _va) = build_tables(0x4020_0000, &addrs);
    // 256 MiB of RAM in 2 MiB blocks: 128 entries.
    for i in 0..128u64 {
        let entry = ts.l2_1.entries[i as usize];
        assert_eq!(entry & 0x0000_FFFF_FFE0_0000, RAM_START + i * 0x20_0000);
        assert_eq!(entry & 1, 1);
        assert_eq!(entry & 2, 0);
        assert_eq!(entry & AF, AF);
        // Normal memory: attribute index 0, no execute-never bits.
        assert_eq!(entry & ATTRIDX1, 0);
        assert_eq!(entry & (PXN | UXN), 0);
    }
    for i in 128..512 {
        assert_eq!(ts.l2_1.entries[i], 0);
    }
}

#[test]
fn build_tables_test_page_maps_frame0() {
    let addrs = demo_addrs();
    let frame0 = 0x4020_0000u64;
    let (ts, _root, test_va) = build_tables(frame0, &addrs);
    let l2_idx = ((test_va >> 21) & 0x1FF) as usize;
    let l3_idx = ((test_va >> 12) & 0x1FF) as usize;
    assert_eq!(ts.l2_2.entries[l2_idx] & !0xFFFu64, addrs.l3_test);
    assert_eq!(ts.l2_2.entries[l2_idx] & 0xFFF, 0b11);
    let leaf = ts.l3_test.entries[l3_idx];
    assert_eq!(leaf & 0xFFFF_FFFF_FFFF_F000, frame0);
    assert_eq!(leaf & 0b11, 0b11); // valid + page
    assert_eq!(leaf & AF, AF);
}

#[test]
fn put_hex_renders_sixteen_uppercase_digits() {
    assert_eq!(put_hex(0xDEAD_BEEF), b"00000000DEADBEEF".to_vec());
    assert_eq!(put_hex(0), b"0000000000000000".to_vec());
    assert_eq!(put_hex(u64::MAX), b"FFFFFFFFFFFFFFFF".to_vec());
    assert_eq!(put_hex(0x0123_4567_89AB_CDEF), b"0123456789ABCDEF".to_vec());
}
