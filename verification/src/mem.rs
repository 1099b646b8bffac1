//! Virtual-memory bring-up: a bump frame allocator over the physical RAM
//! window, and the static page-table skeleton for a 4 KiB granule that
//! identity-maps the UART and RAM and maps one test page.
//!
//! The architecture stub that programs the translation registers and enables
//! the MMU consumes the root address this module computes.

use vstd::prelude::*;

verus! {

/// Base of the physical RAM window.
pub const RAM_START: u64 = 0x4000_0000;

/// Size of the physical RAM window.
pub const RAM_SIZE: u64 = 256 * 1024 * 1024;

/// One past the last byte of the physical RAM window.
pub const RAM_END: u64 = RAM_START + RAM_SIZE;

/// Size of a physical frame and of a page-table page.
pub const PAGE_SIZE: u64 = 4096;

/// Mapping size of a level-2 block descriptor.
pub const BLOCK_SIZE: u64 = 2 * 1024 * 1024;

/// Identity-mapped base of the PL011 UART.
pub const UART0_BASE: u64 = 0x0900_0000;

/// The virtual address the demonstration leaf page is installed at; chosen
/// outside the RAM identity window.
pub const TEST_VA: u64 = 0x8000_0000;

/// Descriptor bit 0: entry is valid.
pub const DESC_VALID: u64 = 1;

/// Descriptor bit 1 set (with bit 0): table at non-leaf levels, page at the
/// leaf level.
pub const DESC_TABLE: u64 = 2;

/// Access flag: no first-access fault.
pub const AF: u64 = 1 << 10;

/// Shareability field: inner shareable.
pub const SH_INNER: u64 = 3 << 8;

/// Attribute index 0: normal cacheable memory.
pub const ATTRIDX0: u64 = 0;

/// Attribute index 1: device-nGnRE memory.
pub const ATTRIDX1: u64 = 1 << 2;

/// Privileged execute-never.
pub const PXN: u64 = 1 << 53;

/// Unprivileged execute-never.
pub const UXN: u64 = 1 << 54;

/// Mask selecting the base-address field of a 2 MiB block descriptor.
pub const BLOCK_ADDR_MASK: u64 = 0xFFFF_FFFF_FFE0_0000;

/// Mask selecting the base-address field of a table or page descriptor.
pub const PAGE_ADDR_MASK: u64 = 0xFFFF_FFFF_FFFF_F000;

/// Rounds `x` up to the next multiple of `align`, a power of two.
#[verifier::rlimit(100)]
pub fn align_up(x: u64, align: u64) -> (r: u64)
    requires
        align > 0,
        align & ((align - 1) as u64) == 0,
        x + align - 1 <= u64::MAX,
    ensures
        r % align == 0,
        x <= r < x + align,
    {
    let sum: u64 = x + (align - 1);
    let r: u64 = sum & !(align - 1);
    proof {
        assert(x <= r && r < x + align) by (bit_vector)
            requires
                align > 0,
                align & ((align - 1) as u64) == 0,
                x + align - 1 <= u64::MAX,
                sum == x + align - 1,
                r == sum & !((align - 1) as u64),
        ;
        assert(r & ((align - 1) as u64) == 0) by (bit_vector)
            requires
                r == sum & !((align - 1) as u64),
        ;
        lemma_aligned_mask_mod(r, align);
    }
    r
}

/// A value whose low bits under a power-of-two mask are clear is a multiple
/// of that power of two.
#[verifier::rlimit(100)]
proof fn lemma_aligned_mask_mod(r: u64, align: u64)
    by (bit_vector)
    requires
        align > 0,
        align & ((align - 1) as u64) == 0,
        r & ((align - 1) as u64) == 0,
    ensures
        r % align == 0,
{
}

/// Bump allocator over a contiguous window of physical frames. Frames are
/// handed out in address order and never freed.
pub struct FrameAlloc {
    next: u64,
    end: u64,
    base: Ghost<u64>,
    handed_out: Ghost<Seq<u64>>,
}

impl FrameAlloc {
    /// The window base this allocator was created with.
    pub closed spec fn spec_start(&self) -> u64 {
        self.base@
    }

    /// One past the window's last byte.
    pub closed spec fn spec_end(&self) -> u64 {
        self.end
    }

    /// The cursor: base of the next frame to hand out.
    pub closed spec fn spec_next(&self) -> u64 {
        self.next
    }

    /// Every frame handed out so far, in allocation order.
    pub closed spec fn frames(&self) -> Seq<u64> {
        self.handed_out@
    }

    /// The allocator's invariant: the cursor stays page-aligned inside the
    /// window, and the handed-out frames are exactly the pages from the
    /// window base up to the cursor.
    pub closed spec fn wf(&self) -> bool {
        &&& self.base@ % PAGE_SIZE == 0
        &&& self.end % PAGE_SIZE == 0
        &&& self.base@ <= self.next <= self.end
        &&& self.next == self.base@ + PAGE_SIZE * self.handed_out@.len()
        &&& forall|i: int|
            0 <= i < self.handed_out@.len() ==> #[trigger] self.handed_out@[i] == self.base@
                + PAGE_SIZE * i
    }

    pub fn new(start: u64, end: u64) -> (fa: FrameAlloc)
        requires
            start % PAGE_SIZE == 0,
            end % PAGE_SIZE == 0,
            start <= end,
        ensures
            fa.wf(),
            fa.spec_start() == start,
            fa.spec_end() == end,
            fa.spec_next() == start,
            fa.frames() == Seq::<u64>::empty(),
    {
        FrameAlloc { next: start, end, base: Ghost(start), handed_out: Ghost(Seq::empty()) }
    }

    /// Hands out the frame at the cursor and advances by one page, or
    /// returns nothing, mutating no state, when the window is exhausted.
    pub fn alloc_frame(&mut self) -> (r: Option<u64>)
        requires
            old(self).wf(),
        ensures
            final(self).wf(),
            final(self).spec_start() == old(self).spec_start(),
            final(self).spec_end() == old(self).spec_end(),
            old(self).spec_next() + PAGE_SIZE <= old(self).spec_end() ==> {
                &&& r == Some(old(self).spec_next())
                &&& final(self).spec_next() == old(self).spec_next() + PAGE_SIZE
                &&& final(self).frames() == old(self).frames().push(old(self).spec_next())
            },
            old(self).spec_next() + PAGE_SIZE > old(self).spec_end() ==> r is None && *final(self)
                == *old(self),
    {
        let p = self.next;
        if self.end - p < PAGE_SIZE {
            return None;
        }
        self.next = p + PAGE_SIZE;
        proof {
            self.handed_out@ = self.handed_out@.push(p);
        }
        Some(p)
    }
}

/// Every frame the allocator has handed out is page-aligned and lies inside
/// the configured window.
pub proof fn lemma_frame_aligned_in_window(fa: FrameAlloc, i: int)
    requires
        fa.wf(),
        0 <= i < fa.frames().len(),
    ensures
        fa.frames()[i] % PAGE_SIZE == 0,
        fa.spec_start() <= fa.frames()[i],
        fa.frames()[i] + PAGE_SIZE <= fa.spec_end(),
{
    assert(fa.frames()[i] == fa.spec_start() + PAGE_SIZE * i);
    assert((fa.spec_start() + PAGE_SIZE * i) % (PAGE_SIZE as int) == 0) by (nonlinear_arith)
        requires
            fa.spec_start() % PAGE_SIZE == 0,
            i >= 0,
    ;
    assert(PAGE_SIZE * i + PAGE_SIZE <= PAGE_SIZE * fa.frames().len());
}

/// No two frames the allocator has handed out overlap: of two distinct
/// frames, the earlier one ends at or before the later one begins.
pub proof fn lemma_frames_disjoint(fa: FrameAlloc, i: int, j: int)
    requires
        fa.wf(),
        0 <= i < j < fa.frames().len(),
    ensures
        fa.frames()[i] + PAGE_SIZE <= fa.frames()[j],
{
    assert(fa.frames()[i] == fa.spec_start() + PAGE_SIZE * i);
    assert(fa.frames()[j] == fa.spec_start() + PAGE_SIZE * j);
}

/// One 4 KiB page-table page: 512 descriptors of 64 bits each.
pub struct PageTable {
    pub entries: [u64; 512],
}

impl PageTable {
    pub fn new() -> (pt: PageTable)
        ensures
            forall|i: int| 0 <= i < 512 ==> pt.entries@[i] == 0,
    {
        PageTable { entries: [0u64; 512] }
    }
}

/// Physical base addresses of the statically allocated table pages.
pub struct TableAddrs {
    pub l0: u64,
    pub l1: u64,
    pub l2_0: u64,
    pub l2_1: u64,
    pub l2_2: u64,
    pub l3_test: u64,
}

impl TableAddrs {
    /// The six addresses as a sequence, for stating distinctness.
    pub open spec fn all(self) -> Seq<u64> {
        seq![self.l0, self.l1, self.l2_0, self.l2_1, self.l2_2, self.l3_test]
    }

    /// Each table page is 4 KiB-aligned, lies inside the RAM window, and is
    /// distinct storage from every other table page.
    pub open spec fn wf(self) -> bool {
        &&& forall|i: int|
            0 <= i < self.all().len() ==> (#[trigger] self.all()[i]) % PAGE_SIZE == 0
                && RAM_START <= self.all()[i] && self.all()[i] + PAGE_SIZE <= RAM_END
        &&& forall|i: int, j: int|
            0 <= i < j < self.all().len() ==> #[trigger] self.all()[i] != #[trigger] self.all()[j]
    }
}

/// The six table pages the builder fills.
pub struct TableSet {
    pub l0: PageTable,
    pub l1: PageTable,
    pub l2_0: PageTable,
    pub l2_1: PageTable,
    pub l2_2: PageTable,
    pub l3_test: PageTable,
}

/// A descriptor pointing at a next-level table page at `next`.
pub open spec fn table_entry(next: u64) -> u64 {
    next | DESC_VALID | DESC_TABLE
}

/// An identity block descriptor for normal cacheable inner-shareable RAM.
pub open spec fn ram_block_entry(pa: u64) -> u64 {
    (pa & BLOCK_ADDR_MASK) | DESC_VALID | ATTRIDX0 | AF | SH_INNER
}

/// An identity block descriptor for device memory, execute-never.
pub open spec fn device_block_entry(pa: u64) -> u64 {
    (pa & BLOCK_ADDR_MASK) | DESC_VALID | ATTRIDX1 | AF | PXN | UXN
}

/// A leaf page descriptor mapping one frame of normal memory.
pub open spec fn page_entry(pa: u64) -> u64 {
    (pa & PAGE_ADDR_MASK) | DESC_VALID | DESC_TABLE | ATTRIDX0 | AF | SH_INNER
}

/// Level-2 index of the 2 MiB window covering virtual address `va`.
pub open spec fn l2_index(va: u64) -> int {
    ((va >> 21) & 0x1FF) as int
}

/// Level-3 index of the 4 KiB page covering virtual address `va`.
pub open spec fn l3_index(va: u64) -> int {
    ((va >> 12) & 0x1FF) as int
}

/// Exactly which descriptor every slot of every built table page holds.
pub open spec fn table_set_matches(ts: TableSet, frame0: u64, a: TableAddrs) -> bool {
    &&& ts.l0.entries@[0] == table_entry(a.l1)
    &&& forall|i: int| 1 <= i < 512 ==> ts.l0.entries@[i] == 0
    &&& ts.l1.entries@[0] == table_entry(a.l2_0)
    &&& ts.l1.entries@[1] == table_entry(a.l2_1)
    &&& ts.l1.entries@[2] == table_entry(a.l2_2)
    &&& forall|i: int| 3 <= i < 512 ==> ts.l1.entries@[i] == 0
    &&& ts.l2_0.entries@[l2_index(UART0_BASE)] == device_block_entry(UART0_BASE)
    &&& forall|i: int|
        0 <= i < 512 && i != l2_index(UART0_BASE) ==> ts.l2_0.entries@[i] == 0
    &&& forall|i: int|
        0 <= i < RAM_SIZE / BLOCK_SIZE ==> ts.l2_1.entries@[i] == ram_block_entry(
            (RAM_START + i * BLOCK_SIZE) as u64,
        )
    &&& forall|i: int| RAM_SIZE / BLOCK_SIZE <= i < 512 ==> ts.l2_1.entries@[i] == 0
    &&& ts.l2_2.entries@[l2_index(TEST_VA)] == table_entry(a.l3_test)
    &&& forall|i: int| 0 <= i < 512 && i != l2_index(TEST_VA) ==> ts.l2_2.entries@[i] == 0
    &&& ts.l3_test.entries@[l3_index(TEST_VA)] == page_entry(frame0)
    &&& forall|i: int| 0 <= i < 512 && i != l3_index(TEST_VA) ==> ts.l3_test.entries@[i] == 0
}

/// A well-formed next-level table descriptor: valid and table bits set, the
/// low attribute bits and everything above the table address zero, so the
/// base-address field is 4 KiB-aligned.
pub open spec fn table_desc_wf(d: u64) -> bool {
    &&& d & 0xFFF == 0x3
    &&& d & 0xFFFF_0000_0000_0000 == 0
}

/// A well-formed 2 MiB block descriptor: valid with the table bit clear, the
/// access flag set, the bits reserved as zero for this level clear, and the
/// base-address field aligned to the 2 MiB mapping size. Device blocks carry
/// both execute-never bits.
pub open spec fn block_desc_wf(d: u64, device: bool) -> bool {
    &&& d & DESC_VALID == DESC_VALID
    &&& d & DESC_TABLE == 0
    &&& d & AF == AF
    &&& d & 0x001F_F000 == 0
    &&& (d & BLOCK_ADDR_MASK) % BLOCK_SIZE == 0
    &&& d & 0x000F_0000_0000_0000 == 0
    &&& (device ==> d & PXN == PXN && d & UXN == UXN)
}

/// A well-formed leaf page descriptor: valid and page bits set, the access
/// flag set, the reserved high bits clear, and the base-address field
/// 4 KiB-aligned.
pub open spec fn page_desc_wf(d: u64) -> bool {
    &&& d & DESC_VALID == DESC_VALID
    &&& d & DESC_TABLE == DESC_TABLE
    &&& d & AF == AF
    &&& (d & PAGE_ADDR_MASK) % PAGE_SIZE == 0
    &&& d & 0x000F_0000_0000_0000 == 0
}

/// Every built descriptor is either invalid (zero) or well-formed for the
/// table it stands in: device blocks in the device window, RAM blocks in the
/// RAM window, table descriptors elsewhere.
pub open spec fn table_set_wf(ts: TableSet) -> bool {
    &&& forall|i: int|
        0 <= i < 512 ==> (ts.l0.entries@[i] == 0 || table_desc_wf(#[trigger] ts.l0.entries@[i]))
    &&& forall|i: int|
        0 <= i < 512 ==> (ts.l1.entries@[i] == 0 || table_desc_wf(#[trigger] ts.l1.entries@[i]))
    &&& forall|i: int|
        0 <= i < 512 ==> (ts.l2_0.entries@[i] == 0 || block_desc_wf(
            #[trigger] ts.l2_0.entries@[i],
            true,
        ))
    &&& forall|i: int|
        0 <= i < 512 ==> (ts.l2_1.entries@[i] == 0 || block_desc_wf(
            #[trigger] ts.l2_1.entries@[i],
            false,
        ))
    &&& forall|i: int|
        0 <= i < 512 ==> (ts.l2_2.entries@[i] == 0 || table_desc_wf(
            #[trigger] ts.l2_2.entries@[i],
        ))
    &&& forall|i: int|
        0 <= i < 512 ==> (ts.l3_test.entries@[i] == 0 || page_desc_wf(
            #[trigger] ts.l3_test.entries@[i],
        ))
}

/// Builds the translation-table skeleton: one level-0 entry to a level-1
/// table whose first three entries cover the first three 1 GiB windows; a
/// 2 MiB device block identity-mapping the UART; identity RAM blocks over
/// the whole RAM window; and a single leaf page mapping `TEST_VA` to
/// `frame0`. Returns the tables, the root table's physical address, and the
/// chosen test virtual address.
pub fn build_tables(frame0: u64, addrs: &TableAddrs) -> (out: (TableSet, u64, u64))
    requires
        addrs.wf(),
        RAM_START <= frame0,
        frame0 + PAGE_SIZE <= RAM_END,
    ensures
        out.1 == addrs.l0,
        out.2 == TEST_VA,
        table_set_matches(out.0, frame0, *addrs),
        table_set_wf(out.0),
    {
    let test_va: u64 = TEST_VA;

    let mut l0 = PageTable::new();
    let mut l1 = PageTable::new();
    let mut l2_0 = PageTable::new();
    let mut l2_1 = PageTable::new();
    let mut l2_2 = PageTable::new();
    let mut l3_test = PageTable::new();

    // Map RAM as identity 2 MiB blocks of normal memory.
    let blocks: u64 = RAM_SIZE / BLOCK_SIZE;
    proof {
        assert(RAM_SIZE / BLOCK_SIZE == 128) by (nonlinear_arith);
    }
    let mut i: u64 = 0;
    while i < blocks
        invariant
            0 <= i <= blocks,
            blocks == RAM_SIZE / BLOCK_SIZE,
            blocks == 128,
            forall|k: int|
                0 <= k < i ==> l2_1.entries@[k] == ram_block_entry(
                    (RAM_START + k * BLOCK_SIZE) as u64,
                ),
            forall|k: int| i <= k < 512 ==> l2_1.entries@[k] == 0,
        decreases blocks - i,
    {
        let va: u64 = RAM_START + i * BLOCK_SIZE;
        let pa: u64 = va;
        let idx: usize = ((va >> 21) & 0x1FF) as usize;
        proof {
            assert((((0x4000_0000 + i * 0x20_0000) as u64) >> 21) & 0x1FF == i) by (bit_vector)
                requires
                    i < 128,
            ;
        }
        l2_1.entries[idx] = (pa & BLOCK_ADDR_MASK) | DESC_VALID | ATTRIDX0 | AF | SH_INNER;
        i = i + 1;
    }

    // L0[0] -> L1 (covers the low virtual-address range).
    l0.entries[0] = addrs.l1 | DESC_VALID | DESC_TABLE;

    // L1 entries 0, 1, 2 cover the first three 1 GiB windows.
    l1.entries[0] = addrs.l2_0 | DESC_VALID | DESC_TABLE;
    l1.entries[1] = addrs.l2_1 | DESC_VALID | DESC_TABLE;
    l1.entries[2] = addrs.l2_2 | DESC_VALID | DESC_TABLE;

    // Identity-map the UART as a 2 MiB device block, execute-never.
    let uart_l2: usize = ((UART0_BASE >> 21) & 0x1FF) as usize;
    proof {
        assert(((0x0900_0000u64 >> 21) & 0x1FF) == 72) by (bit_vector);
    }
    l2_0.entries[uart_l2] = (UART0_BASE & BLOCK_ADDR_MASK) | DESC_VALID | ATTRIDX1 | AF | PXN
        | UXN;

    // Map test_va -> frame0 as a single 4 KiB page: the level-2 slot points
    // to the level-3 table, whose slot holds the leaf page descriptor.
    let test_l2: usize = ((test_va >> 21) & 0x1FF) as usize;
    let test_l3: usize = ((test_va >> 12) & 0x1FF) as usize;
    proof {
        assert(((0x8000_0000u64 >> 21) & 0x1FF) == 0) by (bit_vector);
        assert(((0x8000_0000u64 >> 12) & 0x1FF) == 0) by (bit_vector);
    }
    l2_2.entries[test_l2] = addrs.l3_test | DESC_VALID | DESC_TABLE;
    l3_test.entries[test_l3] = (frame0 & PAGE_ADDR_MASK) | DESC_VALID | DESC_TABLE | ATTRIDX0 | AF
        | SH_INNER;

    let ts = TableSet { l0, l1, l2_0, l2_1, l2_2, l3_test };
    proof {
        lemma_built_tables_wf(ts, frame0, *addrs);
    }
    (ts, addrs.l0, test_va)
}

/// The exact descriptors the builder writes are well-formed at their levels.
proof fn lemma_built_tables_wf(ts: TableSet, frame0: u64, a: TableAddrs)
    requires
        a.wf(),
        RAM_START <= frame0,
        frame0 + PAGE_SIZE <= RAM_END,
        table_set_matches(ts, frame0, a),
    ensures
        table_set_wf(ts),
{
    assert(RAM_SIZE / BLOCK_SIZE == 128) by (nonlinear_arith);
    assert(a.all()[0] == a.l0 && a.all()[1] == a.l1 && a.all()[2] == a.l2_0 && a.all()[3] == a.l2_1
        && a.all()[4] == a.l2_2 && a.all()[5] == a.l3_test);
    assert forall|addr: u64| addr % 4096 == 0 && addr < 0x5000_0000 implies table_desc_wf(
        #[trigger] table_entry(addr),
    ) by {
        assert(table_desc_wf(table_entry(addr))) by (bit_vector)
            requires
                addr % 4096 == 0,
                addr < 0x5000_0000,
        ;
    }
    assert(block_desc_wf(device_block_entry(UART0_BASE), true)) by (bit_vector);
    assert forall|pa: u64| pa < 0x5000_0000 implies block_desc_wf(
        #[trigger] ram_block_entry(pa),
        false,
    ) by {
        assert(block_desc_wf(ram_block_entry(pa), false)) by (bit_vector)
            requires
                pa < 0x5000_0000,
        ;
    }
    assert forall|i: int| 0 <= i < RAM_SIZE / BLOCK_SIZE implies block_desc_wf(
        #[trigger] ts.l2_1.entries@[i],
        false,
    ) by {
        let pa = (RAM_START + i * BLOCK_SIZE) as u64;
        assert(RAM_START + i * BLOCK_SIZE < 0x5000_0000) by (nonlinear_arith)
            requires
                0 <= i < 128,
                BLOCK_SIZE == 0x20_0000,
                RAM_START == 0x4000_0000,
        ;
        assert(pa < 0x5000_0000);
    }
    assert(page_desc_wf(page_entry(frame0))) by (bit_vector)
        requires
            frame0 < 0x5000_0000,
    ;
}

/// One hexadecimal digit rendered as its ASCII character, upper case.
pub open spec fn hex_digit(nib: u8) -> u8
    recommends
        nib < 16,
{
    if nib <= 9 {
        (48 + nib) as u8
    } else {
        (55 + nib) as u8
    }
}

/// The `i`-th nibble of `v`, counting from the most significant.
pub open spec fn spec_nibble(v: u64, i: int) -> u8 {
    ((v >> ((60 - 4 * i) as u64)) & 0xF) as u8
}

/// Renders the sixteen hex digits of `v`, most significant first, as ASCII
/// bytes; callers hand them to the serial logger.
pub fn put_hex(v: u64) -> (digits: Vec<u8>)
    ensures
        digits@.len() == 16,
        forall|i: int| 0 <= i < 16 ==> digits@[i] == hex_digit(spec_nibble(v, i)),
    {
    let mut out: Vec<u8> = Vec::new();
    let mut i: usize = 0;
    while i < 16
        invariant
            0 <= i <= 16,
            out@.len() == i,
            forall|k: int| 0 <= k < i ==> out@[k] == hex_digit(spec_nibble(v, k)),
        decreases 16 - i,
    {
        let shift: u64 = 60 - 4 * (i as u64);
        let nib_word: u64 = (v >> shift) & 0xF;
        proof {
            assert((v >> shift) & 0xF < 16) by (bit_vector);
        }
        let nib: u8 = nib_word as u8;
        let d: u8 = if nib <= 9 {
            48 + nib
        } else {
            55 + nib
        };
        out.push(d);
        i = i + 1;
    }
    out
}

} // verus!
