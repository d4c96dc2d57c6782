//! The identity-mapped page-table hierarchy: PML4, one PDPT, 16 page
//! directories and their page tables, covering `[0, 16 GiB)` with 4 KiB
//! pages, every entry marked present and writable.
//!
//! The builder computes the contents of every table and records which
//! physical page each table is to be written to; the surrounding program
//! allocates those pages and copies each table into place.

use vstd::prelude::*;

verus! {

/// Page-table entry flag: present.
pub const PAGE_PRESENT: u64 = 1;

/// Page-table entry flag: writable.
pub const PAGE_WRITABLE: u64 = 2;

/// The flags every entry of the identity map carries.
pub const PAGE_TABLE_FLAGS: u64 = 3;

/// Entries per table node.
pub const PAGE_TABLE_ENTRIES: usize = 512;

/// Page directories the map populates: 16 GiB in 1 GiB units.
pub const PD_COUNT: usize = 16;

/// Page tables the map populates: 512 per page directory.
pub const PT_COUNT: usize = 8192;

/// Table nodes the whole map needs: PML4, PDPT, directories, tables.
pub const TABLE_COUNT: usize = 8210;

/// One 512-entry table node.
pub struct PageTable {
    entries: Vec<u64>,
}

impl View for PageTable {
    type V = Seq<u64>;

    closed spec fn view(&self) -> Seq<u64> {
        self.entries@
    }
}

impl PageTable {
    /// A table always holds all of its entries.
    pub open spec fn wf(&self) -> bool {
        self@.len() == PAGE_TABLE_ENTRIES
    }

    /// A zeroed table, as a freshly allocated page holds it.
    pub fn new() -> (r: PageTable)
        ensures
            r.wf(),
            forall|i: int| 0 <= i < PAGE_TABLE_ENTRIES ==> r@[i] == 0,
    {
        let mut entries: Vec<u64> = Vec::new();
        let mut i: usize = 0;
        while i < PAGE_TABLE_ENTRIES
            invariant
                i <= PAGE_TABLE_ENTRIES,
                entries@.len() == i,
                forall|j: int| 0 <= j < i ==> entries@[j] == 0,
            decreases PAGE_TABLE_ENTRIES - i,
        {
            entries.push(0);
            i = i + 1;
        }
        PageTable { entries }
    }

    /// Points entry `index` at `address` with `flags`.
    pub fn set_entry(&mut self, index: usize, address: u64, flags: u64)
        requires
            old(self).wf(),
            index < PAGE_TABLE_ENTRIES,
        ensures
            final(self).wf(),
            final(self)@ == old(self)@.update(index as int, address | flags),
    {
        self.entries[index] = address | flags;
    }

    /// Entry `index`, as the walk of the hierarchy reads it.
    pub fn entry(&self, index: usize) -> (r: u64)
        requires
            self.wf(),
            index < PAGE_TABLE_ENTRIES,
        ensures
            r == self@[index as int],
    {
        self.entries[index]
    }

    /// The table's entries as bytes, each entry little-endian, for the copy
    /// into its physical page.
    pub fn to_bytes(&self) -> (r: Vec<u8>)
        requires
            self.wf(),
        ensures
            r@.len() == 4096,
            forall|i: int, k: int|
                0 <= i < PAGE_TABLE_ENTRIES && 0 <= k < 8 ==> #[trigger] (r@[8 * i + k] as int)
                    == crate::bytes::le_byte(self@[i], k as nat),
    {
        let mut r: Vec<u8> = Vec::new();
        let mut i: usize = 0;
        while i < PAGE_TABLE_ENTRIES
            invariant
                self.wf(),
                i <= PAGE_TABLE_ENTRIES,
                r@.len() == 8 * i,
                forall|j: int, k: int|
                    0 <= j < i && 0 <= k < 8 ==> #[trigger] (r@[8 * j + k] as int)
                        == crate::bytes::le_byte(self@[j], k as nat),
            decreases PAGE_TABLE_ENTRIES - i,
        {
            let e = self.entries[i];
            let mut k: usize = 0;
            while k < 8
                invariant
                    self.wf(),
                    i < PAGE_TABLE_ENTRIES,
                    k <= 8,
                    e == self@[i as int],
                    r@.len() == 8 * i + k,
                    forall|j: int, k2: int|
                        0 <= j < i && 0 <= k2 < 8 ==> #[trigger] (r@[8 * j + k2] as int)
                            == crate::bytes::le_byte(self@[j], k2 as nat),
                    forall|k2: int|
                        0 <= k2 < k ==> #[trigger] (r@[8 * i + k2] as int)
                            == crate::bytes::le_byte(e, k2 as nat),
                decreases 8 - k,
            {
                r.push(crate::bytes::le_byte_of(e, k));
                k = k + 1;
            }
            i = i + 1;
        }
        r
    }
}

/// A table node together with the physical page it is to be written to.
pub struct TablePlacement {
    pub addr: u64,
    pub table: PageTable,
}

/// The full identity-map hierarchy, every node paired with its address.
/// `pts` is laid out row-major: the page tables of directory `j` are
/// `pts[512 * j .. 512 * (j + 1)]`.
pub struct IdentityMapPlan {
    pub pml4: TablePlacement,
    pub pdpt: TablePlacement,
    pub pds: Vec<TablePlacement>,
    pub pts: Vec<TablePlacement>,
}

impl IdentityMapPlan {
    /// The shape of a finished plan: every node placed on its own aligned
    /// page, slot 0 of the PML4 pointing at the PDPT, 16 PDPT slots
    /// pointing at the directories, every directory slot pointing at its
    /// table, and every table entry identity-mapping its 4 KiB frame, all
    /// with flags present | writable.
    pub open spec fn wf(&self) -> bool {
        &&& self.pml4.table.wf()
        &&& self.pdpt.table.wf()
        &&& self.pds@.len() == PD_COUNT
        &&& self.pts@.len() == PT_COUNT
        &&& (forall|j: int| 0 <= j < PD_COUNT ==> (#[trigger] self.pds@[j]).table.wf())
        &&& (forall|m: int| 0 <= m < PT_COUNT ==> (#[trigger] self.pts@[m]).table.wf())
        &&& self.pdpt.addr % 4096 == 0
        &&& (forall|j: int| 0 <= j < PD_COUNT ==> (#[trigger] self.pds@[j]).addr % 4096 == 0)
        &&& (forall|m: int| 0 <= m < PT_COUNT ==> (#[trigger] self.pts@[m]).addr % 4096 == 0)
        &&& self.pml4.table@[0] == self.pdpt.addr | PAGE_TABLE_FLAGS
        &&& (forall|i: int| 1 <= i < PAGE_TABLE_ENTRIES ==> self.pml4.table@[i] == 0)
        &&& (forall|j: int|
            0 <= j < PD_COUNT ==> self.pdpt.table@[j] == (#[trigger] self.pds@[j]).addr
                | PAGE_TABLE_FLAGS)
        &&& (forall|j: int| PD_COUNT <= j < PAGE_TABLE_ENTRIES ==> self.pdpt.table@[j] == 0)
        &&& (forall|j: int, k: int|
            0 <= j < PD_COUNT && 0 <= k < PAGE_TABLE_ENTRIES ==> self.pds@[j].table@[k] == (
            #[trigger] self.pts@[j * 512 + k]).addr | PAGE_TABLE_FLAGS)
        &&& (forall|m: int, i: int|
            0 <= m < PT_COUNT && 0 <= i < PAGE_TABLE_ENTRIES
                ==> (#[trigger] self.pts@[m].table@[i]) == ((m * 0x200000 + i * 0x1000) as u64)
                | PAGE_TABLE_FLAGS)
    }
}

/// One page table of the identity map: 512 entries mapping the 4 KiB
/// frames from `base` upward, present and writable.
pub fn prepare_identity_mapped_pt(base: u64) -> (r: PageTable)
    requires
        base + 512 * 4096 <= u64::MAX,
    ensures
        r.wf(),
        forall|i: int|
            0 <= i < PAGE_TABLE_ENTRIES ==> r@[i] == ((base + i * 4096) as u64)
                | PAGE_TABLE_FLAGS,
{
    let mut table = PageTable::new();
    let mut i: usize = 0;
    while i < PAGE_TABLE_ENTRIES
        invariant
            base + 512 * 4096 <= u64::MAX,
            i <= PAGE_TABLE_ENTRIES,
            table.wf(),
            forall|j: int|
                0 <= j < i ==> table@[j] == ((base + j * 4096) as u64) | PAGE_TABLE_FLAGS,
        decreases PAGE_TABLE_ENTRIES - i,
    {
        table.set_entry(i, base + (i as u64) * 4096, PAGE_TABLE_FLAGS);
        i = i + 1;
    }
    table
}

/// One page directory: each entry points at the table placed at
/// `pt_addrs[start + k]`, present and writable.
pub fn prepare_identity_mapped_pd(pt_addrs: &Vec<u64>, start: usize) -> (r: PageTable)
    requires
        start + PAGE_TABLE_ENTRIES <= pt_addrs.len(),
    ensures
        r.wf(),
        forall|k: int|
            0 <= k < PAGE_TABLE_ENTRIES ==> r@[k] == pt_addrs@[start + k] | PAGE_TABLE_FLAGS,
{
    let mut table = PageTable::new();
    let mut k: usize = 0;
    while k < PAGE_TABLE_ENTRIES
        invariant
            start + PAGE_TABLE_ENTRIES <= pt_addrs.len(),
            k <= PAGE_TABLE_ENTRIES,
            table.wf(),
            forall|j: int| 0 <= j < k ==> table@[j] == pt_addrs@[start + j] | PAGE_TABLE_FLAGS,
        decreases PAGE_TABLE_ENTRIES - k,
    {
        table.set_entry(k, pt_addrs[start + k], PAGE_TABLE_FLAGS);
        k = k + 1;
    }
    table
}

/// The PDPT: its first 16 entries point at the page directories, the rest
/// stay clear.
pub fn prepare_identity_mapped_pdpt(pd_addrs: &Vec<u64>) -> (r: PageTable)
    requires
        pd_addrs.len() == PD_COUNT,
    ensures
        r.wf(),
        forall|j: int| 0 <= j < PD_COUNT ==> r@[j] == pd_addrs@[j] | PAGE_TABLE_FLAGS,
        forall|j: int| PD_COUNT <= j < PAGE_TABLE_ENTRIES ==> r@[j] == 0,
{
    let mut table = PageTable::new();
    let mut j: usize = 0;
    while j < PD_COUNT
        invariant
            pd_addrs.len() == PD_COUNT,
            j <= PD_COUNT,
            table.wf(),
            forall|i: int| 0 <= i < j ==> table@[i] == pd_addrs@[i] | PAGE_TABLE_FLAGS,
            forall|i: int| j <= i < PAGE_TABLE_ENTRIES ==> table@[i] == 0,
        decreases PD_COUNT - j,
    {
        table.set_entry(j, pd_addrs[j], PAGE_TABLE_FLAGS);
        j = j + 1;
    }
    table
}

/// The PML4: slot 0 points at the PDPT, the rest stay clear.
pub fn prepare_identity_mapped_pml4(pdpt_addr: u64) -> (r: PageTable)
    ensures
        r.wf(),
        r@[0] == pdpt_addr | PAGE_TABLE_FLAGS,
        forall|i: int| 1 <= i < PAGE_TABLE_ENTRIES ==> r@[i] == 0,
{
    let mut table = PageTable::new();
    table.set_entry(0, pdpt_addr, PAGE_TABLE_FLAGS);
    table
}

/// Builds the whole hierarchy from the addresses of 8210 freshly allocated
/// pages: `table_addrs[0]` holds the PML4, `table_addrs[1]` the PDPT, the
/// next 16 the directories, and the rest the page tables, row-major.
pub fn build_identity_map(table_addrs: &Vec<u64>) -> (r: IdentityMapPlan)
    requires
        table_addrs.len() == TABLE_COUNT,
        forall|i: int| 0 <= i < TABLE_COUNT ==> (#[trigger] table_addrs@[i]) % 4096 == 0,
    ensures
        r.wf(),
        r.pml4.addr == table_addrs@[0],
        r.pdpt.addr == table_addrs@[1],
        forall|j: int| 0 <= j < PD_COUNT ==> (#[trigger] r.pds@[j]).addr == table_addrs@[2 + j],
        forall|m: int| 0 <= m < PT_COUNT ==> (#[trigger] r.pts@[m]).addr == table_addrs@[18 + m],
{
    let mut pts: Vec<TablePlacement> = Vec::new();
    let mut m: usize = 0;
    while m < PT_COUNT
        invariant
            table_addrs.len() == TABLE_COUNT,
            m <= PT_COUNT,
            pts@.len() == m,
            forall|i: int| 0 <= i < TABLE_COUNT ==> (#[trigger] table_addrs@[i]) % 4096 == 0,
            forall|j: int| 0 <= j < m ==> (#[trigger] pts@[j]).addr == table_addrs@[18 + j],
            forall|j: int| 0 <= j < m ==> (#[trigger] pts@[j]).addr % 4096 == 0,
            forall|j: int| 0 <= j < m ==> (#[trigger] pts@[j]).table.wf(),
            forall|j: int, i: int|
                0 <= j < m && 0 <= i < PAGE_TABLE_ENTRIES ==> (#[trigger] pts@[j].table@[i]) == ((
                j * 0x200000 + i * 0x1000) as u64) | PAGE_TABLE_FLAGS,
        decreases PT_COUNT - m,
    {
        let base = (m as u64) * 0x200000;
        let table = prepare_identity_mapped_pt(base);
        pts.push(TablePlacement { addr: table_addrs[18 + m], table });
        m = m + 1;
    }

    let mut pt_addrs: Vec<u64> = Vec::new();
    let mut i: usize = 0;
    while i < PT_COUNT
        invariant
            table_addrs.len() == TABLE_COUNT,
            i <= PT_COUNT,
            pt_addrs@.len() == i,
            forall|j: int| 0 <= j < i ==> pt_addrs@[j] == table_addrs@[18 + j],
        decreases PT_COUNT - i,
    {
        pt_addrs.push(table_addrs[18 + i]);
        i = i + 1;
    }

    let mut pds: Vec<TablePlacement> = Vec::new();
    let mut j: usize = 0;
    while j < PD_COUNT
        invariant
            table_addrs.len() == TABLE_COUNT,
            pt_addrs@.len() == PT_COUNT,
            forall|k: int| 0 <= k < PT_COUNT ==> pt_addrs@[k] == table_addrs@[18 + k],
            forall|i2: int| 0 <= i2 < TABLE_COUNT ==> (#[trigger] table_addrs@[i2]) % 4096 == 0,
            j <= PD_COUNT,
            pds@.len() == j,
            forall|k: int| 0 <= k < j ==> (#[trigger] pds@[k]).addr == table_addrs@[2 + k],
            forall|k: int| 0 <= k < j ==> (#[trigger] pds@[k]).addr % 4096 == 0,
            forall|k: int| 0 <= k < j ==> (#[trigger] pds@[k]).table.wf(),
            forall|k: int, i2: int|
                0 <= k < j && 0 <= i2 < PAGE_TABLE_ENTRIES ==> (#[trigger] pds@[k].table@[i2])
                    == table_addrs@[18 + k * 512 + i2] | PAGE_TABLE_FLAGS,
        decreases PD_COUNT - j,
    {
        let table = prepare_identity_mapped_pd(&pt_addrs, j * 512);
        pds.push(TablePlacement { addr: table_addrs[2 + j], table });
        j = j + 1;
    }

    let mut pd_addrs: Vec<u64> = Vec::new();
    let mut k: usize = 0;
    while k < PD_COUNT
        invariant
            table_addrs.len() == TABLE_COUNT,
            k <= PD_COUNT,
            pd_addrs@.len() == k,
            forall|j2: int| 0 <= j2 < k ==> pd_addrs@[j2] == table_addrs@[2 + j2],
        decreases PD_COUNT - k,
    {
        pd_addrs.push(table_addrs[2 + k]);
        k = k + 1;
    }

    let pdpt = prepare_identity_mapped_pdpt(&pd_addrs);
    let pml4 = prepare_identity_mapped_pml4(table_addrs[1]);

    IdentityMapPlan {
        pml4: TablePlacement { addr: table_addrs[0], table: pml4 },
        pdpt: TablePlacement { addr: table_addrs[1], table: pdpt },
        pds,
        pts,
    }
}

/// Page-table coverage: for every physical address below 16 GiB, walking
/// PML4 → PDPT → PD → PT with the standard 9/9/9/12-bit index split leads
/// through present, writable links to a PT entry whose base is the address
/// rounded down to 4096 and whose flags are exactly present | writable.
pub proof fn lemma_identity_map_covers(plan: &IdentityMapPlan, a: u64)
    requires
        plan.wf(),
        a < 0x400000000,
    ensures
        (a >> 39) & 0x1ff == 0,
        ((a >> 30) & 0x1ff) < PD_COUNT,
        plan.pml4.table@[((a >> 39) & 0x1ff) as int] == plan.pdpt.addr | PAGE_TABLE_FLAGS,
        plan.pdpt.table@[((a >> 30) & 0x1ff) as int] == plan.pds@[((a >> 30) & 0x1ff) as int].addr
            | PAGE_TABLE_FLAGS,
        plan.pds@[((a >> 30) & 0x1ff) as int].table@[((a >> 21) & 0x1ff) as int]
            == plan.pts@[((a >> 30) & 0x1ff) as int * 512 + ((a >> 21) & 0x1ff) as int].addr
            | PAGE_TABLE_FLAGS,
        plan.pts@[((a >> 30) & 0x1ff) as int * 512 + ((a >> 21) & 0x1ff) as int].table@[((a
            >> 12) & 0x1ff) as int] == (a & 0xffff_ffff_ffff_f000) | PAGE_TABLE_FLAGS,
        ((a & 0xffff_ffff_ffff_f000) | PAGE_TABLE_FLAGS) & 0xfff == PAGE_TABLE_FLAGS,
        ((a & 0xffff_ffff_ffff_f000) | PAGE_TABLE_FLAGS) & 0xffff_ffff_ffff_f000 == a
            & 0xffff_ffff_ffff_f000,
{
    let x3 = (a >> 30) & 0x1ff;
    let x2 = (a >> 21) & 0x1ff;
    let x1 = (a >> 12) & 0x1ff;
    assert((a >> 39) & 0x1ff == 0) by (bit_vector)
        requires
            a < 0x400000000u64,
    ;
    assert(x3 < 16 && x2 < 512 && x1 < 512) by (bit_vector)
        requires
            a < 0x400000000u64 && x3 == (a >> 30) & 0x1ff && x2 == (a >> 21) & 0x1ff && x1 == (a
                >> 12) & 0x1ff,
    ;
    assert(x3 * 0x40000000 + x2 * 0x200000 + x1 * 0x1000 == a & 0xffff_ffff_ffff_f000)
        by (bit_vector)
        requires
            a < 0x400000000u64 && x3 == (a >> 30) & 0x1ff && x2 == (a >> 21) & 0x1ff && x1 == (a
                >> 12) & 0x1ff,
    ;
    assert(((a & 0xffff_ffff_ffff_f000) | 3u64) & 0xfff == 3) by (bit_vector);
    assert(((a & 0xffff_ffff_ffff_f000) | 3u64) & 0xffff_ffff_ffff_f000 == a
        & 0xffff_ffff_ffff_f000) by (bit_vector);
    let m = x3 as int * 512 + x2 as int;
    assert(m * 0x200000 + x1 * 0x1000 == x3 * 0x40000000 + x2 * 0x200000 + x1 * 0x1000)
        by (nonlinear_arith)
        requires
            m == x3 as int * 512 + x2 as int,
    ;
    assert(plan.pts@[m].table@[x1 as int] == ((m * 0x200000 + x1 * 0x1000) as u64)
        | PAGE_TABLE_FLAGS);
}

} // verus!
