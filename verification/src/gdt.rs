//! A minimal flat descriptor table: one 64-bit code descriptor and one data
//! descriptor, both covering the full 4 GiB range, as the kernel's 64-bit
//! entry point requires.

use vstd::prelude::*;

verus! {

/// Index of the boot code descriptor.
pub const GDT_ENTRY_BOOT_CS: usize = 2;

/// Index of the boot data descriptor.
pub const GDT_ENTRY_BOOT_DS: usize = 3;

/// Access byte: accessed.
pub const ACCESS_BYTE_A: u8 = 0b1;

/// Access byte: readable (code) / writable (data).
pub const ACCESS_BYTE_RW: u8 = 0b10;

/// Access byte: executable.
pub const ACCESS_BYTE_E: u8 = 0b1000;

/// Access byte: ordinary code or data segment.
pub const ACCESS_BYTE_S: u8 = 0b10000;

/// Access byte: present.
pub const ACCESS_BYTE_P: u8 = 0b10000000;

/// Flags nibble: limit counts 4 KiB pages.
pub const FLAGS_G: u8 = 0b1000;

/// Flags nibble: 32-bit default operand size.
pub const FLAGS_DB: u8 = 0b100;

/// Flags nibble: 64-bit (long mode) code segment.
pub const FLAGS_L: u8 = 0b10;

/// The descriptor-table register image: byte length of the populated slots
/// and the table's physical address.
#[derive(Debug, Clone, Copy, PartialEq, Eq, Structural)]
pub struct Gdtr {
    pub limit: u16,
    pub base: u64,
}

/// One 8-byte segment descriptor, split into its packed fields.
#[derive(Debug, Clone, Copy, PartialEq, Eq, Structural)]
pub struct GdtEntry {
    pub limit_lower: u16,
    pub base_lower: u16,
    pub base_middle: u8,
    pub access_flags: u8,
    pub limit_higher_and_flags: u8,
    pub base_higher: u8,
}

/// The 32-bit base a descriptor encodes.
pub open spec fn spec_entry_base(e: GdtEntry) -> int {
    e.base_lower + 0x10000 * e.base_middle + 0x1000000 * e.base_higher
}

/// The 20-bit limit a descriptor encodes.
pub open spec fn spec_entry_limit(e: GdtEntry) -> int {
    e.limit_lower + 0x10000 * (e.limit_higher_and_flags & 0x0F)
}

/// The flags nibble of a descriptor.
pub open spec fn spec_entry_flags(e: GdtEntry) -> u8 {
    e.limit_higher_and_flags >> 4
}

impl GdtEntry {
    /// The all-zero (null) descriptor.
    pub open spec fn zeroed_spec() -> GdtEntry {
        GdtEntry {
            limit_lower: 0,
            base_lower: 0,
            base_middle: 0,
            access_flags: 0,
            limit_higher_and_flags: 0,
            base_higher: 0,
        }
    }

    /// Builds the all-zero (null) descriptor.
    pub fn zeroed() -> (r: GdtEntry)
        ensures
            r == GdtEntry::zeroed_spec(),
    {
        GdtEntry {
            limit_lower: 0,
            base_lower: 0,
            base_middle: 0,
            access_flags: 0,
            limit_higher_and_flags: 0,
            base_higher: 0,
        }
    }

    /// Stores a 20-bit limit, leaving the flags nibble alone.
    pub fn set_limit(&mut self, limit: u32)
        ensures
            final(self).limit_lower == limit as u16,
            final(self).limit_higher_and_flags == (old(self).limit_higher_and_flags & 0xF0) | ((
            (limit >> 16) & 0xF) as u8),
            final(self).base_lower == old(self).base_lower,
            final(self).base_middle == old(self).base_middle,
            final(self).base_higher == old(self).base_higher,
            final(self).access_flags == old(self).access_flags,
    {
        self.limit_lower = #[verifier::truncate] (limit as u16);
        let flags = self.limit_higher_and_flags & 0xF0;
        let upper_limit_bits: u8 = ((limit >> 16) & 0xF) as u8;
        self.limit_higher_and_flags = flags | upper_limit_bits;
    }

    /// Stores a 32-bit base across its three slots.
    pub fn set_base(&mut self, base: u32)
        ensures
            final(self).base_lower == base as u16,
            final(self).base_middle == ((base >> 16) as u8),
            final(self).base_higher == ((base >> 24) as u8),
            final(self).limit_lower == old(self).limit_lower,
            final(self).limit_higher_and_flags == old(self).limit_higher_and_flags,
            final(self).access_flags == old(self).access_flags,
    {
        self.base_lower = #[verifier::truncate] (base as u16);
        self.base_middle = #[verifier::truncate] ((base >> 16) as u8);
        self.base_higher = #[verifier::truncate] ((base >> 24) as u8);
    }

    /// Stores the flags nibble, leaving the upper limit bits alone.  Only
    /// the lower 4 bits of `flags` should be set.
    pub fn set_flags(&mut self, flags: u8)
        ensures
            final(self).limit_higher_and_flags == (old(self).limit_higher_and_flags & 0x0F) | (
            flags << 4),
            final(self).limit_lower == old(self).limit_lower,
            final(self).base_lower == old(self).base_lower,
            final(self).base_middle == old(self).base_middle,
            final(self).base_higher == old(self).base_higher,
            final(self).access_flags == old(self).access_flags,
    {
        self.limit_higher_and_flags = (self.limit_higher_and_flags & 0x0F) | (flags << 4);
    }

    /// Stores the access byte.
    pub fn set_access_flags(&mut self, flags: u8)
        ensures
            final(self).access_flags == flags,
            final(self).limit_lower == old(self).limit_lower,
            final(self).limit_higher_and_flags == old(self).limit_higher_and_flags,
            final(self).base_lower == old(self).base_lower,
            final(self).base_middle == old(self).base_middle,
            final(self).base_higher == old(self).base_higher,
    {
        self.access_flags = flags;
    }

    /// The descriptor's eight bytes in their packed order.
    pub fn to_bytes(&self) -> (r: Vec<u8>)
        ensures
            r@.len() == 8,
            r@[0] == (self.limit_lower as u8),
            r@[1] == ((self.limit_lower >> 8) as u8),
            r@[2] == (self.base_lower as u8),
            r@[3] == ((self.base_lower >> 8) as u8),
            r@[4] == self.base_middle,
            r@[5] == self.access_flags,
            r@[6] == self.limit_higher_and_flags,
            r@[7] == self.base_higher,
    {
        let ll = self.limit_lower;
        let bl = self.base_lower;
        proof {
            assert(ll >> 8 < 0x100) by (bit_vector);
            assert(bl >> 8 < 0x100) by (bit_vector);
        }
        let mut r: Vec<u8> = Vec::new();
        r.push(#[verifier::truncate] (ll as u8));
        r.push((ll >> 8) as u8);
        r.push(#[verifier::truncate] (bl as u8));
        r.push((bl >> 8) as u8);
        r.push(self.base_middle);
        r.push(self.access_flags);
        r.push(self.limit_higher_and_flags);
        r.push(self.base_higher);
        r
    }
}

/// The flat code descriptor: base 0, limit 0xFFFFF, page granularity and
/// long mode, present + segment + executable + readable + accessed.
pub open spec fn spec_code_descriptor() -> GdtEntry {
    GdtEntry {
        limit_lower: 0xFFFF,
        base_lower: 0,
        base_middle: 0,
        access_flags: 0b10011011,
        limit_higher_and_flags: 0b10100000u8 | 0x0F,
        base_higher: 0,
    }
}

/// The flat data descriptor: base 0, limit 0xFFFFF, page granularity and
/// 32-bit default size, present + segment + writable + accessed.
pub open spec fn spec_data_descriptor() -> GdtEntry {
    GdtEntry {
        limit_lower: 0xFFFF,
        base_lower: 0,
        base_middle: 0,
        access_flags: 0b10010011,
        limit_higher_and_flags: 0b11000000u8 | 0x0F,
        base_higher: 0,
    }
}

/// Builds the four descriptors of the boot table: two null slots, the flat
/// code descriptor at index 2 and the flat data descriptor at index 3.
pub fn create_gdt() -> (r: Vec<GdtEntry>)
    ensures
        r@.len() == 4,
        r@[0] == GdtEntry::zeroed_spec(),
        r@[1] == GdtEntry::zeroed_spec(),
        r@[GDT_ENTRY_BOOT_CS as int] == spec_code_descriptor(),
        r@[GDT_ENTRY_BOOT_DS as int] == spec_data_descriptor(),
{
    let mut code = GdtEntry::zeroed();
    code.set_base(0);
    code.set_limit(0xFFFFFFFF);
    code.set_access_flags(ACCESS_BYTE_P | ACCESS_BYTE_S | ACCESS_BYTE_E | ACCESS_BYTE_RW
        | ACCESS_BYTE_A);
    code.set_flags(FLAGS_G | FLAGS_L);

    let mut data = GdtEntry::zeroed();
    data.set_base(0);
    data.set_limit(0xFFFFFFFF);
    data.set_access_flags(ACCESS_BYTE_P | ACCESS_BYTE_S | ACCESS_BYTE_RW | ACCESS_BYTE_A);
    data.set_flags(FLAGS_G | FLAGS_DB);

    proof {
        assert(0xFFFFFFFFu32 as u16 == 0xFFFFu16) by (bit_vector);
        assert(((0xFFFFFFFFu32 >> 16) & 0xF) as u8 == 0x0Fu8) by (bit_vector);
        assert((0u8 & 0xF0) | 0x0Fu8 == 0x0Fu8) by (bit_vector);
        assert(0u32 as u16 == 0u16) by (bit_vector);
        assert((0u32 >> 16) as u8 == 0u8) by (bit_vector);
        assert((0u32 >> 24) as u8 == 0u8) by (bit_vector);
        assert(0b10000000u8 | 0b10000u8 | 0b1000u8 | 0b10u8 | 0b1u8 == 0b10011011u8)
            by (bit_vector);
        assert(0b10000000u8 | 0b10000u8 | 0b10u8 | 0b1u8 == 0b10010011u8) by (bit_vector);
        assert((0x0Fu8 & 0x0F) | ((0b1000u8 | 0b10u8) << 4) == (0b10100000u8 | 0x0F))
            by (bit_vector);
        assert((0x0Fu8 & 0x0F) | ((0b1000u8 | 0b100u8) << 4) == (0b11000000u8 | 0x0F))
            by (bit_vector);
    }

    let mut r: Vec<GdtEntry> = Vec::new();
    r.push(GdtEntry::zeroed());
    r.push(GdtEntry::zeroed());
    r.push(code);
    r.push(data);
    r
}

/// The register image for a table written at `gdt_base`: the byte length of
/// the populated slots, and the base address.
pub fn create_simple_gdtr(gdt_base: u64) -> (r: Gdtr)
    ensures
        r.base == gdt_base,
        r.limit == 32,
{
    Gdtr { limit: 32, base: gdt_base }
}

/// The shape the kernel requires of the two descriptors: both flat over the
/// full range with page granularity, the code descriptor marked long-mode,
/// present, executable and readable, the data descriptor marked 32-bit,
/// present, writable and non-executable.
pub proof fn lemma_gdt_shape()
    ensures
        spec_entry_base(spec_code_descriptor()) == 0,
        spec_entry_limit(spec_code_descriptor()) == 0xFFFFF,
        spec_entry_flags(spec_code_descriptor()) & FLAGS_L != 0,
        spec_entry_flags(spec_code_descriptor()) & FLAGS_G != 0,
        spec_code_descriptor().access_flags & ACCESS_BYTE_P != 0,
        spec_code_descriptor().access_flags & ACCESS_BYTE_E != 0,
        spec_code_descriptor().access_flags & ACCESS_BYTE_RW != 0,
        spec_entry_base(spec_data_descriptor()) == 0,
        spec_entry_limit(spec_data_descriptor()) == 0xFFFFF,
        spec_entry_flags(spec_data_descriptor()) & FLAGS_L == 0,
        spec_entry_flags(spec_data_descriptor()) & FLAGS_G != 0,
        spec_data_descriptor().access_flags & ACCESS_BYTE_P != 0,
        spec_data_descriptor().access_flags & ACCESS_BYTE_RW != 0,
        spec_data_descriptor().access_flags & ACCESS_BYTE_E == 0,
{
    assert(((0b10100000u8 | 0x0F) & 0x0F) == 0x0Fu8) by (bit_vector);
    assert(((0b11000000u8 | 0x0F) & 0x0F) == 0x0Fu8) by (bit_vector);
    assert(((0b10100000u8 | 0x0F) >> 4) == 0b1010u8) by (bit_vector);
    assert(((0b11000000u8 | 0x0F) >> 4) == 0b1100u8) by (bit_vector);
    assert(0b1010u8 & 0b10u8 != 0) by (bit_vector);
    assert(0b1010u8 & 0b1000u8 != 0) by (bit_vector);
    assert(0b1100u8 & 0b10u8 == 0) by (bit_vector);
    assert(0b1100u8 & 0b1000u8 != 0) by (bit_vector);
    assert(0b10011011u8 & 0b10000000u8 != 0) by (bit_vector);
    assert(0b10011011u8 & 0b1000u8 != 0) by (bit_vector);
    assert(0b10011011u8 & 0b10u8 != 0) by (bit_vector);
    assert(0b10010011u8 & 0b10000000u8 != 0) by (bit_vector);
    assert(0b10010011u8 & 0b10u8 != 0) by (bit_vector);
    assert(0b10010011u8 & 0b1000u8 == 0) by (bit_vector);
}

} // verus!
