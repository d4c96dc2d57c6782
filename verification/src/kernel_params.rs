//! Byte-level access to the boot header of a Linux x86 kernel image.
//!
//! The header is the fixed-layout region `[0x1f1, 0x268)` of the image.
//! Every field has a documented byte offset and width (1, 2, 4 or 8 bytes,
//! little-endian); reads zero-pad the field into a `u64` and writes truncate
//! the value to the field's width.

use vstd::prelude::*;
use vstd::arithmetic::power2::{pow2, lemma_pow2_pos};
use vstd::arithmetic::div_mod::lemma_small_mod;
use crate::bytes::{le_int, read_le, write_le, le_byte_of, lemma_le_int_frame};

verus! {

/// Offset of the header region inside the kernel image.
pub const HEADER_START: usize = 0x1f1;

/// End (exclusive) of the header region inside the kernel image.
pub const HEADER_END: usize = 0x268;

/// The fields of the boot header, named after the boot protocol.
#[derive(Debug, Clone, Copy)]
pub enum KernelParam {
    SetupSects,
    RootFlags,
    SysSize,
    RamSize,
    VidMode,
    RootDev,
    BootFlag,
    Jump,
    Header,
    Version,
    RealmodeSwitch,
    StartSysSeg,
    KernelVersion,
    TypeOfLoader,
    LoadFlags,
    SetupMoveSize,
    Code32Start,
    RamdiskImage,
    RamdiskSize,
    BootsectKludge,
    HeapEndPtr,
    ExtLoaderVer,
    ExtLoaderType,
    CmdLinePtr,
    InitrdAddressMax,
    KernelAlignment,
    RelocatableKernel,
    MinAlignment,
    XLoadflags,
    CmdlineSize,
    HardwareSubarch,
    HardwareSubarchData,
    PayloadOffset,
    PayloadLength,
    SetupData,
    PrefAddress,
    InitSize,
    HandoverOffset,
}

impl KernelParam {
    /// Absolute byte offset of the field in the kernel image, and its width.
    /// Fields this launcher never touches are given width 0.
    pub open spec fn spec_layout(self) -> (int, nat) {
        match self {
            KernelParam::SetupSects => (0x1f1, 1),
            KernelParam::RootFlags => (0x1f2, 2),
            KernelParam::VidMode => (0x1fa, 2),
            KernelParam::BootFlag => (0x1fe, 2),
            KernelParam::Header => (0x202, 4),
            KernelParam::Version => (0x206, 2),
            KernelParam::TypeOfLoader => (0x210, 1),
            KernelParam::LoadFlags => (0x211, 1),
            KernelParam::Code32Start => (0x214, 4),
            KernelParam::RamdiskImage => (0x218, 4),
            KernelParam::RamdiskSize => (0x21c, 4),
            KernelParam::HeapEndPtr => (0x224, 2),
            KernelParam::CmdLinePtr => (0x228, 4),
            KernelParam::KernelAlignment => (0x230, 4),
            KernelParam::RelocatableKernel => (0x234, 1),
            KernelParam::MinAlignment => (0x235, 1),
            KernelParam::XLoadflags => (0x236, 2),
            KernelParam::CmdlineSize => (0x238, 4),
            KernelParam::PrefAddress => (0x258, 8),
            KernelParam::InitSize => (0x260, 4),
            KernelParam::HandoverOffset => (0x264, 4),
            _ => (0, 0),
        }
    }

    /// Offset of the field relative to the start of the header region.
    pub open spec fn rel_offset(self) -> int {
        self.spec_layout().0 - HEADER_START
    }

    /// Width of the field in bytes.
    pub open spec fn width(self) -> nat {
        self.spec_layout().1
    }

    /// The fields this launcher reads or writes.  The remaining fields of the
    /// protocol are declared for completeness but have no accessor.
    pub open spec fn is_supported(self) -> bool {
        self.width() > 0
    }

    /// Header-relative offset and width of a supported field.
    pub fn offset_and_size(&self) -> (r: (usize, usize))
        requires
            self.is_supported(),
        ensures
            r.0 as int == self.rel_offset(),
            r.1 as nat == self.width(),
    {
        let (offset, size): (usize, usize) = match self {
            KernelParam::SetupSects => (0x1f1, 1),
            KernelParam::RootFlags => (0x1f2, 2),
            KernelParam::VidMode => (0x1fa, 2),
            KernelParam::BootFlag => (0x1fe, 2),
            KernelParam::Header => (0x202, 4),
            KernelParam::Version => (0x206, 2),
            KernelParam::TypeOfLoader => (0x210, 1),
            KernelParam::LoadFlags => (0x211, 1),
            KernelParam::Code32Start => (0x214, 4),
            KernelParam::RamdiskImage => (0x218, 4),
            KernelParam::RamdiskSize => (0x21c, 4),
            KernelParam::HeapEndPtr => (0x224, 2),
            KernelParam::CmdLinePtr => (0x228, 4),
            KernelParam::KernelAlignment => (0x230, 4),
            KernelParam::RelocatableKernel => (0x234, 1),
            KernelParam::MinAlignment => (0x235, 1),
            KernelParam::XLoadflags => (0x236, 2),
            KernelParam::CmdlineSize => (0x238, 4),
            KernelParam::PrefAddress => (0x258, 8),
            KernelParam::InitSize => (0x260, 4),
            KernelParam::HandoverOffset => (0x264, 4),
            _ => (HEADER_START, 0),
        };
        (offset - HEADER_START, size)
    }
}

/// Little-endian value of the field `p` inside a header region `s`.
pub open spec fn param_value(s: Seq<u8>, p: KernelParam) -> int {
    le_int(s, p.rel_offset(), p.width())
}

/// A mutable copy of the header region of a kernel image.
pub struct KernelParams {
    buf: Vec<u8>,
}

impl View for KernelParams {
    type V = Seq<u8>;

    closed spec fn view(&self) -> Seq<u8> {
        self.buf@
    }
}

impl KernelParams {
    /// The buffer holds exactly the header region.
    pub open spec fn wf(&self) -> bool {
        self@.len() == HEADER_END - HEADER_START
    }

    /// Copies the header region out of a kernel image.
    pub fn new(kernel_image: &Vec<u8>) -> (r: KernelParams)
        requires
            kernel_image.len() >= HEADER_END,
        ensures
            r.wf(),
            r@ == kernel_image@.subrange(HEADER_START as int, HEADER_END as int),
    {
        let mut buf: Vec<u8> = Vec::new();
        let mut i: usize = HEADER_START;
        while i < HEADER_END
            invariant
                HEADER_START <= i <= HEADER_END,
                kernel_image.len() >= HEADER_END,
                buf@.len() == i - HEADER_START,
                forall|j: int|
                    0 <= j < buf@.len() ==> buf@[j] == kernel_image@[HEADER_START + j],
            decreases HEADER_END - i,
        {
            buf.push(kernel_image[i]);
            i = i + 1;
        }
        proof {
            assert(buf@ =~= kernel_image@.subrange(HEADER_START as int, HEADER_END as int));
        }
        KernelParams { buf }
    }

    /// Reads a field, zero-padded into a `u64`.
    pub fn get_param(&self, param: KernelParam) -> (r: u64)
        requires
            self.wf(),
            param.is_supported(),
        ensures
            r as int == param_value(self@, param),
    {
        let (offset, size) = param.offset_and_size();
        read_le(&self.buf, offset, size)
    }

    /// Writes a field, truncating the value to the field's width.  Every
    /// byte outside the field keeps its value, and a value within the
    /// field's width is stored exactly.
    pub fn set_param(&mut self, param: KernelParam, value: u64)
        requires
            old(self).wf(),
            param.is_supported(),
        ensures
            final(self).wf(),
            forall|i: int|
                0 <= i < final(self)@.len() && !(param.rel_offset() <= i < param.rel_offset()
                    + param.width()) ==> final(self)@[i] == old(self)@[i],
            param_value(final(self)@, param) == (value as nat) % pow2(8 * param.width()),
            value < pow2(8 * param.width()) ==> param_value(final(self)@, param) == value,
    {
        let (offset, size) = param.offset_and_size();
        write_le(&mut self.buf, offset, size, value);
        proof {
            if value < pow2(8 * param.width()) {
                lemma_pow2_pos(8 * param.width());
                lemma_small_mod(value as nat, pow2(8 * param.width()));
            }
        }
    }
}

/// Round-trip law: after a field is set to a value within its width — so
/// that the header holds the value reduced to the field's width, as
/// `set_param` ensures — reading the field yields exactly that value.
pub proof fn lemma_param_round_trip(s: Seq<u8>, p: KernelParam, v: u64)
    requires
        p.is_supported(),
        v < pow2(8 * p.width()),
        param_value(s, p) == (v as nat) % pow2(8 * p.width()),
    ensures
        param_value(s, p) == v,
{
    lemma_pow2_pos(8 * p.width());
    lemma_small_mod(v as nat, pow2(8 * p.width()));
}

/// Distinct supported fields occupy disjoint byte ranges.
pub proof fn lemma_supported_fields_disjoint(p: KernelParam, q: KernelParam)
    requires
        p.is_supported(),
        q.is_supported(),
        p.spec_layout() != q.spec_layout(),
    ensures
        p.rel_offset() + p.width() <= q.rel_offset() || q.rel_offset() + q.width()
            <= p.rel_offset(),
{
}

/// Setting one field never disturbs another supported field.
pub proof fn lemma_set_param_frames_others(s1: Seq<u8>, s2: Seq<u8>, p: KernelParam, q: KernelParam)
    requires
        p.is_supported(),
        q.is_supported(),
        p.rel_offset() + p.width() <= q.rel_offset() || q.rel_offset() + q.width()
            <= p.rel_offset(),
        forall|i: int|
            0 <= i < s2.len() && !(p.rel_offset() <= i < p.rel_offset() + p.width()) ==> s2[i]
                == s1[i],
        s1.len() == HEADER_END - HEADER_START,
        s2.len() == HEADER_END - HEADER_START,
    ensures
        param_value(s2, q) == param_value(s1, q),
{
    lemma_le_int_frame(s2, s1, q.rel_offset(), q.width());
}

/// Zero-pads up to eight bytes into a `u64`, little-endian.
pub fn from_bytes(bytes: &Vec<u8>) -> (r: u64)
    requires
        bytes.len() <= 8,
    ensures
        r as int == le_int(bytes@, 0, bytes@.len() as nat),
{
    read_le(bytes, 0, bytes.len())
}

/// The eight little-endian bytes of a `u64`.
pub fn to_bytes(num: u64) -> (r: [u8; 8])
    ensures
        forall|k: int| 0 <= k < 8 ==> #[trigger] (r@[k] as int) == crate::bytes::le_byte(num, k as nat),
{
    let b0 = le_byte_of(num, 0);
    let b1 = le_byte_of(num, 1);
    let b2 = le_byte_of(num, 2);
    let b3 = le_byte_of(num, 3);
    let b4 = le_byte_of(num, 4);
    let b5 = le_byte_of(num, 5);
    let b6 = le_byte_of(num, 6);
    let b7 = le_byte_of(num, 7);
    let r = [b0, b1, b2, b3, b4, b5, b6, b7];
    r
}

} // verus!
