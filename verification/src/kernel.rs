//! The launcher itself: validating a kernel image, populating the shared
//! fields of the boot parameter block, and deciding between the two
//! supported handover protocols.
//!
//! Everything here computes values; the surrounding program performs the
//! allocations, the byte copies and the final non-returning jump with the
//! values this module hands it.

use vstd::prelude::*;
use vstd::arithmetic::div_mod::{
    lemma_fundamental_div_mod, lemma_mod_bound, lemma_mod_multiples_basic,
};
use vstd::arithmetic::mul::lemma_mul_is_commutative;
use crate::errors::BootError;
use crate::kernel_params::HEADER_END;
use crate::zero_page::{spec_header, BootParams, KernelHeader};

verus! {

/// The value `boot_flag` must carry.
pub const BOOT_FLAG_MAGIC: u16 = 0xAA55;

/// The value `header` must carry ("HdrS").
pub const HEADER_MAGIC: u32 = 0x53726448;

/// The oldest boot protocol this launcher supports.
pub const MIN_PROTOCOL_VERSION: u16 = 0x020c;

/// The `xloadflags` bit that advertises the 64-bit EFI handover entry.
pub const XLF_EFI_HANDOVER_64: u16 = 0b1000;

/// The value written to `type_of_loader` for a loader without an assigned id.
pub const TYPE_OF_LOADER_CUSTOM: u8 = 0xFF;

/// The value written to `vid_mode` to ask for the automatic video mode.
pub const VID_MODE_AUTO: u16 = 0xFFFF;

/// The distance from the relocated protected-mode body to its 64-bit entry.
pub const ENTRY_OFFSET: u64 = 0x200;

/// The two ways control can be handed to the kernel.
#[derive(Debug, Clone, Copy, PartialEq, Eq, Structural)]
pub enum HandoverPath {
    /// The launcher tears the firmware down itself and enters the plain
    /// 64-bit entry point.
    NormalHandover,
    /// Firmware services stay live and the kernel's EFI stub finalises the
    /// environment.
    EfiHandover,
}

/// The outcome of validating a typed header, in the order the checks run.
pub open spec fn spec_check_support(h: KernelHeader) -> Result<(), BootError> {
    if h.boot_flag != BOOT_FLAG_MAGIC {
        Err(BootError::InvalidImage)
    } else if h.header != HEADER_MAGIC {
        Err(BootError::InvalidImage)
    } else if h.version < MIN_PROTOCOL_VERSION {
        Err(BootError::UnsupportedProtocolVersion)
    } else if h.relocatable_kernel == 0 {
        Err(BootError::NotRelocatable)
    } else {
        Ok(())
    }
}

/// The outcome of validating a whole image: too small to hold the header
/// region counts as invalid, otherwise the header decides.
pub open spec fn spec_validate(s: Seq<u8>) -> Result<(), BootError> {
    if s.len() < HEADER_END {
        Err(BootError::InvalidImage)
    } else {
        spec_check_support(spec_header(s))
    }
}

/// The header of a supported image.
pub open spec fn spec_supported(h: KernelHeader) -> bool {
    h.boot_flag == BOOT_FLAG_MAGIC && h.header == HEADER_MAGIC && h.version
        >= MIN_PROTOCOL_VERSION && h.relocatable_kernel != 0
}

/// The protocol the header selects: bit 3 of `xloadflags` advertises the
/// 64-bit EFI handover entry, everything else takes the normal path.
pub open spec fn spec_handover_path(h: KernelHeader) -> HandoverPath {
    if h.xloadflags & XLF_EFI_HANDOVER_64 == 0 {
        HandoverPath::NormalHandover
    } else {
        HandoverPath::EfiHandover
    }
}

/// Validation precision: a header passes exactly when all four constraints
/// hold, and each first violated constraint yields its own error kind.
pub proof fn lemma_validation_precision(h: KernelHeader)
    ensures
        spec_check_support(h) is Ok <==> spec_supported(h),
        h.boot_flag != BOOT_FLAG_MAGIC ==> spec_check_support(h) == Err::<(), BootError>(
            BootError::InvalidImage,
        ),
        h.boot_flag == BOOT_FLAG_MAGIC && h.header != HEADER_MAGIC ==> spec_check_support(h)
            == Err::<(), BootError>(BootError::InvalidImage),
        h.boot_flag == BOOT_FLAG_MAGIC && h.header == HEADER_MAGIC && h.version
            < MIN_PROTOCOL_VERSION ==> spec_check_support(h) == Err::<(), BootError>(
            BootError::UnsupportedProtocolVersion,
        ),
        h.boot_flag == BOOT_FLAG_MAGIC && h.header == HEADER_MAGIC && h.version
            >= MIN_PROTOCOL_VERSION && h.relocatable_kernel == 0 ==> spec_check_support(h)
            == Err::<(), BootError>(BootError::NotRelocatable),
{
}

/// A validated kernel image.
pub struct Kernel {
    image: Vec<u8>,
}

impl View for Kernel {
    type V = Seq<u8>;

    closed spec fn view(&self) -> Seq<u8> {
        self.image@
    }
}

impl Kernel {
    /// A kernel only exists for an image that passed validation.
    pub open spec fn wf(&self) -> bool {
        self@.len() >= HEADER_END && spec_supported(spec_header(self@))
    }

    /// Validates an image and takes ownership of it.  Succeeds exactly on
    /// the images `spec_validate` accepts, and fails with the error kind of
    /// the first violated constraint.
    pub fn new(image: Vec<u8>) -> (r: Result<Kernel, BootError>)
        ensures
            spec_validate(image@) is Ok ==> (r matches Ok(k) && k@ == image@ && k.wf()),
            spec_validate(image@) matches Err(e) ==> r == Err::<Kernel, BootError>(e),
    {
        let header = match KernelHeader::new(&image) {
            Ok(h) => h,
            Err(e) => {
                return Err(e);
            },
        };
        match Kernel::check_support(&header) {
            Ok(_) => Ok(Kernel { image }),
            Err(e) => Err(e),
        }
    }

    /// Runs the four header checks in their documented order.
    pub fn check_support(kernel_header: &KernelHeader) -> (r: Result<(), BootError>)
        ensures
            r == spec_check_support(*kernel_header),
    {
        if kernel_header.boot_flag != BOOT_FLAG_MAGIC {
            return Err(BootError::InvalidImage);
        }
        if kernel_header.header != HEADER_MAGIC {
            return Err(BootError::InvalidImage);
        }
        if kernel_header.version < MIN_PROTOCOL_VERSION {
            return Err(BootError::UnsupportedProtocolVersion);
        }
        if kernel_header.relocatable_kernel == 0 {
            return Err(BootError::NotRelocatable);
        }
        Ok(())
    }

    /// The typed header of the validated image.
    pub fn header(&self) -> (r: KernelHeader)
        requires
            self.wf(),
        ensures
            r == spec_header(self@),
    {
        match KernelHeader::new(&self.image) {
            Ok(h) => h,
            Err(_) => {
                proof {
                    assert(false);
                }
                KernelHeader::zeroed()
            },
        }
    }

    /// The image's bytes, for the copy of the protected-mode body.
    pub fn image(&self) -> (r: &Vec<u8>)
        ensures
            r@ == self@,
    {
        &self.image
    }

    /// The first two bytes of a flat binary are expected to carry the "MZ"
    /// mark; this reports whether either byte is in place.
    pub fn check_magic_number(&self) -> (r: bool)
        requires
            self@.len() >= 2,
        ensures
            r == (self@[0] == 0x4d || self@[1] == 0x5a),
    {
        self.image[0] == 0x4d || self.image[1] == 0x5a
    }

    /// Which handover protocol the validated image asks for.
    pub fn handover_path(&self) -> (r: HandoverPath)
        requires
            self.wf(),
        ensures
            r == spec_handover_path(spec_header(self@)),
    {
        let header = self.header();
        Kernel::select_handover_path(&header)
    }

    /// Which handover protocol a header asks for.
    pub fn select_handover_path(header: &KernelHeader) -> (r: HandoverPath)
        ensures
            r == spec_handover_path(*header),
    {
        if header.xloadflags & XLF_EFI_HANDOVER_64 == 0 {
            HandoverPath::NormalHandover
        } else {
            HandoverPath::EfiHandover
        }
    }

    /// Offset of the protected-mode kernel body inside the image: the
    /// real-mode setup sectors plus the boot sector, 512 bytes each.
    pub fn protected_mode_start(setup_sects: u8) -> (r: usize)
        ensures
            r == setup_sects * 512 + 512,
    {
        (setup_sects as usize) * 512 + 512
    }

    /// The 64-bit entry point of the normal path, 0x200 past the relocated
    /// protected-mode body.
    pub fn entry_point_normal(relocated_address: u64) -> (r: u64)
        requires
            relocated_address + ENTRY_OFFSET <= u64::MAX,
        ensures
            r == relocated_address + ENTRY_OFFSET,
    {
        relocated_address + ENTRY_OFFSET
    }

    /// The EFI-handover entry point: the normal entry plus the header's
    /// handover offset.
    pub fn entry_point_efi(relocated_address: u64, handover_offset: u32) -> (r: u64)
        requires
            relocated_address + ENTRY_OFFSET + handover_offset <= u64::MAX,
        ensures
            r == relocated_address + ENTRY_OFFSET + handover_offset,
    {
        relocated_address + ENTRY_OFFSET + handover_offset as u64
    }

    /// Builds the parameter block both handover paths share: the header
    /// copied from the image, the command line and ramdisk recorded, the
    /// loader type marked custom and the video mode set to automatic.
    pub fn prepare_boot_params(&self, cmdline_addr: u32, ramdisk: Option<(u32, u32)>) -> (r:
        BootParams)
        requires
            self.wf(),
        ensures
            r.wf(),
            r.kernel_header == spec_prepared_header(spec_header(self@), cmdline_addr, ramdisk),
            r.screen_info == crate::zero_page::ScreenInfo::spec_zeroed(),
            r.e820_entries == 0,
            forall|i: int|
                0 <= i < crate::zero_page::MAX_E820_ENTRIES ==> r.e820_table@[i] == (
                crate::zero_page::E820Entry { addr: 0, size: 0, typ: 0 }),
    {
        let mut boot_params = BootParams::new();
        boot_params.kernel_header = self.header();
        Kernel::set_cmdline(&mut boot_params, cmdline_addr);
        Kernel::set_ramdisk(&mut boot_params, ramdisk);
        boot_params.kernel_header.type_of_loader = TYPE_OF_LOADER_CUSTOM;
        boot_params.kernel_header.vid_mode = VID_MODE_AUTO;
        boot_params
    }

    /// Records the physical address of the command-line page.
    pub fn set_cmdline(boot_params: &mut BootParams, cmdline_addr: u32)
        ensures
            final(boot_params).kernel_header == (KernelHeader {
                cmd_line_ptr: cmdline_addr,
                ..old(boot_params).kernel_header
            }),
            final(boot_params).screen_info == old(boot_params).screen_info,
            final(boot_params).e820_entries == old(boot_params).e820_entries,
            final(boot_params).e820_table == old(boot_params).e820_table,
    {
        boot_params.kernel_header.cmd_line_ptr = cmdline_addr;
    }

    /// Records the ramdisk's address and length, or `(0, 0)` so the kernel
    /// can tell unambiguously that there is none.
    pub fn set_ramdisk(boot_params: &mut BootParams, ramdisk: Option<(u32, u32)>)
        ensures
            final(boot_params).kernel_header == (KernelHeader {
                ramdisk_image: if ramdisk is Some { (ramdisk->0).0 } else { 0 },
                ramdisk_size: if ramdisk is Some { (ramdisk->0).1 } else { 0 },
                ..old(boot_params).kernel_header
            }),
            final(boot_params).screen_info == old(boot_params).screen_info,
            final(boot_params).e820_entries == old(boot_params).e820_entries,
            final(boot_params).e820_table == old(boot_params).e820_table,
    {
        match ramdisk {
            Some((addr, len)) => {
                boot_params.kernel_header.ramdisk_image = addr;
                boot_params.kernel_header.ramdisk_size = len;
            },
            None => {
                boot_params.kernel_header.ramdisk_image = 0;
                boot_params.kernel_header.ramdisk_size = 0;
            },
        }
    }

    /// Records where the protected-mode body was relocated to, so the
    /// kernel knows its own load address.
    pub fn set_code32_start(boot_params: &mut BootParams, relocated_address: u32)
        ensures
            final(boot_params).kernel_header == (KernelHeader {
                code32_start: relocated_address,
                ..old(boot_params).kernel_header
            }),
            final(boot_params).screen_info == old(boot_params).screen_info,
            final(boot_params).e820_entries == old(boot_params).e820_entries,
            final(boot_params).e820_table == old(boot_params).e820_table,
    {
        boot_params.kernel_header.code32_start = relocated_address;
    }
}

/// The header after the shared preparation steps: the image's header with
/// the command line, ramdisk, loader type and video mode recorded.
pub open spec fn spec_prepared_header(h: KernelHeader, cmdline_addr: u32, ramdisk: Option<(u32, u32)>) -> KernelHeader {
    KernelHeader {
        cmd_line_ptr: cmdline_addr,
        ramdisk_image: if ramdisk is Some { (ramdisk->0).0 } else { 0 },
        ramdisk_size: if ramdisk is Some { (ramdisk->0).1 } else { 0 },
        type_of_loader: TYPE_OF_LOADER_CUSTOM,
        vid_mode: VID_MODE_AUTO,
        ..h
    }
}

/// The content of the page that carries the kernel command line: the bytes
/// of the command line, then zeroes to the end of the page.
pub fn cmdline_page_bytes(cmdline: &Vec<u8>) -> (r: Vec<u8>)
    requires
        cmdline.len() < 4096,
    ensures
        r@.len() == 4096,
        forall|i: int| 0 <= i < cmdline@.len() ==> r@[i] == cmdline@[i],
        forall|i: int| cmdline@.len() <= i < 4096 ==> r@[i] == 0,
{
    let mut page: Vec<u8> = Vec::new();
    let mut i: usize = 0;
    while i < cmdline.len()
        invariant
            i <= cmdline@.len() < 4096,
            page@.len() == i,
            forall|j: int| 0 <= j < i ==> page@[j] == cmdline@[j],
        decreases cmdline@.len() - i,
    {
        page.push(cmdline[i]);
        i = i + 1;
    }
    while i < 4096
        invariant
            cmdline@.len() <= i <= 4096,
            page@.len() == i,
            forall|j: int| 0 <= j < cmdline@.len() ==> page@[j] == cmdline@[j],
            forall|j: int| cmdline@.len() <= j < i ==> page@[j] == 0,
        decreases 4096 - i,
    {
        page.push(0);
        i = i + 1;
    }
    page
}

/// Rounds `addr` up to the next multiple of `align`.
pub fn align_up(addr: u64, align: u64) -> (r: u64)
    requires
        align > 0,
        addr + align - 1 <= u64::MAX,
    ensures
        r % align == 0,
        addr <= r < addr + align,
{
    let x = addr + (align - 1);
    let q = x / align;
    proof {
        lemma_fundamental_div_mod(x as int, align as int);
        lemma_mod_bound(x as int, align as int);
        lemma_mod_multiples_basic(q as int, align as int);
        lemma_mul_is_commutative(q as int, align as int);
    }
    q * align
}

} // verus!
