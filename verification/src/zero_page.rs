//! The boot parameter block ("zero page") handed to the kernel: a typed view
//! of its screen info, legacy memory map and embedded boot header, together
//! with the verified steps that populate it.

use vstd::prelude::*;
use vstd::arithmetic::power2::{lemma2_to64, lemma2_to64_rest};
use crate::bytes::{le_int, push_le, read_le, spec_le_bytes};
use crate::errors::BootError;
use crate::kernel_params::{HEADER_END, HEADER_START};

verus! {

/// A legacy memory-map record in the format the kernel's early boot code
/// parses.
#[derive(Debug, Clone, Copy, PartialEq, Eq, Structural)]
pub struct E820Entry {
    pub addr: u64,
    pub size: u64,
    pub typ: u32,
}

/// Usable RAM, in the legacy memory-map encoding.
pub const E820_TYPE_RAM: u32 = 1;

/// Reserved memory, in the legacy memory-map encoding.
pub const E820_TYPE_RESERVED: u32 = 2;

/// The legacy memory map holds at most this many records.
pub const MAX_E820_ENTRIES: usize = 128;

/// Firmware memory type: code of the loader itself.
pub const MEMORY_TYPE_LOADER_CODE: u32 = 1;

/// Firmware memory type: data of the loader itself.
pub const MEMORY_TYPE_LOADER_DATA: u32 = 2;

/// Firmware memory type: boot-services code.
pub const MEMORY_TYPE_BOOT_SERVICES_CODE: u32 = 3;

/// Firmware memory type: boot-services data.
pub const MEMORY_TYPE_BOOT_SERVICES_DATA: u32 = 4;

/// Firmware memory type: conventional (free) memory.
pub const MEMORY_TYPE_CONVENTIONAL: u32 = 7;

/// A region of the firmware's memory map, reduced to the values the
/// translation reads: start address, length in 4096-byte pages, and the
/// firmware's numeric memory type.
#[derive(Debug, Clone, Copy, PartialEq, Eq, Structural)]
pub struct MemoryRegion {
    pub phys_start: u64,
    pub page_count: u64,
    pub ty: u32,
}

/// The lossy classification of a firmware memory type into the two legacy
/// kinds: memory the kernel may use becomes RAM, everything else is reserved.
pub open spec fn e820_kind(ty: u32) -> u32 {
    if ty == MEMORY_TYPE_CONVENTIONAL || ty == MEMORY_TYPE_BOOT_SERVICES_CODE || ty
        == MEMORY_TYPE_BOOT_SERVICES_DATA || ty == MEMORY_TYPE_LOADER_CODE || ty
        == MEMORY_TYPE_LOADER_DATA {
        E820_TYPE_RAM
    } else {
        E820_TYPE_RESERVED
    }
}

/// The screen-info block at the start of the zero page.  Offsets follow the
/// kernel's own layout; trailing padding is not represented.
#[derive(Debug, Clone, Copy, PartialEq, Eq, Structural)]
pub struct ScreenInfo {
    pub orig_x: u8,
    pub orig_y: u8,
    pub ext_mem_k: u16,
    pub orig_video_page: u16,
    pub orig_video_mode: u8,
    pub orig_video_cols: u8,
    pub flags: u8,
    pub unused2: u8,
    pub orig_video_ega_bx: u16,
    pub unused3: u16,
    pub orig_video_lines: u8,
    pub orig_video_is_vga: u8,
    pub orig_video_points: u16,
    pub lfb_width: u16,
    pub lfb_height: u16,
    pub lfb_depth: u16,
    pub lfb_base: u32,
    pub lfb_size: u32,
    pub cl_magic: u16,
    pub cl_offset: u16,
    pub lfb_linelength: u16,
    pub red_size: u8,
    pub red_pos: u8,
    pub green_size: u8,
    pub green_pos: u8,
    pub blue_size: u8,
    pub blue_pos: u8,
    pub rsvd_size: u8,
    pub rsvd_pos: u8,
    pub vesapm_seg: u16,
    pub vesapm_off: u16,
    pub pages: u16,
    pub vesa_attributes: u16,
    pub capabilities: u32,
    pub ext_lfb_base: u32,
}

impl ScreenInfo {
    /// The all-zero screen info of a freshly allocated page.
    pub open spec fn spec_zeroed() -> ScreenInfo {
        ScreenInfo {
            orig_x: 0,
            orig_y: 0,
            ext_mem_k: 0,
            orig_video_page: 0,
            orig_video_mode: 0,
            orig_video_cols: 0,
            flags: 0,
            unused2: 0,
            orig_video_ega_bx: 0,
            unused3: 0,
            orig_video_lines: 0,
            orig_video_is_vga: 0,
            orig_video_points: 0,
            lfb_width: 0,
            lfb_height: 0,
            lfb_depth: 0,
            lfb_base: 0,
            lfb_size: 0,
            cl_magic: 0,
            cl_offset: 0,
            lfb_linelength: 0,
            red_size: 0,
            red_pos: 0,
            green_size: 0,
            green_pos: 0,
            blue_size: 0,
            blue_pos: 0,
            rsvd_size: 0,
            rsvd_pos: 0,
            vesapm_seg: 0,
            vesapm_off: 0,
            pages: 0,
            vesa_attributes: 0,
            capabilities: 0,
            ext_lfb_base: 0,
        }
    }

    /// Builds the all-zero screen info.
    pub fn zeroed() -> (r: ScreenInfo)
        ensures
            r == ScreenInfo::spec_zeroed(),
    {
        ScreenInfo {
            orig_x: 0,
            orig_y: 0,
            ext_mem_k: 0,
            orig_video_page: 0,
            orig_video_mode: 0,
            orig_video_cols: 0,
            flags: 0,
            unused2: 0,
            orig_video_ega_bx: 0,
            unused3: 0,
            orig_video_lines: 0,
            orig_video_is_vga: 0,
            orig_video_points: 0,
            lfb_width: 0,
            lfb_height: 0,
            lfb_depth: 0,
            lfb_base: 0,
            lfb_size: 0,
            cl_magic: 0,
            cl_offset: 0,
            lfb_linelength: 0,
            red_size: 0,
            red_pos: 0,
            green_size: 0,
            green_pos: 0,
            blue_size: 0,
            blue_pos: 0,
            rsvd_size: 0,
            rsvd_pos: 0,
            vesapm_seg: 0,
            vesapm_off: 0,
            pages: 0,
            vesa_attributes: 0,
            capabilities: 0,
            ext_lfb_base: 0,
        }
    }
}

/// The typed boot header, one field per slot of the documented layout.
#[derive(Debug, Clone, Copy, PartialEq, Eq, Structural)]
pub struct KernelHeader {
    pub setup_sects: u8,
    pub root_flags: u16,
    pub syssize: u32,
    pub ram_size: u16,
    pub vid_mode: u16,
    pub root_dev: u16,
    pub boot_flag: u16,
    pub jump: u16,
    pub header: u32,
    pub version: u16,
    pub realmode_switch: u32,
    pub start_sys_seg: u16,
    pub kernel_version: u16,
    pub type_of_loader: u8,
    pub load_flags: u8,
    pub setup_move_size: u16,
    pub code32_start: u32,
    pub ramdisk_image: u32,
    pub ramdisk_size: u32,
    pub bootsect_kludge: u32,
    pub heap_end_ptr: u16,
    pub ext_loader_ver: u8,
    pub ext_loader_type: u8,
    pub cmd_line_ptr: u32,
    pub initrd_addr_max: u32,
    pub kernel_alignment: u32,
    pub relocatable_kernel: u8,
    pub min_alignment: u8,
    pub xloadflags: u16,
    pub cmdline_size: u32,
    pub hardware_subarch: u32,
    pub hardware_subarch_data: u64,
    pub payload_offset: u32,
    pub payload_length: u32,
    pub setup_data: u64,
    pub pref_address: u64,
    pub init_size: u32,
    pub handover_offset: u32,
}

/// The header encoded in the bytes of a kernel image, field by field.
pub open spec fn spec_header(s: Seq<u8>) -> KernelHeader {
    KernelHeader {
        setup_sects: le_int(s, 0x1f1, 1) as u8,
        root_flags: le_int(s, 0x1f2, 2) as u16,
        syssize: le_int(s, 0x1f4, 4) as u32,
        ram_size: le_int(s, 0x1f8, 2) as u16,
        vid_mode: le_int(s, 0x1fa, 2) as u16,
        root_dev: le_int(s, 0x1fc, 2) as u16,
        boot_flag: le_int(s, 0x1fe, 2) as u16,
        jump: le_int(s, 0x200, 2) as u16,
        header: le_int(s, 0x202, 4) as u32,
        version: le_int(s, 0x206, 2) as u16,
        realmode_switch: le_int(s, 0x208, 4) as u32,
        start_sys_seg: le_int(s, 0x20c, 2) as u16,
        kernel_version: le_int(s, 0x20e, 2) as u16,
        type_of_loader: le_int(s, 0x210, 1) as u8,
        load_flags: le_int(s, 0x211, 1) as u8,
        setup_move_size: le_int(s, 0x212, 2) as u16,
        code32_start: le_int(s, 0x214, 4) as u32,
        ramdisk_image: le_int(s, 0x218, 4) as u32,
        ramdisk_size: le_int(s, 0x21c, 4) as u32,
        bootsect_kludge: le_int(s, 0x220, 4) as u32,
        heap_end_ptr: le_int(s, 0x224, 2) as u16,
        ext_loader_ver: le_int(s, 0x226, 1) as u8,
        ext_loader_type: le_int(s, 0x227, 1) as u8,
        cmd_line_ptr: le_int(s, 0x228, 4) as u32,
        initrd_addr_max: le_int(s, 0x22c, 4) as u32,
        kernel_alignment: le_int(s, 0x230, 4) as u32,
        relocatable_kernel: le_int(s, 0x234, 1) as u8,
        min_alignment: le_int(s, 0x235, 1) as u8,
        xloadflags: le_int(s, 0x236, 2) as u16,
        cmdline_size: le_int(s, 0x238, 4) as u32,
        hardware_subarch: le_int(s, 0x23c, 4) as u32,
        hardware_subarch_data: le_int(s, 0x240, 8) as u64,
        payload_offset: le_int(s, 0x248, 4) as u32,
        payload_length: le_int(s, 0x24c, 4) as u32,
        setup_data: le_int(s, 0x250, 8) as u64,
        pref_address: le_int(s, 0x258, 8) as u64,
        init_size: le_int(s, 0x260, 4) as u32,
        handover_offset: le_int(s, 0x264, 4) as u32,
    }
}

impl KernelHeader {
    /// Reads the typed header out of a kernel image.  An image too small to
    /// contain the header region is rejected as invalid.
    pub fn new(kernel_image: &Vec<u8>) -> (r: Result<KernelHeader, BootError>)
        ensures
            kernel_image.len() >= HEADER_END ==> r == Ok::<KernelHeader, BootError>(
                spec_header(kernel_image@),
            ),
            kernel_image.len() < HEADER_END ==> r == Err::<KernelHeader, BootError>(
                BootError::InvalidImage,
            ),
    {
        if kernel_image.len() < HEADER_END {
            return Err(BootError::InvalidImage);
        }
        proof {
            lemma2_to64();
            lemma2_to64_rest();
        }
        let h = KernelHeader {
            setup_sects: read_le(kernel_image, 0x1f1, 1) as u8,
            root_flags: read_le(kernel_image, 0x1f2, 2) as u16,
            syssize: read_le(kernel_image, 0x1f4, 4) as u32,
            ram_size: read_le(kernel_image, 0x1f8, 2) as u16,
            vid_mode: read_le(kernel_image, 0x1fa, 2) as u16,
            root_dev: read_le(kernel_image, 0x1fc, 2) as u16,
            boot_flag: read_le(kernel_image, 0x1fe, 2) as u16,
            jump: read_le(kernel_image, 0x200, 2) as u16,
            header: read_le(kernel_image, 0x202, 4) as u32,
            version: read_le(kernel_image, 0x206, 2) as u16,
            realmode_switch: read_le(kernel_image, 0x208, 4) as u32,
            start_sys_seg: read_le(kernel_image, 0x20c, 2) as u16,
            kernel_version: read_le(kernel_image, 0x20e, 2) as u16,
            type_of_loader: read_le(kernel_image, 0x210, 1) as u8,
            load_flags: read_le(kernel_image, 0x211, 1) as u8,
            setup_move_size: read_le(kernel_image, 0x212, 2) as u16,
            code32_start: read_le(kernel_image, 0x214, 4) as u32,
            ramdisk_image: read_le(kernel_image, 0x218, 4) as u32,
            ramdisk_size: read_le(kernel_image, 0x21c, 4) as u32,
            bootsect_kludge: read_le(kernel_image, 0x220, 4) as u32,
            heap_end_ptr: read_le(kernel_image, 0x224, 2) as u16,
            ext_loader_ver: read_le(kernel_image, 0x226, 1) as u8,
            ext_loader_type: read_le(kernel_image, 0x227, 1) as u8,
            cmd_line_ptr: read_le(kernel_image, 0x228, 4) as u32,
            initrd_addr_max: read_le(kernel_image, 0x22c, 4) as u32,
            kernel_alignment: read_le(kernel_image, 0x230, 4) as u32,
            relocatable_kernel: read_le(kernel_image, 0x234, 1) as u8,
            min_alignment: read_le(kernel_image, 0x235, 1) as u8,
            xloadflags: read_le(kernel_image, 0x236, 2) as u16,
            cmdline_size: read_le(kernel_image, 0x238, 4) as u32,
            hardware_subarch: read_le(kernel_image, 0x23c, 4) as u32,
            hardware_subarch_data: read_le(kernel_image, 0x240, 8),
            payload_offset: read_le(kernel_image, 0x248, 4) as u32,
            payload_length: read_le(kernel_image, 0x24c, 4) as u32,
            setup_data: read_le(kernel_image, 0x250, 8),
            pref_address: read_le(kernel_image, 0x258, 8),
            init_size: read_le(kernel_image, 0x260, 4) as u32,
            handover_offset: read_le(kernel_image, 0x264, 4) as u32,
        };
        Ok(h)
    }

    /// The all-zero header of a freshly allocated page.
    pub open spec fn spec_zeroed() -> KernelHeader {
        KernelHeader {
            setup_sects: 0,
            root_flags: 0,
            syssize: 0,
            ram_size: 0,
            vid_mode: 0,
            root_dev: 0,
            boot_flag: 0,
            jump: 0,
            header: 0,
            version: 0,
            realmode_switch: 0,
            start_sys_seg: 0,
            kernel_version: 0,
            type_of_loader: 0,
            load_flags: 0,
            setup_move_size: 0,
            code32_start: 0,
            ramdisk_image: 0,
            ramdisk_size: 0,
            bootsect_kludge: 0,
            heap_end_ptr: 0,
            ext_loader_ver: 0,
            ext_loader_type: 0,
            cmd_line_ptr: 0,
            initrd_addr_max: 0,
            kernel_alignment: 0,
            relocatable_kernel: 0,
            min_alignment: 0,
            xloadflags: 0,
            cmdline_size: 0,
            hardware_subarch: 0,
            hardware_subarch_data: 0,
            payload_offset: 0,
            payload_length: 0,
            setup_data: 0,
            pref_address: 0,
            init_size: 0,
            handover_offset: 0,
        }
    }

    /// Builds the all-zero header.
    pub fn zeroed() -> (r: KernelHeader)
        ensures
            r == KernelHeader::spec_zeroed(),
    {
        KernelHeader {
            setup_sects: 0,
            root_flags: 0,
            syssize: 0,
            ram_size: 0,
            vid_mode: 0,
            root_dev: 0,
            boot_flag: 0,
            jump: 0,
            header: 0,
            version: 0,
            realmode_switch: 0,
            start_sys_seg: 0,
            kernel_version: 0,
            type_of_loader: 0,
            load_flags: 0,
            setup_move_size: 0,
            code32_start: 0,
            ramdisk_image: 0,
            ramdisk_size: 0,
            bootsect_kludge: 0,
            heap_end_ptr: 0,
            ext_loader_ver: 0,
            ext_loader_type: 0,
            cmd_line_ptr: 0,
            initrd_addr_max: 0,
            kernel_alignment: 0,
            relocatable_kernel: 0,
            min_alignment: 0,
            xloadflags: 0,
            cmdline_size: 0,
            hardware_subarch: 0,
            hardware_subarch_data: 0,
            payload_offset: 0,
            payload_length: 0,
            setup_data: 0,
            pref_address: 0,
            init_size: 0,
            handover_offset: 0,
        }
    }
}

/// The boot parameter block.  One page, exclusively owned by the launcher
/// until the final transfer; holds the screen info, the legacy memory map
/// and a copy of the boot header.
pub struct BootParams {
    pub screen_info: ScreenInfo,
    pub e820_entries: u8,
    pub e820_table: Vec<E820Entry>,
    pub kernel_header: KernelHeader,
}

impl BootParams {
    /// The table always holds all of its slots.
    pub open spec fn wf(&self) -> bool {
        self.e820_table@.len() == MAX_E820_ENTRIES
    }

    /// A fresh parameter block: every field zero, as on a newly allocated
    /// page.
    pub fn new() -> (r: BootParams)
        ensures
            r.wf(),
            r.screen_info == ScreenInfo::spec_zeroed(),
            r.kernel_header == KernelHeader::spec_zeroed(),
            r.e820_entries == 0,
            forall|i: int|
                0 <= i < MAX_E820_ENTRIES ==> r.e820_table@[i] == (E820Entry {
                    addr: 0,
                    size: 0,
                    typ: 0,
                }),
    {
        let mut table: Vec<E820Entry> = Vec::new();
        let mut i: usize = 0;
        while i < MAX_E820_ENTRIES
            invariant
                i <= MAX_E820_ENTRIES,
                table@.len() == i,
                forall|j: int|
                    0 <= j < i ==> table@[j] == (E820Entry { addr: 0, size: 0, typ: 0 }),
            decreases MAX_E820_ENTRIES - i,
        {
            table.push(E820Entry { addr: 0, size: 0, typ: 0 });
            i = i + 1;
        }
        BootParams {
            screen_info: ScreenInfo::zeroed(),
            e820_entries: 0,
            e820_table: table,
            kernel_header: KernelHeader::zeroed(),
        }
    }

    /// Translates the firmware's final memory map into the legacy format:
    /// order preserved, each region classified into RAM or reserved, sizes
    /// converted from pages to bytes, and the list truncated to the table's
    /// 128 slots.  Performs no allocation.
    pub fn set_memory_map(&mut self, regions: &Vec<MemoryRegion>)
        requires
            old(self).wf(),
            forall|i: int|
                0 <= i < regions@.len() ==> (#[trigger] regions@[i].page_count) * 4096
                    <= u64::MAX,
        ensures
            final(self).wf(),
            final(self).e820_entries == if regions@.len() < MAX_E820_ENTRIES {
                regions@.len() as int
            } else {
                MAX_E820_ENTRIES as int
            },
            forall|i: int|
                0 <= i < final(self).e820_entries ==> final(self).e820_table@[i] == (E820Entry {
                    addr: regions@[i].phys_start,
                    size: (regions@[i].page_count * 4096) as u64,
                    typ: e820_kind(regions@[i].ty),
                }),
            forall|i: int|
                final(self).e820_entries <= i < MAX_E820_ENTRIES ==> final(self).e820_table@[i]
                    == old(self).e820_table@[i],
            final(self).screen_info == old(self).screen_info,
            final(self).kernel_header == old(self).kernel_header,
    {
        let mut i: usize = 0;
        while i < regions.len() && i < MAX_E820_ENTRIES
            invariant
                self.wf(),
                i <= regions@.len(),
                i <= MAX_E820_ENTRIES,
                forall|k: int|
                    0 <= k < regions@.len() ==> (#[trigger] regions@[k].page_count) * 4096
                        <= u64::MAX,
                forall|k: int|
                    0 <= k < i ==> self.e820_table@[k] == (E820Entry {
                        addr: regions@[k].phys_start,
                        size: (regions@[k].page_count * 4096) as u64,
                        typ: e820_kind(regions@[k].ty),
                    }),
                forall|k: int|
                    i <= k < MAX_E820_ENTRIES ==> self.e820_table@[k] == old(
                        self,
                    ).e820_table@[k],
                self.screen_info == old(self).screen_info,
                self.kernel_header == old(self).kernel_header,
                self.e820_entries == old(self).e820_entries,
            decreases regions@.len() - i,
        {
            let region = regions[i];
            let typ: u32 = if region.ty == MEMORY_TYPE_CONVENTIONAL || region.ty
                == MEMORY_TYPE_BOOT_SERVICES_CODE || region.ty == MEMORY_TYPE_BOOT_SERVICES_DATA
                || region.ty == MEMORY_TYPE_LOADER_CODE || region.ty == MEMORY_TYPE_LOADER_DATA {
                E820_TYPE_RAM
            } else {
                E820_TYPE_RESERVED
            };
            let entry = E820Entry { addr: region.phys_start, size: region.page_count * 4096, typ };
            self.e820_table[i] = entry;
            i = i + 1;
        }
        self.e820_entries = i as u8;
    }

    /// Fills the screen-info block from the active graphics mode.  Only the
    /// 8-bit BGR pixel layout is supported; any other layout fails loudly
    /// rather than describing the framebuffer wrongly.  The 64-bit
    /// framebuffer address is split across the 32-bit low field and the
    /// 32-bit extended field, and a capability bit records that the extended
    /// field is valid.
    pub fn set_video_params(&mut self, mode: &GraphicsMode) -> (r: Result<(), BootError>)
        ensures
            mode.pixel_format is Bgr ==> r == Ok::<(), BootError>(()) && final(self).screen_info
                == video_screen_info(old(self).screen_info, *mode),
            !(mode.pixel_format is Bgr) ==> r == Err::<(), BootError>(
                BootError::UnsupportedPixelFormat,
            ) && final(self).screen_info == old(self).screen_info,
            final(self).e820_entries == old(self).e820_entries,
            final(self).e820_table == old(self).e820_table,
            final(self).kernel_header == old(self).kernel_header,
    {
        match mode.pixel_format {
            PixelFormat::Bgr => {},
            _ => {
                return Err(BootError::UnsupportedPixelFormat);
            },
        }
        self.screen_info.orig_video_page = 0;
        self.screen_info.orig_video_points = 16;
        self.screen_info.lfb_width = #[verifier::truncate] (mode.width as u16);
        self.screen_info.lfb_height = #[verifier::truncate] (mode.height as u16);
        self.screen_info.lfb_depth = 32;
        self.screen_info.lfb_linelength = #[verifier::truncate] (((mode.stride as u64) * 4) as u16);
        self.screen_info.lfb_base = #[verifier::truncate] (mode.framebuffer as u32);
        self.screen_info.ext_lfb_base = (mode.framebuffer >> 32) as u32;
        self.screen_info.capabilities = self.screen_info.capabilities | VIDEO_CAPABILITY_64BIT_BASE;
        self.screen_info.lfb_size = #[verifier::truncate] (mode.framebuffer_size as u32);
        self.screen_info.orig_video_ega_bx = 0;
        self.screen_info.red_size = 8;
        self.screen_info.red_pos = 16;
        self.screen_info.green_size = 8;
        self.screen_info.green_pos = 8;
        self.screen_info.blue_size = 8;
        self.screen_info.blue_pos = 0;
        self.screen_info.rsvd_size = 8;
        self.screen_info.rsvd_pos = 24;
        self.screen_info.orig_x = 0;
        self.screen_info.orig_y = 0;
        self.screen_info.orig_video_cols = 80;
        self.screen_info.orig_video_lines = 25;
        self.screen_info.orig_video_is_vga = VIDEO_TYPE_EFI;
        self.screen_info.orig_video_mode = 0;
        self.screen_info.ext_mem_k = 32768;
        Ok(())
    }
}

/// The marker the kernel's screen-info block uses for an EFI framebuffer
/// console.
pub const VIDEO_TYPE_EFI: u8 = 0x70;

/// The capability bit that marks the framebuffer address as 64 bits wide.
pub const VIDEO_CAPABILITY_64BIT_BASE: u32 = 0b10;

/// The pixel layouts a firmware can report for its framebuffer.
#[derive(Debug, Clone, Copy, PartialEq, Eq, Structural)]
pub enum PixelFormat {
    Rgb,
    Bgr,
    Bitmask,
    BltOnly,
}

/// What the launcher reads of the active graphics mode: the resolution, the
/// scanline stride in pixels, the framebuffer's physical address and byte
/// length, and the pixel layout.
#[derive(Debug, Clone, Copy, PartialEq, Eq, Structural)]
pub struct GraphicsMode {
    pub width: u32,
    pub height: u32,
    pub stride: u32,
    pub framebuffer: u64,
    pub framebuffer_size: u64,
    pub pixel_format: PixelFormat,
}

/// The screen info that describes graphics mode `mode`, over a previous
/// block `old_si`: every field the launcher fills, with the fields it never
/// touches kept from `old_si`.
pub open spec fn video_screen_info(old_si: ScreenInfo, mode: GraphicsMode) -> ScreenInfo {
    ScreenInfo {
        orig_x: 0,
        orig_y: 0,
        ext_mem_k: 32768,
        orig_video_page: 0,
        orig_video_mode: 0,
        orig_video_cols: 80,
        flags: old_si.flags,
        unused2: old_si.unused2,
        orig_video_ega_bx: 0,
        unused3: old_si.unused3,
        orig_video_lines: 25,
        orig_video_is_vga: VIDEO_TYPE_EFI,
        orig_video_points: 16,
        lfb_width: mode.width as u16,
        lfb_height: mode.height as u16,
        lfb_depth: 32,
        lfb_base: mode.framebuffer as u32,
        lfb_size: mode.framebuffer_size as u32,
        cl_magic: old_si.cl_magic,
        cl_offset: old_si.cl_offset,
        lfb_linelength: ((mode.stride as u64) * 4) as u16,
        red_size: 8,
        red_pos: 16,
        green_size: 8,
        green_pos: 8,
        blue_size: 8,
        blue_pos: 0,
        rsvd_size: 8,
        rsvd_pos: 24,
        vesapm_seg: old_si.vesapm_seg,
        vesapm_off: old_si.vesapm_off,
        pages: old_si.pages,
        vesa_attributes: old_si.vesa_attributes,
        capabilities: old_si.capabilities | VIDEO_CAPABILITY_64BIT_BASE,
        ext_lfb_base: (mode.framebuffer >> 32) as u32,
    }
}

/// Offset of the screen info inside the zero page.
pub const SCREEN_INFO_OFFSET: usize = 0;

/// Offset of the memory-map record count inside the zero page.
pub const E820_COUNT_OFFSET: usize = 0x1e8;

/// Offset of the memory-map table inside the zero page.
pub const E820_TABLE_OFFSET: usize = 0x2d0;

/// Bytes per memory-map record.
pub const E820_ENTRY_SIZE: usize = 20;

/// The packed bytes of a memory-map record.
pub open spec fn spec_e820_entry_bytes(e: E820Entry) -> Seq<u8> {
    spec_le_bytes(e.addr, 8) + spec_le_bytes(e.size, 8) + spec_le_bytes(e.typ as u64, 4)
}

impl E820Entry {
    /// The record's twenty bytes, packed little-endian.
    pub fn to_bytes(&self) -> (r: Vec<u8>)
        ensures
            r@ == spec_e820_entry_bytes(*self),
            r@.len() == E820_ENTRY_SIZE,
    {
        let mut out: Vec<u8> = Vec::new();
        push_le(&mut out, 8, self.addr);
        push_le(&mut out, 8, self.size);
        push_le(&mut out, 4, self.typ as u64);
        proof {
            assert(out@ =~= spec_e820_entry_bytes(*self));
        }
        out
    }
}

/// The packed bytes of the screen-info block, slot by slot, with the two
/// reserved trailing bytes clear.
pub open spec fn spec_screen_info_bytes(si: ScreenInfo) -> Seq<u8> {
    spec_le_bytes(si.orig_x as u64, 1) + spec_le_bytes(si.orig_y as u64, 1) + spec_le_bytes(
        si.ext_mem_k as u64,
        2,
    ) + spec_le_bytes(si.orig_video_page as u64, 2) + spec_le_bytes(si.orig_video_mode as u64, 1)
        + spec_le_bytes(si.orig_video_cols as u64, 1) + spec_le_bytes(si.flags as u64, 1)
        + spec_le_bytes(si.unused2 as u64, 1) + spec_le_bytes(si.orig_video_ega_bx as u64, 2)
        + spec_le_bytes(si.unused3 as u64, 2) + spec_le_bytes(si.orig_video_lines as u64, 1)
        + spec_le_bytes(si.orig_video_is_vga as u64, 1) + spec_le_bytes(
        si.orig_video_points as u64,
        2,
    ) + spec_le_bytes(si.lfb_width as u64, 2) + spec_le_bytes(si.lfb_height as u64, 2)
        + spec_le_bytes(si.lfb_depth as u64, 2) + spec_le_bytes(si.lfb_base as u64, 4)
        + spec_le_bytes(si.lfb_size as u64, 4) + spec_le_bytes(si.cl_magic as u64, 2)
        + spec_le_bytes(si.cl_offset as u64, 2) + spec_le_bytes(si.lfb_linelength as u64, 2)
        + spec_le_bytes(si.red_size as u64, 1) + spec_le_bytes(si.red_pos as u64, 1)
        + spec_le_bytes(si.green_size as u64, 1) + spec_le_bytes(si.green_pos as u64, 1)
        + spec_le_bytes(si.blue_size as u64, 1) + spec_le_bytes(si.blue_pos as u64, 1)
        + spec_le_bytes(si.rsvd_size as u64, 1) + spec_le_bytes(si.rsvd_pos as u64, 1)
        + spec_le_bytes(si.vesapm_seg as u64, 2) + spec_le_bytes(si.vesapm_off as u64, 2)
        + spec_le_bytes(si.pages as u64, 2) + spec_le_bytes(si.vesa_attributes as u64, 2)
        + spec_le_bytes(si.capabilities as u64, 4) + spec_le_bytes(si.ext_lfb_base as u64, 4)
        + spec_le_bytes(0, 2)
}

impl ScreenInfo {
    /// The block's 64 bytes in their packed order.
    pub fn to_bytes(&self) -> (r: Vec<u8>)
        ensures
            r@ == spec_screen_info_bytes(*self),
            r@.len() == 0x40,
    {
        let mut out: Vec<u8> = Vec::new();
        push_le(&mut out, 1, self.orig_x as u64);
        push_le(&mut out, 1, self.orig_y as u64);
        push_le(&mut out, 2, self.ext_mem_k as u64);
        push_le(&mut out, 2, self.orig_video_page as u64);
        push_le(&mut out, 1, self.orig_video_mode as u64);
        push_le(&mut out, 1, self.orig_video_cols as u64);
        push_le(&mut out, 1, self.flags as u64);
        push_le(&mut out, 1, self.unused2 as u64);
        push_le(&mut out, 2, self.orig_video_ega_bx as u64);
        push_le(&mut out, 2, self.unused3 as u64);
        push_le(&mut out, 1, self.orig_video_lines as u64);
        push_le(&mut out, 1, self.orig_video_is_vga as u64);
        push_le(&mut out, 2, self.orig_video_points as u64);
        push_le(&mut out, 2, self.lfb_width as u64);
        push_le(&mut out, 2, self.lfb_height as u64);
        push_le(&mut out, 2, self.lfb_depth as u64);
        push_le(&mut out, 4, self.lfb_base as u64);
        push_le(&mut out, 4, self.lfb_size as u64);
        push_le(&mut out, 2, self.cl_magic as u64);
        push_le(&mut out, 2, self.cl_offset as u64);
        push_le(&mut out, 2, self.lfb_linelength as u64);
        push_le(&mut out, 1, self.red_size as u64);
        push_le(&mut out, 1, self.red_pos as u64);
        push_le(&mut out, 1, self.green_size as u64);
        push_le(&mut out, 1, self.green_pos as u64);
        push_le(&mut out, 1, self.blue_size as u64);
        push_le(&mut out, 1, self.blue_pos as u64);
        push_le(&mut out, 1, self.rsvd_size as u64);
        push_le(&mut out, 1, self.rsvd_pos as u64);
        push_le(&mut out, 2, self.vesapm_seg as u64);
        push_le(&mut out, 2, self.vesapm_off as u64);
        push_le(&mut out, 2, self.pages as u64);
        push_le(&mut out, 2, self.vesa_attributes as u64);
        push_le(&mut out, 4, self.capabilities as u64);
        push_le(&mut out, 4, self.ext_lfb_base as u64);
        push_le(&mut out, 2, 0);
        proof {
            assert(out@ =~= spec_screen_info_bytes(*self));
        }
        out
    }
}

/// The packed bytes of the boot header, slot by slot.
pub open spec fn spec_header_bytes(h: KernelHeader) -> Seq<u8> {
    spec_le_bytes(h.setup_sects as u64, 1) + spec_le_bytes(h.root_flags as u64, 2)
        + spec_le_bytes(h.syssize as u64, 4) + spec_le_bytes(h.ram_size as u64, 2)
        + spec_le_bytes(h.vid_mode as u64, 2) + spec_le_bytes(h.root_dev as u64, 2)
        + spec_le_bytes(h.boot_flag as u64, 2) + spec_le_bytes(h.jump as u64, 2)
        + spec_le_bytes(h.header as u64, 4) + spec_le_bytes(h.version as u64, 2)
        + spec_le_bytes(h.realmode_switch as u64, 4) + spec_le_bytes(h.start_sys_seg as u64, 2)
        + spec_le_bytes(h.kernel_version as u64, 2) + spec_le_bytes(h.type_of_loader as u64, 1)
        + spec_le_bytes(h.load_flags as u64, 1) + spec_le_bytes(h.setup_move_size as u64, 2)
        + spec_le_bytes(h.code32_start as u64, 4) + spec_le_bytes(h.ramdisk_image as u64, 4)
        + spec_le_bytes(h.ramdisk_size as u64, 4) + spec_le_bytes(h.bootsect_kludge as u64, 4)
        + spec_le_bytes(h.heap_end_ptr as u64, 2) + spec_le_bytes(h.ext_loader_ver as u64, 1)
        + spec_le_bytes(h.ext_loader_type as u64, 1) + spec_le_bytes(h.cmd_line_ptr as u64, 4)
        + spec_le_bytes(h.initrd_addr_max as u64, 4) + spec_le_bytes(h.kernel_alignment as u64, 4)
        + spec_le_bytes(h.relocatable_kernel as u64, 1) + spec_le_bytes(h.min_alignment as u64, 1)
        + spec_le_bytes(h.xloadflags as u64, 2) + spec_le_bytes(h.cmdline_size as u64, 4)
        + spec_le_bytes(h.hardware_subarch as u64, 4) + spec_le_bytes(h.hardware_subarch_data, 8)
        + spec_le_bytes(h.payload_offset as u64, 4) + spec_le_bytes(h.payload_length as u64, 4)
        + spec_le_bytes(h.setup_data, 8) + spec_le_bytes(h.pref_address, 8) + spec_le_bytes(
        h.init_size as u64,
        4,
    ) + spec_le_bytes(h.handover_offset as u64, 4)
}

impl KernelHeader {
    /// The header's 119 bytes in their packed order, ready to be copied to
    /// offset 0x1f1 of the zero page.
    pub fn to_bytes(&self) -> (r: Vec<u8>)
        ensures
            r@ == spec_header_bytes(*self),
            r@.len() == HEADER_END - HEADER_START,
    {
        let mut out: Vec<u8> = Vec::new();
        push_le(&mut out, 1, self.setup_sects as u64);
        push_le(&mut out, 2, self.root_flags as u64);
        push_le(&mut out, 4, self.syssize as u64);
        push_le(&mut out, 2, self.ram_size as u64);
        push_le(&mut out, 2, self.vid_mode as u64);
        push_le(&mut out, 2, self.root_dev as u64);
        push_le(&mut out, 2, self.boot_flag as u64);
        push_le(&mut out, 2, self.jump as u64);
        push_le(&mut out, 4, self.header as u64);
        push_le(&mut out, 2, self.version as u64);
        push_le(&mut out, 4, self.realmode_switch as u64);
        push_le(&mut out, 2, self.start_sys_seg as u64);
        push_le(&mut out, 2, self.kernel_version as u64);
        push_le(&mut out, 1, self.type_of_loader as u64);
        push_le(&mut out, 1, self.load_flags as u64);
        push_le(&mut out, 2, self.setup_move_size as u64);
        push_le(&mut out, 4, self.code32_start as u64);
        push_le(&mut out, 4, self.ramdisk_image as u64);
        push_le(&mut out, 4, self.ramdisk_size as u64);
        push_le(&mut out, 4, self.bootsect_kludge as u64);
        push_le(&mut out, 2, self.heap_end_ptr as u64);
        push_le(&mut out, 1, self.ext_loader_ver as u64);
        push_le(&mut out, 1, self.ext_loader_type as u64);
        push_le(&mut out, 4, self.cmd_line_ptr as u64);
        push_le(&mut out, 4, self.initrd_addr_max as u64);
        push_le(&mut out, 4, self.kernel_alignment as u64);
        push_le(&mut out, 1, self.relocatable_kernel as u64);
        push_le(&mut out, 1, self.min_alignment as u64);
        push_le(&mut out, 2, self.xloadflags as u64);
        push_le(&mut out, 4, self.cmdline_size as u64);
        push_le(&mut out, 4, self.hardware_subarch as u64);
        push_le(&mut out, 8, self.hardware_subarch_data);
        push_le(&mut out, 4, self.payload_offset as u64);
        push_le(&mut out, 4, self.payload_length as u64);
        push_le(&mut out, 8, self.setup_data);
        push_le(&mut out, 8, self.pref_address);
        push_le(&mut out, 4, self.init_size as u64);
        push_le(&mut out, 4, self.handover_offset as u64);
        proof {
            assert(out@ =~= spec_header_bytes(*self));
        }
        out
    }
}

/// A run of clear bytes.
pub open spec fn spec_zeros(k: nat) -> Seq<u8> {
    Seq::new(k, |i: int| 0u8)
}

/// Appends `count` clear bytes.
fn push_zeros(page: &mut Vec<u8>, count: usize)
    ensures
        final(page)@ == old(page)@ + spec_zeros(count as nat),
{
    let mut k: usize = 0;
    proof {
        assert(page@ =~= old(page)@ + spec_zeros(0));
    }
    while k < count
        invariant
            k <= count,
            page@ == old(page)@ + spec_zeros(k as nat),
        decreases count - k,
    {
        page.push(0);
        proof {
            assert(page@ =~= old(page)@ + spec_zeros(k as nat + 1));
        }
        k = k + 1;
    }
}

/// The packed bytes of the first `n` memory-map records.
pub open spec fn spec_e820_table_bytes(entries: Seq<E820Entry>, n: int) -> Seq<u8>
    decreases n,
{
    if n <= 0 {
        Seq::empty()
    } else {
        spec_e820_table_bytes(entries, n - 1) + spec_e820_entry_bytes(entries[n - 1])
    }
}

/// The table bytes of `n` records are twenty bytes per record.
pub proof fn lemma_e820_table_bytes_len(entries: Seq<E820Entry>, n: int)
    requires
        n >= 0,
    ensures
        spec_e820_table_bytes(entries, n).len() == E820_ENTRY_SIZE * n,
    decreases n,
{
    if n > 0 {
        lemma_e820_table_bytes_len(entries, n - 1);
    }
}

/// The whole zero page a parameter block describes: the screen info at its
/// start, the record count, the header copy and the memory-map table at
/// their documented offsets, and every other byte clear.
pub open spec fn spec_zero_page_bytes(bp: BootParams) -> Seq<u8> {
    spec_screen_info_bytes(bp.screen_info) + spec_zeros((E820_COUNT_OFFSET - 0x40) as nat) + seq![
        bp.e820_entries,
    ] + spec_zeros((HEADER_START - E820_COUNT_OFFSET - 1) as nat) + spec_header_bytes(
        bp.kernel_header,
    ) + spec_zeros((E820_TABLE_OFFSET - HEADER_END) as nat) + spec_e820_table_bytes(
        bp.e820_table@,
        MAX_E820_ENTRIES as int,
    ) + spec_zeros((4096 - E820_TABLE_OFFSET - MAX_E820_ENTRIES * E820_ENTRY_SIZE) as nat)
}

impl BootParams {
    /// The parameter block as the 4096 bytes of its page, ready to be
    /// copied onto the zero page in one piece.
    pub fn to_bytes(&self) -> (r: Vec<u8>)
        requires
            self.wf(),
        ensures
            r@ == spec_zero_page_bytes(*self),
            r@.len() == 4096,
    {
        let mut page = self.screen_info.to_bytes();
        push_zeros(&mut page, E820_COUNT_OFFSET - 0x40);
        let ghost before_count = page@;
        page.push(self.e820_entries);
        proof {
            assert(page@ =~= before_count + seq![self.e820_entries]);
        }
        push_zeros(&mut page, HEADER_START - E820_COUNT_OFFSET - 1);
        let mut header = self.kernel_header.to_bytes();
        page.append(&mut header);
        push_zeros(&mut page, E820_TABLE_OFFSET - HEADER_END);
        let ghost prefix = page@;
        let mut k: usize = 0;
        proof {
            assert(page@ =~= prefix + spec_e820_table_bytes(self.e820_table@, 0));
        }
        while k < MAX_E820_ENTRIES
            invariant
                self.wf(),
                k <= MAX_E820_ENTRIES,
                page@ == prefix + spec_e820_table_bytes(self.e820_table@, k as int),
            decreases MAX_E820_ENTRIES - k,
        {
            let mut entry_bytes = self.e820_table[k].to_bytes();
            page.append(&mut entry_bytes);
            proof {
                assert(page@ =~= prefix + spec_e820_table_bytes(
                    self.e820_table@,
                    k as int + 1,
                ));
            }
            k = k + 1;
        }
        push_zeros(&mut page, 4096 - E820_TABLE_OFFSET - MAX_E820_ENTRIES * E820_ENTRY_SIZE);
        proof {
            lemma_e820_table_bytes_len(self.e820_table@, MAX_E820_ENTRIES as int);
        }
        page
    }
}

} // verus!
