use myboot::errors::BootError;
use myboot::zero_page::{
    BootParams, GraphicsMode, KernelHeader, MemoryRegion, PixelFormat, E820_TYPE_RAM,
    E820_TYPE_RESERVED,
};

fn region(start: u64, pages: u64, ty: u32) -> MemoryRegion {
    MemoryRegion { phys_start: start, page_count: pages, ty }
}

#[test]
fn memory_map_classifies_usable_types_as_ram() {
    let mut params = BootParams::new();
    let regions = vec![
        region(0x0000, 16, 7),  // conventional
        region(0x10000, 8, 3),  // boot-services code
        region(0x18000, 8, 4),  // boot-services data
        region(0x20000, 4, 1),  // loader code
        region(0x24000, 4, 2),  // loader data
    ];
    params.set_memory_map(&regions);
    assert_eq!(params.e820_entries, 5);
    for i in 0..5 {
        assert_eq!(params.e820_table[i].typ, E820_TYPE_RAM);
    }
}

#[test]
fn memory_map_classifies_everything_else_as_reserved() {
    let mut params = BootParams::new();
    let regions = vec![
        region(0x0000, 1, 0),   // reserved
        region(0x1000, 1, 5),   // runtime services code
        region(0x2000, 1, 6),   // runtime services data
        region(0x3000, 1, 8),   // unusable
        region(0x4000, 1, 11),  // mmio
    ];
    params.set_memory_map(&regions);
    assert_eq!(params.e820_entries, 5);
    for i in 0..5 {
        assert_eq!(params.e820_table[i].typ, E820_TYPE_RESERVED);
    }
}

#[test]
fn memory_map_converts_pages_to_bytes_and_keeps_order() {
    let mut params = BootParams::new();
    let regions = vec![region(0x9000, 3, 7), region(0x1000, 2, 0)];
    params.set_memory_map(&regions);
    assert_eq!(params.e820_entries, 2);
    assert_eq!(params.e820_table[0].addr, 0x9000);
    assert_eq!(params.e820_table[0].size, 3 * 4096);
    assert_eq!(params.e820_table[0].typ, E820_TYPE_RAM);
    assert_eq!(params.e820_table[1].addr, 0x1000);
    assert_eq!(params.e820_table[1].size, 2 * 4096);
    assert_eq!(params.e820_table[1].typ, E820_TYPE_RESERVED);
}

#[test]
fn memory_map_truncates_to_the_table_size() {
    let mut params = BootParams::new();
    let mut regions = Vec::new();
    for i in 0..200u64 {
        regions.push(region(i * 0x1000, 1, 7));
    }
    params.set_memory_map(&regions);
    assert_eq!(params.e820_entries, 128);
    assert_eq!(params.e820_table[127].addr, 127 * 0x1000);
}

fn bgr_mode() -> GraphicsMode {
    GraphicsMode {
        width: 1920,
        height: 1080,
        stride: 1920,
        framebuffer: 0x4_2345_6000,
        framebuffer_size: 1920 * 1080 * 4,
        pixel_format: PixelFormat::Bgr,
    }
}

#[test]
fn video_params_split_the_framebuffer_address() {
    let mut params = BootParams::new();
    params.set_video_params(&bgr_mode()).unwrap();
    let si = &params.screen_info;
    assert_eq!(si.lfb_base, 0x2345_6000);
    assert_eq!(si.ext_lfb_base, 0x4);
    assert_eq!(si.capabilities & 0b10, 0b10);
}

#[test]
fn video_params_describe_the_mode() {
    let mut params = BootParams::new();
    params.set_video_params(&bgr_mode()).unwrap();
    let si = &params.screen_info;
    assert_eq!(si.lfb_width, 1920);
    assert_eq!(si.lfb_height, 1080);
    assert_eq!(si.lfb_depth, 32);
    assert_eq!(si.lfb_linelength, 1920 * 4);
    assert_eq!(si.lfb_size, 1920 * 1080 * 4);
    assert_eq!((si.red_size, si.red_pos), (8, 16));
    assert_eq!((si.green_size, si.green_pos), (8, 8));
    assert_eq!((si.blue_size, si.blue_pos), (8, 0));
    assert_eq!((si.rsvd_size, si.rsvd_pos), (8, 24));
    assert_eq!(si.orig_video_is_vga, 0x70);
    assert_eq!(si.orig_video_cols, 80);
    assert_eq!(si.orig_video_lines, 25);
}

#[test]
fn unsupported_pixel_format_fails_loudly() {
    let mut params = BootParams::new();
    let mut mode = bgr_mode();
    mode.pixel_format = PixelFormat::Rgb;
    assert_eq!(params.set_video_params(&mode), Err(BootError::UnsupportedPixelFormat));
    assert_eq!(params.screen_info.lfb_width, 0);
    mode.pixel_format = PixelFormat::BltOnly;
    assert_eq!(params.set_video_params(&mode), Err(BootError::UnsupportedPixelFormat));
}

#[test]
fn header_bytes_round_trip_through_the_image() {
    let mut image = vec![0u8; 0x10000];
    for i in 0x1f1..0x268 {
        image[i] = (i % 251) as u8;
    }
    let header = KernelHeader::new(&image).unwrap();
    let bytes = header.to_bytes();
    assert_eq!(&bytes[..], &image[0x1f1..0x268]);
}

#[test]
fn e820_entry_bytes_are_packed_little_endian() {
    let entry = myboot::zero_page::E820Entry {
        addr: 0x0102_0304_0506_0708,
        size: 0x1000,
        typ: 2,
    };
    let bytes = entry.to_bytes();
    assert_eq!(bytes.len(), 20);
    assert_eq!(&bytes[0..8], &[0x08, 0x07, 0x06, 0x05, 0x04, 0x03, 0x02, 0x01]);
    assert_eq!(&bytes[8..16], &[0x00, 0x10, 0, 0, 0, 0, 0, 0]);
    assert_eq!(&bytes[16..20], &[2, 0, 0, 0]);
}

#[test]
fn screen_info_bytes_place_the_documented_fields() {
    let mut params = BootParams::new();
    params.set_video_params(&bgr_mode()).unwrap();
    let bytes = params.screen_info.to_bytes();
    assert_eq!(bytes.len(), 0x40);
    // lfb_width at 0x12, lfb_height at 0x14, lfb_base at 0x18
    assert_eq!(u16::from_le_bytes([bytes[0x12], bytes[0x13]]), 1920);
    assert_eq!(u16::from_le_bytes([bytes[0x14], bytes[0x15]]), 1080);
    assert_eq!(
        u32::from_le_bytes([bytes[0x18], bytes[0x19], bytes[0x1a], bytes[0x1b]]),
        0x2345_6000
    );
    // ext_lfb_base at 0x3a
    assert_eq!(
        u32::from_le_bytes([bytes[0x3a], bytes[0x3b], bytes[0x3c], bytes[0x3d]]),
        0x4
    );
    // orig_video_isVGA at 0x0f
    assert_eq!(bytes[0x0f], 0x70);
}

#[test]
fn fresh_boot_params_are_zeroed() {
    let params = BootParams::new();
    assert_eq!(params.e820_entries, 0);
    assert_eq!(params.e820_table.len(), 128);
    assert!(params.e820_table.iter().all(|e| e.addr == 0 && e.size == 0 && e.typ == 0));
    assert_eq!(params.kernel_header.boot_flag, 0);
    assert_eq!(params.screen_info.lfb_base, 0);
}

#[test]
fn zero_page_bytes_place_everything_at_its_offset() {
    let mut params = BootParams::new();
    params.kernel_header.boot_flag = 0xAA55;
    params.kernel_header.code32_start = 0x0040_0000;
    params.set_memory_map(&vec![region(0x9000, 3, 7)]);
    let page = params.to_bytes();
    assert_eq!(page.len(), 4096);
    // boot_flag inside the header copy at 0x1fe
    assert_eq!(u16::from_le_bytes([page[0x1fe], page[0x1ff]]), 0xAA55);
    // code32_start at 0x214
    assert_eq!(
        u32::from_le_bytes([page[0x214], page[0x215], page[0x216], page[0x217]]),
        0x0040_0000
    );
    // record count at 0x1e8, first record at 0x2d0
    assert_eq!(page[0x1e8], 1);
    assert_eq!(
        u64::from_le_bytes(page[0x2d0..0x2d8].try_into().unwrap()),
        0x9000
    );
    assert_eq!(
        u64::from_le_bytes(page[0x2d8..0x2e0].try_into().unwrap()),
        3 * 4096
    );
    assert_eq!(
        u32::from_le_bytes(page[0x2e0..0x2e4].try_into().unwrap()),
        E820_TYPE_RAM
    );
    // untouched gaps stay clear
    assert!(page[0x40..0x1e8].iter().all(|&b| b == 0));
    assert!(page[0x2e4..].iter().all(|&b| b == 0));
}
