use myboot::errors::BootError;
use myboot::kernel::{HandoverPath, Kernel};
use myboot::zero_page::KernelHeader;

/// A synthetic 64 KiB image that passes validation and selects the normal
/// path: good magic bytes, protocol 2.12, relocatable, EFI-handover bit
/// clear.
fn accepted_image() -> Vec<u8> {
    let mut image = vec![0u8; 64 * 1024];
    image[0x1fe] = 0x55; // boot_flag = 0xAA55
    image[0x1ff] = 0xAA;
    image[0x202] = 0x48; // header = "HdrS"
    image[0x203] = 0x64;
    image[0x204] = 0x72;
    image[0x205] = 0x53;
    image[0x206] = 0x0c; // version = 0x020c
    image[0x207] = 0x02;
    image[0x234] = 1; // relocatable_kernel
    image[0x264] = 0x90; // handover_offset = 0x190
    image[0x265] = 0x01;
    image
}

#[test]
fn accept_and_choose_normal_path() {
    let kernel = Kernel::new(accepted_image()).unwrap();
    assert!(matches!(kernel.handover_path(), HandoverPath::NormalHandover));
    let relocated: u64 = 0x40_0000;
    assert_eq!(Kernel::entry_point_normal(relocated), relocated + 0x200);
}

#[test]
fn accept_and_choose_efi_path() {
    let mut image = accepted_image();
    image[0x236] = 0b1000; // xloadflags bit 3
    let kernel = Kernel::new(image).unwrap();
    assert!(matches!(kernel.handover_path(), HandoverPath::EfiHandover));
    let relocated: u64 = 0x40_0000;
    let handover_offset = kernel.header().handover_offset;
    assert_eq!(handover_offset, 0x190);
    assert_eq!(
        Kernel::entry_point_efi(relocated, handover_offset),
        relocated + 0x200 + 0x190
    );
}

#[test]
fn reject_old_protocol() {
    let mut image = accepted_image();
    image[0x206] = 0x09; // version = 0x0209
    image[0x207] = 0x02;
    match Kernel::new(image) {
        Err(BootError::UnsupportedProtocolVersion) => {}
        _ => panic!("expected UnsupportedProtocolVersion"),
    }
}

#[test]
fn reject_non_relocatable() {
    let mut image = accepted_image();
    image[0x234] = 0; // relocatable_kernel = 0
    match Kernel::new(image) {
        Err(BootError::NotRelocatable) => {}
        _ => panic!("expected NotRelocatable"),
    }
}

#[test]
fn reject_bad_boot_flag() {
    let mut image = accepted_image();
    image[0x1fe] = 0x54;
    match Kernel::new(image) {
        Err(BootError::InvalidImage) => {}
        _ => panic!("expected InvalidImage"),
    }
}

#[test]
fn reject_bad_header_magic() {
    let mut image = accepted_image();
    image[0x202] = 0x47;
    match Kernel::new(image) {
        Err(BootError::InvalidImage) => {}
        _ => panic!("expected InvalidImage"),
    }
}

#[test]
fn reject_too_small_image() {
    let image = vec![0u8; 0x200];
    match Kernel::new(image) {
        Err(BootError::InvalidImage) => {}
        _ => panic!("expected InvalidImage"),
    }
}

#[test]
fn validation_is_precise() {
    let mut header = KernelHeader::zeroed();
    header.boot_flag = 0xAA55;
    header.header = 0x53726448;
    header.version = 0x020c;
    header.relocatable_kernel = 1;
    assert!(Kernel::check_support(&header).is_ok());

    let mut bad = header;
    bad.boot_flag = 0x1234;
    assert_eq!(Kernel::check_support(&bad), Err(BootError::InvalidImage));

    let mut bad = header;
    bad.header = 0x53726449;
    assert_eq!(Kernel::check_support(&bad), Err(BootError::InvalidImage));

    let mut bad = header;
    bad.version = 0x020b;
    assert_eq!(Kernel::check_support(&bad), Err(BootError::UnsupportedProtocolVersion));

    let mut bad = header;
    bad.relocatable_kernel = 0;
    assert_eq!(Kernel::check_support(&bad), Err(BootError::NotRelocatable));
}

#[test]
fn parsed_header_reads_the_image_fields() {
    let image = accepted_image();
    let header = KernelHeader::new(&image).unwrap();
    assert_eq!(header.boot_flag, 0xAA55);
    assert_eq!(header.header, 0x53726448);
    assert_eq!(header.version, 0x020c);
    assert_eq!(header.relocatable_kernel, 1);
    assert_eq!(header.handover_offset, 0x190);
    assert_eq!(header.xloadflags, 0);
}

#[test]
fn prepared_params_record_the_shared_fields() {
    let kernel = Kernel::new(accepted_image()).unwrap();
    let params = kernel.prepare_boot_params(0x9_8000, Some((0x100_0000, 0x40_0000)));
    assert_eq!(params.kernel_header.cmd_line_ptr, 0x9_8000);
    assert_eq!(params.kernel_header.ramdisk_image, 0x100_0000);
    assert_eq!(params.kernel_header.ramdisk_size, 0x40_0000);
    assert_eq!(params.kernel_header.type_of_loader, 0xFF);
    assert_eq!(params.kernel_header.vid_mode, 0xFFFF);
    assert_eq!(params.kernel_header.boot_flag, 0xAA55);
    assert_eq!(params.e820_entries, 0);
}

#[test]
fn missing_ramdisk_is_recorded_as_zero() {
    let kernel = Kernel::new(accepted_image()).unwrap();
    let params = kernel.prepare_boot_params(0x9_8000, None);
    assert_eq!(params.kernel_header.ramdisk_image, 0);
    assert_eq!(params.kernel_header.ramdisk_size, 0);
}

#[test]
fn magic_number_check_reads_the_first_bytes() {
    let mut image = accepted_image();
    image[0] = 0x4d;
    image[1] = 0x5a;
    let kernel = Kernel::new(image).unwrap();
    assert!(kernel.check_magic_number());
}

#[test]
fn protected_mode_start_counts_setup_sectors() {
    assert_eq!(Kernel::protected_mode_start(4), 4 * 512 + 512);
    assert_eq!(Kernel::protected_mode_start(0), 512);
}

#[test]
fn align_up_rounds_to_the_next_boundary() {
    assert_eq!(myboot::kernel::align_up(0, 0x20_0000), 0);
    assert_eq!(myboot::kernel::align_up(1, 0x20_0000), 0x20_0000);
    assert_eq!(myboot::kernel::align_up(0x20_0000, 0x20_0000), 0x20_0000);
    assert_eq!(myboot::kernel::align_up(0x20_0001, 0x20_0000), 0x40_0000);
}

#[test]
fn cmdline_page_is_text_then_zeroes() {
    let cmdline = b"root=/dev/sda1 quiet".to_vec();
    let page = myboot::kernel::cmdline_page_bytes(&cmdline);
    assert_eq!(page.len(), 4096);
    assert_eq!(&page[..cmdline.len()], &cmdline[..]);
    assert!(page[cmdline.len()..].iter().all(|&b| b == 0));
}
