use myboot::kernel_params::{KernelParam, KernelParams};

fn image_with_header() -> Vec<u8> {
    let mut image = vec![0u8; 0x10000];
    image[0x1fe] = 0x55;
    image[0x1ff] = 0xAA;
    image
}

fn set_get(params: &mut KernelParams, param: KernelParam, value: u64) -> u64 {
    params.set_param(param, value);
    params.get_param(param)
}

#[test]
fn round_trip_every_field_max_value() {
    let image = image_with_header();
    let mut params = KernelParams::new(&image);
    assert_eq!(set_get(&mut params, KernelParam::SetupSects, 0xFF), 0xFF);
    assert_eq!(set_get(&mut params, KernelParam::RootFlags, 0xFFFF), 0xFFFF);
    assert_eq!(set_get(&mut params, KernelParam::VidMode, 0xFFFF), 0xFFFF);
    assert_eq!(set_get(&mut params, KernelParam::BootFlag, 0xAA55), 0xAA55);
    assert_eq!(set_get(&mut params, KernelParam::Header, 0x53726448), 0x53726448);
    assert_eq!(set_get(&mut params, KernelParam::Version, 0x020c), 0x020c);
    assert_eq!(set_get(&mut params, KernelParam::TypeOfLoader, 0xFF), 0xFF);
    assert_eq!(set_get(&mut params, KernelParam::LoadFlags, 0x81), 0x81);
    assert_eq!(set_get(&mut params, KernelParam::Code32Start, 0xFFFF_FFFF), 0xFFFF_FFFF);
    assert_eq!(set_get(&mut params, KernelParam::RamdiskImage, 0x1234_5678), 0x1234_5678);
    assert_eq!(set_get(&mut params, KernelParam::RamdiskSize, 0x9ABC_DEF0), 0x9ABC_DEF0);
    assert_eq!(set_get(&mut params, KernelParam::HeapEndPtr, 0xE000), 0xE000);
    assert_eq!(set_get(&mut params, KernelParam::CmdLinePtr, 0x0009_8000), 0x0009_8000);
    assert_eq!(set_get(&mut params, KernelParam::KernelAlignment, 0x0020_0000), 0x0020_0000);
    assert_eq!(set_get(&mut params, KernelParam::RelocatableKernel, 1), 1);
    assert_eq!(set_get(&mut params, KernelParam::MinAlignment, 0x15), 0x15);
    assert_eq!(set_get(&mut params, KernelParam::XLoadflags, 0b1000), 0b1000);
    assert_eq!(set_get(&mut params, KernelParam::CmdlineSize, 2047), 2047);
    assert_eq!(
        set_get(&mut params, KernelParam::PrefAddress, 0xFFFF_FFFF_FFFF_FFFF),
        0xFFFF_FFFF_FFFF_FFFF
    );
    assert_eq!(set_get(&mut params, KernelParam::InitSize, 0x00A0_0000), 0x00A0_0000);
    assert_eq!(set_get(&mut params, KernelParam::HandoverOffset, 0x190), 0x190);
}

#[test]
fn writes_truncate_to_field_width() {
    let image = image_with_header();
    let mut params = KernelParams::new(&image);
    params.set_param(KernelParam::SetupSects, 0x1_02);
    assert_eq!(params.get_param(KernelParam::SetupSects), 0x02);
    params.set_param(KernelParam::HeapEndPtr, 0x12_3456);
    assert_eq!(params.get_param(KernelParam::HeapEndPtr), 0x3456);
}

#[test]
fn reads_are_little_endian() {
    let mut image = image_with_header();
    image[0x214] = 0x78;
    image[0x215] = 0x56;
    image[0x216] = 0x34;
    image[0x217] = 0x12;
    let params = KernelParams::new(&image);
    assert_eq!(params.get_param(KernelParam::Code32Start), 0x1234_5678);
}

#[test]
fn setting_one_field_leaves_neighbours_alone() {
    let mut image = image_with_header();
    image[0x234] = 1;
    image[0x235] = 0x15;
    let mut params = KernelParams::new(&image);
    params.set_param(KernelParam::RelocatableKernel, 0);
    assert_eq!(params.get_param(KernelParam::MinAlignment), 0x15);
    assert_eq!(params.get_param(KernelParam::BootFlag), 0xAA55);
}

#[test]
fn offsets_match_the_documented_table() {
    assert_eq!(KernelParam::SetupSects.offset_and_size(), (0x1f1 - 0x1f1, 1));
    assert_eq!(KernelParam::VidMode.offset_and_size(), (0x1fa - 0x1f1, 2));
    assert_eq!(KernelParam::BootFlag.offset_and_size(), (0x1fe - 0x1f1, 2));
    assert_eq!(KernelParam::Header.offset_and_size(), (0x202 - 0x1f1, 4));
    assert_eq!(KernelParam::Version.offset_and_size(), (0x206 - 0x1f1, 2));
    assert_eq!(KernelParam::TypeOfLoader.offset_and_size(), (0x210 - 0x1f1, 1));
    assert_eq!(KernelParam::LoadFlags.offset_and_size(), (0x211 - 0x1f1, 1));
    assert_eq!(KernelParam::Code32Start.offset_and_size(), (0x214 - 0x1f1, 4));
    assert_eq!(KernelParam::RamdiskImage.offset_and_size(), (0x218 - 0x1f1, 4));
    assert_eq!(KernelParam::RamdiskSize.offset_and_size(), (0x21c - 0x1f1, 4));
    assert_eq!(KernelParam::HeapEndPtr.offset_and_size(), (0x224 - 0x1f1, 2));
    assert_eq!(KernelParam::CmdLinePtr.offset_and_size(), (0x228 - 0x1f1, 4));
    assert_eq!(KernelParam::KernelAlignment.offset_and_size(), (0x230 - 0x1f1, 4));
    assert_eq!(KernelParam::RelocatableKernel.offset_and_size(), (0x234 - 0x1f1, 1));
    assert_eq!(KernelParam::MinAlignment.offset_and_size(), (0x235 - 0x1f1, 1));
    assert_eq!(KernelParam::XLoadflags.offset_and_size(), (0x236 - 0x1f1, 2));
    assert_eq!(KernelParam::PrefAddress.offset_and_size(), (0x258 - 0x1f1, 8));
    assert_eq!(KernelParam::InitSize.offset_and_size(), (0x260 - 0x1f1, 4));
    assert_eq!(KernelParam::HandoverOffset.offset_and_size(), (0x264 - 0x1f1, 4));
}

#[test]
fn from_bytes_zero_pads() {
    let bytes = vec![0x78, 0x56];
    assert_eq!(myboot::kernel_params::from_bytes(&bytes), 0x5678);
    let empty: Vec<u8> = Vec::new();
    assert_eq!(myboot::kernel_params::from_bytes(&empty), 0);
}

#[test]
fn to_bytes_is_little_endian() {
    let bytes = myboot::kernel_params::to_bytes(0x0102_0304_0506_0708);
    assert_eq!(bytes, [0x08, 0x07, 0x06, 0x05, 0x04, 0x03, 0x02, 0x01]);
}
