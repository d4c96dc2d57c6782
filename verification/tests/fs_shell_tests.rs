use myboot::disk::{drive_name, human_readable_size, partition_name, u64_to_dec_string, DriveKind};
use myboot::fs::{Directory, File, FileType, FsPath};
use myboot::shell::{
    find_version, kernel_image_version, parse_command, parse_usize, quickstart_cmdline,
    ramdisk_image_version, Program,
};

#[test]
fn parse_accepts_absolute_paths_only() {
    let p = FsPath::parse("/sda1/boot/vmlinuz").unwrap();
    assert_eq!(p.components, vec!["sda1", "boot", "vmlinuz"]);
    assert!(FsPath::parse("sda1/boot").is_err());
    assert!(FsPath::parse("").is_err());
}

#[test]
fn parse_drops_empty_components() {
    let p = FsPath::parse("//sda1///boot/").unwrap();
    assert_eq!(p.components, vec!["sda1", "boot"]);
}

#[test]
fn push_appends_and_merges_dots() {
    let mut p = FsPath::parse("/sda1/boot/grub").unwrap();
    p.push("../kernels/./latest");
    assert_eq!(p.components, vec!["sda1", "boot", "kernels", "latest"]);
}

#[test]
fn push_with_absolute_path_replaces() {
    let mut p = FsPath::parse("/sda1/boot").unwrap();
    p.push("/sdb2/etc");
    assert_eq!(p.components, vec!["sdb2", "etc"]);
}

#[test]
fn push_empty_changes_nothing() {
    let mut p = FsPath::parse("/sda1/boot").unwrap();
    p.push("");
    assert_eq!(p.components, vec!["sda1", "boot"]);
}

#[test]
fn climbing_above_the_root_collapses() {
    let mut p = FsPath::new();
    p.push("a");
    p.push("../..");
    assert!(p.components.is_empty());
}

#[test]
fn renderings_include_or_drop_the_partition() {
    let p = FsPath::parse("/sda1/boot/vmlinuz").unwrap();
    assert_eq!(p.to_full_string(), "/sda1/boot/vmlinuz");
    assert_eq!(p.path_on_partition(), "/boot/vmlinuz");
    assert_eq!(p.to_backslash_string(), "\\boot\\vmlinuz");
    let root = FsPath::new();
    assert_eq!(root.to_full_string(), "/");
    let partition_only = FsPath::parse("/sda1").unwrap();
    assert_eq!(partition_only.path_on_partition(), "/");
}

#[test]
fn files_report_their_fields() {
    let f = File::new("vmlinuz-6.1".to_string(), FileType::File, 123456);
    assert_eq!(f.name(), "vmlinuz-6.1");
    assert!(f.is_regular_file());
    assert_eq!(f.size(), 123456);
    let d = File::new("boot".to_string(), FileType::Directory, 0);
    assert!(!d.is_regular_file());
    let dir = Directory::new(vec![f, d]);
    assert_eq!(dir.files().len(), 2);
}

#[test]
fn parse_command_splits_on_spaces() {
    let (prog, args) = parse_command("runkernel /sda1/vmlinuz quiet").unwrap();
    assert_eq!(prog, "runkernel");
    assert_eq!(args, vec!["/sda1/vmlinuz", "quiet"]);
}

#[test]
fn parse_command_honours_quotes() {
    let (prog, args) = parse_command("runkernel /sda1/vmlinuz 'root=/dev/sda1 quiet'").unwrap();
    assert_eq!(prog, "runkernel");
    assert_eq!(args, vec!["/sda1/vmlinuz", "root=/dev/sda1 quiet"]);
    let (_, args) = parse_command("echo \"a b\" 'c \"d\"'").unwrap();
    assert_eq!(args, vec!["a b", "c \"d\""]);
}

#[test]
fn parse_command_honours_escapes() {
    let (prog, args) = parse_command("ls \\\\weird").unwrap();
    assert_eq!(prog, "ls");
    assert_eq!(args, vec!["\\weird"]);
}

#[test]
fn parse_command_rejects_escaped_space_and_empty() {
    assert!(parse_command("ls \\ x").is_none());
    assert!(parse_command("").is_none());
    assert!(parse_command("   ").is_none());
}

#[test]
fn programs_answer_to_their_names() {
    assert!(matches!(Program::from("help"), Some(Program::HELP)));
    assert!(matches!(Program::from("runkernel"), Some(Program::RUNKERNEL)));
    assert!(Program::from("reboot").is_none());
    assert_eq!(Program::RUNEFI.name(), "runefi");
    assert_eq!(Program::CD.name(), "cd");
}

#[test]
fn kernel_names_give_their_versions() {
    assert_eq!(kernel_image_version("vmlinuz-6.1.0-13-amd64").as_deref(), Some("6.1.0-13-amd64"));
    assert_eq!(kernel_image_version("bzImage-test").as_deref(), Some("test"));
    assert!(kernel_image_version("vmlinuz-").is_none());
    assert!(kernel_image_version("vmlinux-6.1").is_none());
    assert!(kernel_image_version("config-6.1.0").is_none());
}

#[test]
fn ramdisk_names_give_their_versions() {
    assert_eq!(
        ramdisk_image_version("initrd.img-6.1.0-13-amd64").as_deref(),
        Some("6.1.0-13-amd64")
    );
    assert_eq!(ramdisk_image_version("initramfs-6.6.img").as_deref(), Some("6.6.img"));
    assert!(ramdisk_image_version("initrd").is_none());
}

#[test]
fn versions_pair_kernels_with_ramdisks() {
    let rs = vec![
        ("6.1".to_string(), FsPath::parse("/sda1/boot/initrd.img-6.1").unwrap()),
        ("6.2".to_string(), FsPath::parse("/sda1/boot/initrd.img-6.2").unwrap()),
    ];
    let hit = find_version(&rs, "6.2").unwrap();
    assert_eq!(hit.to_full_string(), "/sda1/boot/initrd.img-6.2");
    assert!(find_version(&rs, "6.3").is_none());
}

#[test]
fn quickstart_cmdline_names_the_root_device() {
    assert_eq!(quickstart_cmdline("sda1"), "root=/dev/sda1");
}

#[test]
fn parse_usize_reads_decimal_indices() {
    assert_eq!(parse_usize("0"), Some(0));
    assert_eq!(parse_usize("17"), Some(17));
    assert!(parse_usize("").is_none());
    assert!(parse_usize("1a").is_none());
    assert!(parse_usize("99999999999999999999999999").is_none());
}

#[test]
fn sizes_render_with_units() {
    assert_eq!(human_readable_size(0), "   0 B  ");
    assert_eq!(human_readable_size(512), " 512 B  ");
    assert_eq!(human_readable_size(20 * 1024), "  20 KiB");
    assert_eq!(human_readable_size(500 * 1024 * 1024), " 500 MiB");
    assert_eq!(human_readable_size(64 * 1024 * 1024 * 1024), "  64 GiB");
    assert_eq!(human_readable_size(10 * 1024 - 1), "10239 B  ");
}

#[test]
fn decimal_rendering_is_exact() {
    assert_eq!(u64_to_dec_string(0), "0");
    assert_eq!(u64_to_dec_string(10), "10");
    assert_eq!(u64_to_dec_string(18446744073709551615), "18446744073709551615");
}

#[test]
fn drives_and_partitions_get_linux_names() {
    assert_eq!(drive_name(&DriveKind::Sdx, 0), "sda");
    assert_eq!(drive_name(&DriveKind::Sdx, 2), "sdc");
    assert_eq!(drive_name(&DriveKind::Nvme { namespace: 1 }, 0), "nvme0n1");
    assert_eq!(drive_name(&DriveKind::Cd, 1), "sr1");
    assert_eq!(partition_name(&DriveKind::Sdx, 0, 3), "sda3");
    assert_eq!(partition_name(&DriveKind::Nvme { namespace: 1 }, 0, 2), "nvme0n1p2");
}

#[test]
fn grouping_keeps_first_occurrence_order() {
    let keys: Vec<String> = ["pci0", "pci1", "pci0", "pci2", "pci1", "pci0"]
        .iter()
        .map(|s| s.to_string())
        .collect();
    let groups = myboot::disk::group_indices_by_key(&keys);
    assert_eq!(groups, vec![vec![0, 2, 5], vec![1, 4], vec![3]]);
    let empty: Vec<String> = Vec::new();
    assert!(myboot::disk::group_indices_by_key(&empty).is_empty());
}
