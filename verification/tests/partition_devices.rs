use crystallize_core::modules::partition::{DeviceParser, FilesystemType};

#[test]
fn nvme_partition_is_split_at_last_p() {
    let (device, number) = DeviceParser::parse("/dev/nvme0n1p3");
    assert_eq!(device, "/dev/nvme0n1");
    assert_eq!(number, "3");
}

#[test]
fn sata_partition_is_split_before_digits() {
    let (device, number) = DeviceParser::parse("/dev/sdb12");
    assert_eq!(device, "/dev/sdb");
    assert_eq!(number, "12");
}

#[test]
fn device_without_number_defaults_to_one() {
    let (device, number) = DeviceParser::parse("/dev/sda");
    assert_eq!(device, "/dev/sda");
    assert_eq!(number, "1");
}

#[test]
fn filesystem_names_ignore_case() {
    assert_eq!(FilesystemType::from_str("BTRFS"), Some(FilesystemType::Btrfs));
    assert_eq!(FilesystemType::from_str("btrfs"), Some(FilesystemType::Btrfs));
    assert_eq!(FilesystemType::from_str("Btrfs"), Some(FilesystemType::Btrfs));
    assert_eq!(FilesystemType::from_str("zfs"), None);
}
