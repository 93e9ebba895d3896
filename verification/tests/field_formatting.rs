use hardware_snapshot::fields::{
    cpu_field, disk_line, motherboard_field, net_line, network_field, ram_field, storage_field,
};
use hardware_snapshot::report::{CpuEntry, DiskEntry, MotherboardEntry, NetEntry};

fn cpu(brand: &str, name: &str) -> CpuEntry {
    CpuEntry { brand: brand.to_string(), name: name.to_string() }
}

fn disk(name: &str, filesystem: &str, total: u64, available: u64) -> DiskEntry {
    DiskEntry {
        name: name.to_string(),
        filesystem: filesystem.to_string(),
        total,
        available,
    }
}

#[test]
fn cpu_empty_table() {
    assert_eq!(cpu_field(&vec![], None), "Unknown CPU (logical: 0, physical: 0)");
}

#[test]
fn cpu_brand_with_counts() {
    let cpus = vec![cpu("Intel Core i7", "cpu0"), cpu("Intel Core i7", "cpu1")];
    assert_eq!(cpu_field(&cpus, Some(1)), "Intel Core i7 (logical: 2, physical: 1)");
}

#[test]
fn cpu_empty_brand_falls_back_to_name() {
    let cpus = vec![cpu("", "cpu0")];
    assert_eq!(cpu_field(&cpus, None), "cpu0 (logical: 1, physical: 1)");
}

#[test]
fn ram_two_of_eight_gigabytes() {
    assert_eq!(ram_field(2147483648, 8589934592), "2.00 GB / 8.00 GB");
}

#[test]
fn disk_line_half_used() {
    let d = disk("sda", "ext4", 1000204886016, 500102443008);
    assert_eq!(disk_line(&d), "sda (ext4) - 465.76 GB / 931.51 GB");
}

#[test]
fn disk_line_saturates_when_available_exceeds_total() {
    let d = disk("sda", "ext4", 1073741824, 2147483648);
    assert_eq!(disk_line(&d), "sda (ext4) - 0.00 GB / 1.00 GB");
}

#[test]
fn storage_empty_list_is_empty_string() {
    assert_eq!(storage_field(&vec![]), "");
}

#[test]
fn storage_joins_lines_with_newlines() {
    let disks = vec![
        disk("sda", "ext4", 2147483648, 1073741824),
        disk("sdb", "vfat", 1073741824, 1073741824),
    ];
    assert_eq!(
        storage_field(&disks),
        "sda (ext4) - 1.00 GB / 2.00 GB\nsdb (vfat) - 0.00 GB / 1.00 GB"
    );
}

#[test]
fn network_line_counters_in_megabytes() {
    let n = NetEntry {
        interface: "eth0".to_string(),
        transmitted: 1048576,
        received: 2097152,
    };
    assert_eq!(net_line(&n), "eth0: Sent 1.00 MB, Received 2.00 MB");
}

#[test]
fn network_empty_list_is_empty_string() {
    assert_eq!(network_field(&vec![]), "");
}

#[test]
fn network_joins_lines_with_newlines() {
    let nets = vec![
        NetEntry { interface: "lo".to_string(), transmitted: 0, received: 0 },
        NetEntry { interface: "eth0".to_string(), transmitted: 524288, received: 1048576 },
    ];
    assert_eq!(
        network_field(&nets),
        "lo: Sent 0.00 MB, Received 0.00 MB\neth0: Sent 0.50 MB, Received 1.00 MB"
    );
}

#[test]
fn motherboard_missing_descriptor() {
    assert_eq!(motherboard_field(&None), "Unknown Motherboard");
}

#[test]
fn motherboard_vendor_only() {
    let m = MotherboardEntry {
        vendor: Some("LENOVO".to_string()),
        model: None,
        version: None,
    };
    assert_eq!(motherboard_field(&Some(m)), "LENOVO UnknownModel (UnknownVersion)");
}

#[test]
fn motherboard_full_descriptor() {
    let m = MotherboardEntry {
        vendor: Some("LENOVO".to_string()),
        model: Some("20BE0061MC".to_string()),
        version: Some("0B98401 Pro".to_string()),
    };
    assert_eq!(motherboard_field(&Some(m)), "LENOVO 20BE0061MC (0B98401 Pro)");
}
