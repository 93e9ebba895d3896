use hardware_snapshot::greeting::greet;
use hardware_snapshot::report::{CpuEntry, DiskEntry, MotherboardEntry, NetEntry, SystemReport};
use hardware_snapshot::snapshot::{collect, snapshot_from_report};

#[test]
fn snapshot_from_full_report() {
    let report = SystemReport {
        cpus: vec![CpuEntry { brand: "Ryzen 7".to_string(), name: "cpu0".to_string() }],
        physical_cores: Some(8),
        used_memory: 2147483648,
        total_memory: 8589934592,
        disks: vec![DiskEntry {
            name: "sda".to_string(),
            filesystem: "ext4".to_string(),
            total: 1000204886016,
            available: 500102443008,
        }],
        networks: vec![NetEntry {
            interface: "eth0".to_string(),
            transmitted: 1048576,
            received: 2097152,
        }],
        motherboard: Some(MotherboardEntry {
            vendor: Some("ASUS".to_string()),
            model: Some("PRIME B550".to_string()),
            version: Some("Rev X.0x".to_string()),
        }),
    };
    let s = snapshot_from_report(&report);
    assert_eq!(s.cpu, "Ryzen 7 (logical: 1, physical: 8)");
    assert_eq!(s.ram, "2.00 GB / 8.00 GB");
    assert_eq!(s.storage, "sda (ext4) - 465.76 GB / 931.51 GB");
    assert_eq!(s.gpu, "N/A");
    assert_eq!(s.network, "eth0: Sent 1.00 MB, Received 2.00 MB");
    assert_eq!(s.tpm, "N/A");
    assert_eq!(s.motherboard, "ASUS PRIME B550 (Rev X.0x)");
}

#[test]
fn snapshot_from_empty_report() {
    let report = SystemReport {
        cpus: vec![],
        physical_cores: None,
        used_memory: 0,
        total_memory: 0,
        disks: vec![],
        networks: vec![],
        motherboard: None,
    };
    let s = snapshot_from_report(&report);
    assert_eq!(s.cpu, "Unknown CPU (logical: 0, physical: 0)");
    assert_eq!(s.ram, "0.00 GB / 0.00 GB");
    assert_eq!(s.storage, "");
    assert_eq!(s.gpu, "N/A");
    assert_eq!(s.network, "");
    assert_eq!(s.tpm, "N/A");
    assert_eq!(s.motherboard, "Unknown Motherboard");
}

#[test]
fn collect_always_yields_full_record() {
    let s = collect();
    assert_eq!(s.gpu, "N/A");
    assert_eq!(s.tpm, "N/A");
    // The other five fields depend on the machine, but they are always
    // present strings; the memory field always carries the fixed separator.
    assert!(s.ram.contains(" GB / "));
    assert!(s.cpu.contains(" (logical: "));
    let _ = (&s.storage, &s.network, &s.motherboard);
}

#[test]
fn greet_ada() {
    assert_eq!(greet("Ada"), "Hello, Ada! You've been greeted from Rust!");
}

#[test]
fn greet_empty_name() {
    assert_eq!(greet(""), "Hello, ! You've been greeted from Rust!");
}
