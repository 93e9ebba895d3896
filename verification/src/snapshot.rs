//! The hardware snapshot: one record of seven display strings.
//!
//! `snapshot_from_report` derives the record from a plain readout and is
//! verified field by field. `collect` takes one fresh readout of the real
//! host through the trusted query wrappers and hands it to
//! `snapshot_from_report`; since the readout depends on the machine, its
//! contract says only what holds of every readout.

use vstd::prelude::*;
use vstd::string::*;

use crate::fields::{
    cpu_field, cpu_field_spec, motherboard_field, motherboard_field_spec, network_field,
    network_field_spec, ram_field, ram_field_spec, storage_field, storage_field_spec,
};
use crate::report::{CpuEntry, DiskEntry, MotherboardEntry, NetEntry, SystemReport};

verus! {

/// The display-ready record handed to callers. Every field is always a
/// present string: unavailable data is a fixed placeholder, never an absent
/// field.
pub struct HardwareSnapshot {
    pub cpu: String,
    pub ram: String,
    pub storage: String,
    pub gpu: String,
    pub network: String,
    pub tpm: String,
    pub motherboard: String,
}

/// Exactly what each of the seven fields of a snapshot derived from the
/// readout `r` carries.
pub open spec fn snapshot_matches(s: HardwareSnapshot, r: SystemReport) -> bool {
    &&& s.cpu@ == cpu_field_spec(r.cpus@, r.physical_cores)
    &&& s.ram@ == ram_field_spec(r.used_memory, r.total_memory)
    &&& s.storage@ == storage_field_spec(r.disks@)
    &&& s.gpu@ == "N/A"@
    &&& s.network@ == network_field_spec(r.networks@)
    &&& s.tpm@ == "N/A"@
    &&& s.motherboard@ == motherboard_field_spec(r.motherboard)
}

/// Derives the snapshot from one readout. Total: every readout, however
/// empty, yields a record with all seven fields present.
pub fn snapshot_from_report(r: &SystemReport) -> (s: HardwareSnapshot)
    ensures
        snapshot_matches(s, *r),
{
    HardwareSnapshot {
        cpu: cpu_field(&r.cpus, r.physical_cores),
        ram: ram_field(r.used_memory, r.total_memory),
        storage: storage_field(&r.disks),
        gpu: String::from_str("N/A"),
        network: network_field(&r.networks),
        tpm: String::from_str("N/A"),
        motherboard: motherboard_field(&r.motherboard),
    }
}

/// Relies on sysinfo's System (new_all, refresh_all, cpus, Cpu::brand,
/// Cpu::name, physical_core_count, used_memory, total_memory): one fresh
/// readout of the host's processor table, physical core count and memory
/// counters in bytes. Every value depends on the machine, so nothing is
/// promised of them.
#[verifier::external_body]
fn query_processors_and_memory() -> (Vec<CpuEntry>, Option<usize>, u64, u64) {
    let mut sys = sysinfo::System::new_all();
    sys.refresh_all();
    let cpus = sys
        .cpus()
        .iter()
        .map(|c| CpuEntry { brand: c.brand().to_string(), name: c.name().to_string() })
        .collect();
    (cpus, sysinfo::System::physical_core_count(), sys.used_memory(), sys.total_memory())
}

/// Relies on sysinfo's Disks (new_with_refreshed_list, list) and Disk (name,
/// file_system, total_space, available_space): the mounted disks with their
/// space counters in bytes; names lossily decoded from OS strings. The list
/// depends on the machine, so nothing is promised of it.
#[verifier::external_body]
fn query_disks() -> Vec<DiskEntry> {
    let disks = sysinfo::Disks::new_with_refreshed_list();
    disks
        .list()
        .iter()
        .map(|d| DiskEntry {
            name: d.name().to_string_lossy().into_owned(),
            filesystem: d.file_system().to_string_lossy().into_owned(),
            total: d.total_space(),
            available: d.available_space(),
        })
        .collect()
}

/// Relies on sysinfo's Networks (new_with_refreshed_list, list) and
/// NetworkData (total_transmitted, total_received): the interfaces with
/// their cumulative traffic counters in bytes. The interfaces come out of a
/// hash map, so not even their order is promised.
#[verifier::external_body]
fn query_networks() -> Vec<NetEntry> {
    let networks = sysinfo::Networks::new_with_refreshed_list();
    networks
        .list()
        .iter()
        .map(|(name, data)| NetEntry {
            interface: name.clone(),
            transmitted: data.total_transmitted(),
            received: data.total_received(),
        })
        .collect()
}

/// Relies on sysinfo's Motherboard (new, vendor_name, name, version): the
/// host's motherboard descriptor, absent when the platform offers none; each
/// sub-field may itself be absent. The values depend on the machine, so
/// nothing is promised of them.
#[verifier::external_body]
fn query_motherboard() -> Option<MotherboardEntry> {
    sysinfo::Motherboard::new().map(|mb| MotherboardEntry {
        vendor: mb.vendor_name(),
        model: mb.name(),
        version: mb.version(),
    })
}

/// Takes one fresh readout of the host and derives its snapshot. Cannot
/// fail: whatever the readout, the result is a full record whose fields
/// follow the readout by `snapshot_matches`, with the gpu and tpm fields
/// always the fixed placeholder.
pub fn collect() -> (s: HardwareSnapshot)
    ensures
        exists|r: SystemReport| snapshot_matches(s, r),
        s.gpu@ == "N/A"@,
        s.tpm@ == "N/A"@,
{
    let (cpus, physical_cores, used_memory, total_memory) = query_processors_and_memory();
    let report = SystemReport {
        cpus,
        physical_cores,
        used_memory,
        total_memory,
        disks: query_disks(),
        networks: query_networks(),
        motherboard: query_motherboard(),
    };
    let s = snapshot_from_report(&report);
    proof {
        assert(snapshot_matches(s, report));
    }
    s
}

} // verus!
