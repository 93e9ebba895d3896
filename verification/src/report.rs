//! Plain-data model of one readout of the host's introspection provider.
//!
//! Every field a snapshot is derived from is held here as an ordinary value
//! (strings and byte counters), so the formatting rules can be verified for
//! any readout, and tests can build a deterministic readout by hand.

use vstd::prelude::*;

verus! {

/// One enumerated processor entry: its brand string and its name string.
pub struct CpuEntry {
    pub brand: String,
    pub name: String,
}

/// One mounted disk: its name, filesystem label and space counters in bytes.
pub struct DiskEntry {
    pub name: String,
    pub filesystem: String,
    pub total: u64,
    pub available: u64,
}

/// One network interface with its cumulative traffic counters in bytes.
pub struct NetEntry {
    pub interface: String,
    pub transmitted: u64,
    pub received: u64,
}

/// A motherboard descriptor; each sub-field may be unavailable.
pub struct MotherboardEntry {
    pub vendor: Option<String>,
    pub model: Option<String>,
    pub version: Option<String>,
}

/// Everything one snapshot is derived from: a single point-in-time readout
/// of the provider's processor table, memory counters, disk list, network
/// interface counters and motherboard descriptor.
pub struct SystemReport {
    pub cpus: Vec<CpuEntry>,
    pub physical_cores: Option<usize>,
    pub used_memory: u64,
    pub total_memory: u64,
    pub disks: Vec<DiskEntry>,
    pub networks: Vec<NetEntry>,
    pub motherboard: Option<MotherboardEntry>,
}

} // verus!
