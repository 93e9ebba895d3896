//! Verified hardware-snapshot formatting library.
//!
//! The library turns one plain readout of a machine's processors, memory,
//! disks, network counters and motherboard identity into a record of seven
//! display strings. Every formatting rule is stated as a spec function and
//! proved of the executable code; the system queries themselves sit behind
//! a few small trusted wrappers around the `sysinfo` crate.

pub mod fields;
pub mod greeting;
pub mod laws;
pub mod numfmt;
pub mod report;
pub mod snapshot;
