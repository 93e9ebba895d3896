//! Derivation of each display field from a readout.
//!
//! Each field has a spec function that states the exact text it must carry,
//! and an executable formatter proved to produce that text. Missing data
//! never fails a formatter: it degrades to a fixed placeholder ("N/A",
//! "Unknown ...") or to an empty contribution.

use vstd::prelude::*;
use vstd::string::*;

use crate::numfmt::{
    dec_str, format_gb, format_mb, gb_str, mb_str, u64_to_string,
};
use crate::report::{CpuEntry, DiskEntry, MotherboardEntry, NetEntry};

verus! {

/// The identifying label of the processor table: the first entry's brand
/// string, its name string when the brand is empty, or a fixed fallback when
/// the table is empty.
pub open spec fn cpu_label_spec(cpus: Seq<CpuEntry>) -> Seq<char> {
    if cpus.len() == 0 {
        "Unknown CPU"@
    } else if cpus[0].brand@.len() == 0 {
        cpus[0].name@
    } else {
        cpus[0].brand@
    }
}

/// The physical core count, falling back to the logical count (the number of
/// enumerated processors) when the provider has none.
pub open spec fn physical_count_spec(cpus: Seq<CpuEntry>, physical_cores: Option<usize>) -> nat {
    match physical_cores {
        Some(p) => p as nat,
        None => cpus.len(),
    }
}

/// The whole cpu field: `<label> (logical: <L>, physical: <P>)`.
pub open spec fn cpu_field_spec(cpus: Seq<CpuEntry>, physical_cores: Option<usize>) -> Seq<char> {
    cpu_label_spec(cpus) + " (logical: "@ + dec_str(cpus.len()) + ", physical: "@ + dec_str(
        physical_count_spec(cpus, physical_cores),
    ) + ")"@
}

/// The ram field: `<used> GB / <total> GB`, both counters in bytes.
pub open spec fn ram_field_spec(used: u64, total: u64) -> Seq<char> {
    gb_str(used as nat) + " GB / "@ + gb_str(total as nat) + " GB"@
}

/// A disk's used space: total minus available, saturating at zero when the
/// provider reports more available than total space.
pub open spec fn disk_used_bytes(d: DiskEntry) -> nat {
    if d.available >= d.total {
        0
    } else {
        (d.total - d.available) as nat
    }
}

/// One disk's line: `<name> (<filesystem>) - <used> GB / <total> GB`.
pub open spec fn disk_line_spec(d: DiskEntry) -> Seq<char> {
    d.name@ + " ("@ + d.filesystem@ + ") - "@ + gb_str(disk_used_bytes(d)) + " GB / "@ + gb_str(
        d.total as nat,
    ) + " GB"@
}

/// All disk lines joined with newlines; an empty disk list yields the empty
/// string.
pub open spec fn storage_field_spec(disks: Seq<DiskEntry>) -> Seq<char>
    decreases disks.len(),
{
    if disks.len() == 0 {
        Seq::<char>::empty()
    } else if disks.len() == 1 {
        disk_line_spec(disks[0])
    } else {
        storage_field_spec(disks.drop_last()) + seq!['\n'] + disk_line_spec(disks.last())
    }
}

/// One interface's line: `<interface>: Sent <X> MB, Received <Y> MB`.
pub open spec fn net_line_spec(n: NetEntry) -> Seq<char> {
    n.interface@ + ": Sent "@ + mb_str(n.transmitted as nat) + " MB, Received "@ + mb_str(
        n.received as nat,
    ) + " MB"@
}

/// All interface lines joined with newlines, in the order the readout lists
/// them; an empty interface list yields the empty string.
pub open spec fn network_field_spec(nets: Seq<NetEntry>) -> Seq<char>
    decreases nets.len(),
{
    if nets.len() == 0 {
        Seq::<char>::empty()
    } else if nets.len() == 1 {
        net_line_spec(nets[0])
    } else {
        network_field_spec(nets.drop_last()) + seq!['\n'] + net_line_spec(nets.last())
    }
}

/// A motherboard sub-field, or its fixed placeholder when unavailable.
pub open spec fn opt_text_spec(o: Option<String>, alt: Seq<char>) -> Seq<char> {
    match o {
        Some(s) => s@,
        None => alt,
    }
}

/// The motherboard field: `<vendor> <model> (<version>)` with a fixed label
/// for each unavailable sub-field, or "Unknown Motherboard" when there is no
/// descriptor at all.
pub open spec fn motherboard_field_spec(mb: Option<MotherboardEntry>) -> Seq<char> {
    match mb {
        None => "Unknown Motherboard"@,
        Some(m) => opt_text_spec(m.vendor, "UnknownVendor"@) + " "@ + opt_text_spec(
            m.model,
            "UnknownModel"@,
        ) + " ("@ + opt_text_spec(m.version, "UnknownVersion"@) + ")"@,
    }
}

/// Formats the cpu field of a readout.
pub fn cpu_field(cpus: &Vec<CpuEntry>, physical_cores: Option<usize>) -> (s: String)
    ensures
        s@ == cpu_field_spec(cpus@, physical_cores),
{
    let mut s: String = if cpus.len() == 0 {
        String::from_str("Unknown CPU")
    } else if cpus[0].brand.as_str().is_empty() {
        cpus[0].name.clone()
    } else {
        cpus[0].brand.clone()
    };
    s.append(" (logical: ");
    let logical: u64 = cpus.len() as u64;
    let logical_text = u64_to_string(logical);
    s.append(logical_text.as_str());
    s.append(", physical: ");
    let physical: u64 = match physical_cores {
        Some(p) => p as u64,
        None => logical,
    };
    let physical_text = u64_to_string(physical);
    s.append(physical_text.as_str());
    s.append(")");
    proof {
        assert(s@ =~= cpu_field_spec(cpus@, physical_cores));
    }
    s
}

/// Formats the ram field from the used and total memory counters.
pub fn ram_field(used: u64, total: u64) -> (s: String)
    ensures
        s@ == ram_field_spec(used, total),
{
    let mut s = format_gb(used);
    s.append(" GB / ");
    let total_text = format_gb(total);
    s.append(total_text.as_str());
    s.append(" GB");
    proof {
        assert(s@ =~= ram_field_spec(used, total));
    }
    s
}

/// Formats one disk's line.
pub fn disk_line(d: &DiskEntry) -> (s: String)
    ensures
        s@ == disk_line_spec(*d),
{
    let mut s = d.name.clone();
    s.append(" (");
    s.append(d.filesystem.as_str());
    s.append(") - ");
    let used: u64 = if d.available >= d.total {
        0
    } else {
        d.total - d.available
    };
    let used_text = format_gb(used);
    s.append(used_text.as_str());
    s.append(" GB / ");
    let total_text = format_gb(d.total);
    s.append(total_text.as_str());
    s.append(" GB");
    proof {
        assert(s@ =~= disk_line_spec(*d));
    }
    s
}

/// Formats the storage field: every disk's line, newline-separated.
pub fn storage_field(disks: &Vec<DiskEntry>) -> (s: String)
    ensures
        s@ == storage_field_spec(disks@),
{
    let mut s = String::new();
    let mut i: usize = 0;
    while i < disks.len()
        invariant
            i <= disks.len(),
            s@ == storage_field_spec(disks@.take(i as int)),
        decreases disks.len() - i,
    {
        if i > 0 {
            s.append("\n");
        }
        let line = disk_line(&disks[i]);
        s.append(line.as_str());
        proof {
            reveal_strlit("\n");
            assert(disks@.take(i as int + 1).drop_last() =~= disks@.take(i as int));
            assert(s@ =~= storage_field_spec(disks@.take(i as int + 1)));
        }
        i = i + 1;
    }
    proof {
        assert(disks@.take(disks@.len() as int) =~= disks@);
    }
    s
}

/// Formats one interface's line.
pub fn net_line(n: &NetEntry) -> (s: String)
    ensures
        s@ == net_line_spec(*n),
{
    let mut s = n.interface.clone();
    s.append(": Sent ");
    let sent_text = format_mb(n.transmitted);
    s.append(sent_text.as_str());
    s.append(" MB, Received ");
    let received_text = format_mb(n.received);
    s.append(received_text.as_str());
    s.append(" MB");
    proof {
        assert(s@ =~= net_line_spec(*n));
    }
    s
}

/// Formats the network field: every interface's line, newline-separated, in
/// the order of the readout.
pub fn network_field(nets: &Vec<NetEntry>) -> (s: String)
    ensures
        s@ == network_field_spec(nets@),
{
    let mut s = String::new();
    let mut i: usize = 0;
    while i < nets.len()
        invariant
            i <= nets.len(),
            s@ == network_field_spec(nets@.take(i as int)),
        decreases nets.len() - i,
    {
        if i > 0 {
            s.append("\n");
        }
        let line = net_line(&nets[i]);
        s.append(line.as_str());
        proof {
            reveal_strlit("\n");
            assert(nets@.take(i as int + 1).drop_last() =~= nets@.take(i as int));
            assert(s@ =~= network_field_spec(nets@.take(i as int + 1)));
        }
        i = i + 1;
    }
    proof {
        assert(nets@.take(nets@.len() as int) =~= nets@);
    }
    s
}

/// Formats the motherboard field from an optional descriptor.
pub fn motherboard_field(mb: &Option<MotherboardEntry>) -> (s: String)
    ensures
        s@ == motherboard_field_spec(*mb),
{
    match mb {
        None => String::from_str("Unknown Motherboard"),
        Some(m) => {
            let mut s: String = match &m.vendor {
                Some(v) => v.clone(),
                None => String::from_str("UnknownVendor"),
            };
            s.append(" ");
            match &m.model {
                Some(v) => s.append(v.as_str()),
                None => s.append("UnknownModel"),
            };
            s.append(" (");
            match &m.version {
                Some(v) => s.append(v.as_str()),
                None => s.append("UnknownVersion"),
            };
            s.append(")");
            proof {
                assert(s@ =~= motherboard_field_spec(*mb));
            }
            s
        },
    }
}

} // verus!
