//! Degradation laws: what the fields carry when the provider has no data.

use vstd::prelude::*;

use crate::fields::{
    cpu_field_spec, disk_used_bytes, motherboard_field_spec, network_field_spec, opt_text_spec,
    storage_field_spec,
};
use crate::report::{CpuEntry, DiskEntry, MotherboardEntry, NetEntry};

verus! {

/// With an empty processor table, and no separate physical-core count beyond
/// a zero one, the cpu field is exactly `Unknown CPU (logical: 0, physical:
/// 0)`: the physical count falls back to the logical count, which is zero.
pub proof fn lemma_cpu_field_empty_table(cpus: Seq<CpuEntry>, physical_cores: Option<usize>)
    requires
        cpus.len() == 0,
        physical_cores matches Some(p) ==> p == 0,
    ensures
        cpu_field_spec(cpus, physical_cores) == "Unknown CPU (logical: 0, physical: 0)"@,
{
    reveal_strlit("Unknown CPU");
    reveal_strlit(" (logical: ");
    reveal_strlit(", physical: ");
    reveal_strlit(")");
    reveal_strlit("Unknown CPU (logical: 0, physical: 0)");
    assert(cpu_field_spec(cpus, physical_cores) =~= "Unknown CPU (logical: 0, physical: 0)"@);
}

/// A disk's used space is total minus available, and it never goes negative:
/// when the provider reports more available than total space it saturates to
/// zero.
pub proof fn lemma_disk_used_saturates(d: DiskEntry)
    ensures
        d.available <= d.total ==> disk_used_bytes(d) == d.total - d.available,
        d.available > d.total ==> disk_used_bytes(d) == 0,
{
}

/// Zero disks yield the empty storage field.
pub proof fn lemma_storage_field_empty()
    ensures
        storage_field_spec(Seq::<DiskEntry>::empty()) == Seq::<char>::empty(),
{
}

/// Zero interfaces yield the empty network field.
pub proof fn lemma_network_field_empty()
    ensures
        network_field_spec(Seq::<NetEntry>::empty()) == Seq::<char>::empty(),
{
}

/// Without a motherboard descriptor the whole field is the fixed string
/// `Unknown Motherboard`.
pub proof fn lemma_motherboard_missing()
    ensures
        motherboard_field_spec(None::<MotherboardEntry>) == "Unknown Motherboard"@,
{
}

/// With a descriptor whose model and version are unavailable, those two
/// sub-fields render as their fixed labels, whatever the vendor sub-field
/// holds.
pub proof fn lemma_motherboard_partial_descriptor(m: MotherboardEntry)
    requires
        m.model is None,
        m.version is None,
    ensures
        motherboard_field_spec(Some(m)) == opt_text_spec(m.vendor, "UnknownVendor"@)
            + " UnknownModel (UnknownVersion)"@,
{
    reveal_strlit(" ");
    reveal_strlit(" (");
    reveal_strlit(")");
    reveal_strlit("UnknownModel");
    reveal_strlit("UnknownVersion");
    reveal_strlit(" UnknownModel (UnknownVersion)");
    assert(motherboard_field_spec(Some(m)) =~= opt_text_spec(m.vendor, "UnknownVendor"@)
        + " UnknownModel (UnknownVersion)"@);
}

} // verus!
