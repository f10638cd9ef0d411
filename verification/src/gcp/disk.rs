//! Ensure a persistent disk exists.

use vstd::prelude::*;
use crate::text::str_eq;

verus! {

/// Method name of the disk resource.
pub const ENSURE_DISK: &'static str = "gcp.ensure_disk";

/// Desired disk.
#[derive(Clone, Debug, Default, PartialEq, Eq)]
pub struct EnsureDiskInput {
    pub name: String,
    pub zone: String,
    pub size_gb: u32,
    pub disk_type: String,
}

/// Observed or created disk.
#[derive(Clone, Debug, Default, PartialEq, Eq)]
pub struct EnsureDiskOutput {
    pub disk_id: String,
    pub name: String,
    pub zone: String,
    pub size_gb: u32,
}

/// A disk as the Compute API reports it.
#[derive(Clone, Debug, Default, PartialEq, Eq)]
pub struct Disk {
    pub disk_id: String,
    pub name: String,
    pub zone: String,
    pub size_gb: u32,
}

/// A disk creation request.
#[derive(Clone, Debug, Default, PartialEq, Eq)]
pub struct DiskCreate {
    pub name: String,
    pub zone: String,
    pub size_gb: u32,
    pub disk_type: String,
}

/// The resource state a disk corresponds to.
pub open spec fn spec_to_output(d: Disk) -> EnsureDiskOutput {
    EnsureDiskOutput { disk_id: d.disk_id, name: d.name, zone: d.zone, size_gb: d.size_gb }
}

/// The resource state of a disk.
pub fn to_output(disk: Disk) -> (o: EnsureDiskOutput)
    ensures
        o == spec_to_output(disk),
        o.disk_id == disk.disk_id,
        o.name == disk.name,
        o.zone == disk.zone,
        o.size_gb == disk.size_gb,
{
    EnsureDiskOutput { disk_id: disk.disk_id, name: disk.name, zone: disk.zone, size_gb: disk.size_gb }
}

/// The disk that an observation finds: the first listed disk named as the spec.
pub open spec fn spec_observed(disks: Seq<Disk>, spec: EnsureDiskInput) -> Option<EnsureDiskOutput>
    decreases disks.len(),
{
    if disks.len() == 0 {
        None
    } else if disks[0].name@ == spec.name@ {
        Some(spec_to_output(disks[0]))
    } else {
        spec_observed(disks.drop_first(), spec)
    }
}

/// The current state of the desired disk among the disks of its zone.
pub fn observe(listed: Vec<Disk>, spec: &EnsureDiskInput) -> (r: Option<EnsureDiskOutput>)
    ensures
        r == spec_observed(listed@, *spec),
{
    let mut disks = listed;
    let ghost all = disks@;
    let mut i: usize = 0;
    assert(all.skip(0) =~= all);
    while i < disks.len()
        invariant
            disks@ == all,
            all == listed@,
            i <= disks.len(),
            spec_observed(all.skip(i as int), *spec) == spec_observed(all, *spec),
        decreases disks.len() - i,
    {
        assert(all.skip(i as int)[0] == all[i as int]);
        if str_eq(disks[i].name.as_str(), spec.name.as_str()) {
            let d = disks.remove(i);
            return Some(to_output(d));
        }
        assert(all.skip(i as int).drop_first() =~= all.skip(i + 1));
        i = i + 1;
    }
    None
}

/// The creation request for the desired disk.
pub fn create_request(spec: &EnsureDiskInput) -> (c: DiskCreate)
    ensures
        c.name == spec.name,
        c.zone == spec.zone,
        c.size_gb == spec.size_gb,
        c.disk_type == spec.disk_type,
{
    DiskCreate {
        name: spec.name.clone(),
        zone: spec.zone.clone(),
        size_gb: spec.size_gb,
        disk_type: spec.disk_type.clone(),
    }
}


/// Observing finds a disk exactly when one is listed under the spec's name,
/// and reports the first such disk as it is listed: its id, name, zone and
/// size.
pub proof fn lemma_observed_disk(l: Seq<Disk>, spec: EnsureDiskInput)
    ensures
        spec_observed(l, spec) is Some <==> exists|i: int| 0 <= i < l.len() && #[trigger] l[i].name@
            == spec.name@,
        spec_observed(l, spec) matches Some(o) ==> exists|i: int|
            0 <= i < l.len() && #[trigger] l[i].name@ == spec.name@ && (forall|j: int|
                0 <= j < i ==> l[j].name@ != spec.name@) && o.disk_id == l[i].disk_id && o.name == l[i].name && o.zone == l[i].zone && o.size_gb == l[i].size_gb,
    decreases l.len(),
{
    if l.len() > 0 {
        lemma_observed_disk(l.drop_first(), spec);
        let t = l.drop_first();
        if l[0].name@ == spec.name@ {
            assert(0 <= 0 < l.len() && l[0].name@ == spec.name@);
        } else {
            if exists|i: int| 0 <= i < l.len() && #[trigger] l[i].name@ == spec.name@ {
                let i = choose|i: int| 0 <= i < l.len() && #[trigger] l[i].name@ == spec.name@;
                assert(t[i - 1] == l[i]);
            }
            if exists|i: int| 0 <= i < t.len() && #[trigger] t[i].name@ == spec.name@ {
                let i = choose|i: int| 0 <= i < t.len() && #[trigger] t[i].name@ == spec.name@;
                assert(l[i + 1] == t[i]);
            }
            if let Some(o) = spec_observed(l, spec) {
                let i = choose|i: int|
                    0 <= i < t.len() && #[trigger] t[i].name@ == spec.name@ && (forall|j: int|
                        0 <= j < i ==> t[j].name@ != spec.name@) && o.disk_id == t[i].disk_id && o.name == t[i].name && o.zone == t[i].zone && o.size_gb == t[i].size_gb;
                assert(l[i + 1] == t[i]);
                assert forall|j: int| 0 <= j < i + 1 implies l[j].name@ != spec.name@ by {
                    if j > 0 {
                        assert(l[j] == t[j - 1]);
                    }
                }
            }
        }
    }
}

} // verus!
