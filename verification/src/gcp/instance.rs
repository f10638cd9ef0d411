//! Ensure a Compute Engine instance exists.

use vstd::prelude::*;
use crate::text::str_eq;

verus! {

/// Method name of the instance resource.
pub const ENSURE_INSTANCE: &'static str = "gcp.ensure_instance";

/// Desired instance.
#[derive(Clone, Debug, Default, PartialEq, Eq)]
pub struct EnsureInstanceInput {
    pub name: String,
    pub zone: String,
    pub machine_type: String,
    pub source_image: String,
    pub disk_size_gb: Option<u32>,
}

/// Observed or created instance.
#[derive(Clone, Debug, Default, PartialEq, Eq)]
pub struct EnsureInstanceOutput {
    pub instance_id: String,
    pub name: String,
    pub zone: String,
    pub internal_ip: Option<String>,
    pub external_ip: Option<String>,
}

/// An instance as the Compute API reports it.
#[derive(Clone, Debug, Default, PartialEq, Eq)]
pub struct Instance {
    pub instance_id: String,
    pub name: String,
    pub zone: String,
    pub internal_ip: Option<String>,
    pub external_ip: Option<String>,
}

/// An instance creation request.
#[derive(Clone, Debug, Default, PartialEq, Eq)]
pub struct InstanceCreate {
    pub name: String,
    pub zone: String,
    pub machine_type: String,
    pub source_image: String,
    pub disk_size_gb: Option<u32>,
}

/// The resource state an instance corresponds to.
pub open spec fn spec_to_output(i: Instance) -> EnsureInstanceOutput {
    EnsureInstanceOutput {
        instance_id: i.instance_id,
        name: i.name,
        zone: i.zone,
        internal_ip: i.internal_ip,
        external_ip: i.external_ip,
    }
}

/// The resource state of an instance.
pub fn to_output(instance: Instance) -> (o: EnsureInstanceOutput)
    ensures
        o == spec_to_output(instance),
        o.instance_id == instance.instance_id,
        o.name == instance.name,
        o.zone == instance.zone,
        o.internal_ip == instance.internal_ip,
        o.external_ip == instance.external_ip,
{
    EnsureInstanceOutput {
        instance_id: instance.instance_id,
        name: instance.name,
        zone: instance.zone,
        internal_ip: instance.internal_ip,
        external_ip: instance.external_ip,
    }
}

/// The instance an observation finds: the first listed one named as the spec.
pub open spec fn spec_observed(instances: Seq<Instance>, spec: EnsureInstanceInput) -> Option<
    EnsureInstanceOutput,
>
    decreases instances.len(),
{
    if instances.len() == 0 {
        None
    } else if instances[0].name@ == spec.name@ {
        Some(spec_to_output(instances[0]))
    } else {
        spec_observed(instances.drop_first(), spec)
    }
}

/// The current state of the desired instance among the instances of its zone.
pub fn observe(listed: Vec<Instance>, spec: &EnsureInstanceInput) -> (r: Option<EnsureInstanceOutput>)
    ensures
        r == spec_observed(listed@, *spec),
{
    let mut instances = listed;
    let ghost all = instances@;
    let mut i: usize = 0;
    assert(all.skip(0) =~= all);
    while i < instances.len()
        invariant
            instances@ == all,
            all == listed@,
            i <= instances.len(),
            spec_observed(all.skip(i as int), *spec) == spec_observed(all, *spec),
        decreases instances.len() - i,
    {
        assert(all.skip(i as int)[0] == all[i as int]);
        if str_eq(instances[i].name.as_str(), spec.name.as_str()) {
            let found = instances.remove(i);
            return Some(to_output(found));
        }
        assert(all.skip(i as int).drop_first() =~= all.skip(i + 1));
        i = i + 1;
    }
    None
}

/// The creation request for the desired instance.
pub fn create_request(spec: &EnsureInstanceInput) -> (c: InstanceCreate)
    ensures
        c.name == spec.name,
        c.zone == spec.zone,
        c.machine_type == spec.machine_type,
        c.source_image == spec.source_image,
        c.disk_size_gb == spec.disk_size_gb,
{
    InstanceCreate {
        name: spec.name.clone(),
        zone: spec.zone.clone(),
        machine_type: spec.machine_type.clone(),
        source_image: spec.source_image.clone(),
        disk_size_gb: spec.disk_size_gb,
    }
}


/// Observing finds an instance exactly when one is listed under the spec's
/// name, and reports the first such instance as it is listed: its id, name,
/// zone, and each address under the same name.
pub proof fn lemma_observed_instance(l: Seq<Instance>, spec: EnsureInstanceInput)
    ensures
        spec_observed(l, spec) is Some <==> exists|i: int| 0 <= i < l.len() && #[trigger] l[i].name@
            == spec.name@,
        spec_observed(l, spec) matches Some(o) ==> exists|i: int|
            0 <= i < l.len() && #[trigger] l[i].name@ == spec.name@ && (forall|j: int|
                0 <= j < i ==> l[j].name@ != spec.name@) && o.instance_id == l[i].instance_id && o.name == l[i].name && o.zone == l[i].zone && o.internal_ip == l[i].internal_ip && o.external_ip == l[i].external_ip,
    decreases l.len(),
{
    if l.len() > 0 {
        lemma_observed_instance(l.drop_first(), spec);
        let t = l.drop_first();
        if l[0].name@ == spec.name@ {
            assert(0 <= 0 < l.len() && l[0].name@ == spec.name@);
        } else {
            if exists|i: int| 0 <= i < l.len() && #[trigger] l[i].name@ == spec.name@ {
                let i = choose|i: int| 0 <= i < l.len() && #[trigger] l[i].name@ == spec.name@;
                assert(t[i - 1] == l[i]);
            }
            if exists|i: int| 0 <= i < t.len() && #[trigger] t[i].name@ == spec.name@ {
                let i = choose|i: int| 0 <= i < t.len() && #[trigger] t[i].name@ == spec.name@;
                assert(l[i + 1] == t[i]);
            }
            if let Some(o) = spec_observed(l, spec) {
                let i = choose|i: int|
                    0 <= i < t.len() && #[trigger] t[i].name@ == spec.name@ && (forall|j: int|
                        0 <= j < i ==> t[j].name@ != spec.name@) && o.instance_id == t[i].instance_id && o.name == t[i].name && o.zone == t[i].zone && o.internal_ip == t[i].internal_ip && o.external_ip == t[i].external_ip;
                assert(l[i + 1] == t[i]);
                assert forall|j: int| 0 <= j < i + 1 implies l[j].name@ != spec.name@ by {
                    if j > 0 {
                        assert(l[j] == t[j - 1]);
                    }
                }
            }
        }
    }
}

} // verus!
