//! QEMU/KVM virtual machine management (`/nodes/{node}/qemu`).

use vstd::prelude::*;
use crate::proxmox::client::{node_path, spec_node_path};
use crate::proxmox::config_value::{field_text, field_u64, lookup_str, lookup_u64, ConfigValue};
use crate::proxmox::params::{
    lemma_put_opt_dom, lemma_put_opt_other, lemma_put_opt_same,
    insert_opt, insert_opt_bool, insert_opt_u64, opt_bool, opt_decimal, put_opt, widen, widen_u32,
};
use crate::string_map::{lemma_texts_insert, lemma_texts_union, texts, StringMap};
use crate::text::{concat2, decimal, opt_str, owned, u64_to_decimal};

verus! {

/// The flat `key=value` configuration of a VM (`GET /nodes/{node}/qemu/{vmid}/config`).
///
/// Proxmox returns config values with mixed JSON typing (integers for
/// `cores`, strings for `net0`, …), so they are kept as raw values with
/// coercing getters.
#[derive(Debug, Clone, PartialEq, Eq)]
pub struct QemuConfig {
    pub fields: StringMap<ConfigValue>,
}

impl QemuConfig {
    /// Read a field as a string, coercing numbers/bools to their text form.
    pub fn get_str(&self, key: &str) -> (r: Option<String>)
        ensures
            opt_str(r) == field_text(self.fields@, key@),
    {
        lookup_str(&self.fields, key)
    }

    /// Read a field as an unsigned integer (parsing numeric strings too).
    pub fn get_u64(&self, key: &str) -> (r: Option<u64>)
        ensures
            r == field_u64(self.fields@, key@),
    {
        lookup_u64(&self.fields, key)
    }

    /// VM name.
    pub fn name(&self) -> (r: Option<String>)
        ensures
            opt_str(r) == field_text(self.fields@, "name"@),
    {
        self.get_str("name")
    }

    /// Number of cores.
    pub fn cores(&self) -> (r: Option<u64>)
        ensures
            r == field_u64(self.fields@, "cores"@),
    {
        self.get_u64("cores")
    }

    /// Number of sockets.
    pub fn sockets(&self) -> (r: Option<u64>)
        ensures
            r == field_u64(self.fields@, "sockets"@),
    {
        self.get_u64("sockets")
    }

    /// Configured memory in MiB.
    pub fn memory(&self) -> (r: Option<u64>)
        ensures
            r == field_u64(self.fields@, "memory"@),
    {
        self.get_u64("memory")
    }

    /// SHA1 digest of the live config, for optimistic-concurrency updates:
    /// passed back as `digest` on an update, Proxmox rejects the write if the
    /// configuration changed meanwhile.
    pub fn digest(&self) -> (r: Option<String>)
        ensures
            opt_str(r) == field_text(self.fields@, "digest"@),
    {
        self.get_str("digest")
    }
}

/// Typed parameters for creating a VM (`POST /nodes/{node}/qemu`).
///
/// Common knobs are typed; anything else (disks like `scsi0`, cloud-init
/// keys, `ipconfig0`, …) goes through `extra`, which is merged verbatim into
/// the form body.
#[derive(Debug, Clone, Default, PartialEq, Eq)]
pub struct QemuCreate {
    pub vmid: u32,
    pub name: Option<String>,
    pub cores: Option<u32>,
    pub sockets: Option<u32>,
    /// Memory in MiB.
    pub memory: Option<u64>,
    pub ostype: Option<String>,
    pub scsihw: Option<String>,
    /// Primary NIC, e.g. `virtio,bridge=vmbr0`.
    pub net0: Option<String>,
    pub boot: Option<String>,
    /// Enable the QEMU guest agent.
    pub agent: Option<bool>,
    /// Start the VM right after creation.
    pub start: Option<bool>,
    pub pool: Option<String>,
    pub description: Option<String>,
    pub tags: Option<String>,
    /// Arbitrary additional `key=value` config (disks, cloud-init, …).
    pub extra: StringMap<String>,
}

/// The form parameters of a VM creation: `vmid`, each optional setting that
/// is present under its Proxmox name, then every `extra` entry, which wins
/// over a typed setting of the same name.
#[verifier::opaque]
pub open spec fn qemu_params(c: QemuCreate) -> Map<Seq<char>, Seq<char>> {
    let m = Map::<Seq<char>, Seq<char>>::empty().insert("vmid"@, decimal(c.vmid as nat));
    let m = put_opt(m, "name"@, opt_str(c.name));
    let m = put_opt(m, "cores"@, opt_decimal(widen(c.cores)));
    let m = put_opt(m, "sockets"@, opt_decimal(widen(c.sockets)));
    let m = put_opt(m, "memory"@, opt_decimal(c.memory));
    let m = put_opt(m, "ostype"@, opt_str(c.ostype));
    let m = put_opt(m, "scsihw"@, opt_str(c.scsihw));
    let m = put_opt(m, "net0"@, opt_str(c.net0));
    let m = put_opt(m, "boot"@, opt_str(c.boot));
    let m = put_opt(m, "agent"@, opt_bool(c.agent));
    let m = put_opt(m, "start"@, opt_bool(c.start));
    let m = put_opt(m, "pool"@, opt_str(c.pool));
    let m = put_opt(m, "description"@, opt_str(c.description));
    let m = put_opt(m, "tags"@, opt_str(c.tags));
    m.union_prefer_right(texts(c.extra@))
}

impl QemuCreate {
    /// Flatten into the form parameters Proxmox expects.
    pub fn to_params(&self) -> (p: StringMap<String>)
        ensures
            texts(p@) == qemu_params(*self),
    {
        proof {
            reveal(qemu_params);
        }
        let mut p = StringMap::new();
        let vmid = u64_to_decimal(self.vmid as u64);
        proof {
            lemma_texts_insert(p@, "vmid"@, vmid);
            assert(texts(p@) =~= Map::empty());
        }
        p.insert(owned("vmid"), vmid);
        insert_opt(&mut p, "name", self.name.as_ref());
        insert_opt_u64(&mut p, "cores", widen_u32(self.cores));
        insert_opt_u64(&mut p, "sockets", widen_u32(self.sockets));
        insert_opt_u64(&mut p, "memory", self.memory);
        insert_opt(&mut p, "ostype", self.ostype.as_ref());
        insert_opt(&mut p, "scsihw", self.scsihw.as_ref());
        insert_opt(&mut p, "net0", self.net0.as_ref());
        insert_opt(&mut p, "boot", self.boot.as_ref());
        insert_opt_bool(&mut p, "agent", self.agent);
        insert_opt_bool(&mut p, "start", self.start);
        insert_opt(&mut p, "pool", self.pool.as_ref());
        insert_opt(&mut p, "description", self.description.as_ref());
        insert_opt(&mut p, "tags", self.tags.as_ref());
        proof {
            lemma_texts_union(p@, self.extra@);
        }
        p.extend_from(&self.extra);
        p
    }
}

/// `/nodes/{node}/qemu`: list and create VMs.
pub fn qemu_collection_path(node: &str) -> (s: String)
    ensures
        s@ == spec_node_path(node@, "/qemu"@),
{
    node_path(node, "/qemu")
}

/// `/nodes/{node}/qemu/{vmid}`: one VM.
pub fn qemu_path(node: &str, vmid: u32) -> (s: String)
    ensures
        s@ == spec_node_path(node@, "/qemu/"@ + decimal(vmid as nat)),
{
    let id = u64_to_decimal(vmid as u64);
    let rest = concat2("/qemu/", id.as_str());
    node_path(node, rest.as_str())
}

/// `/nodes/{node}/qemu/{vmid}/config`: a VM's configuration.
pub fn qemu_config_path(node: &str, vmid: u32) -> (s: String)
    ensures
        s@ == spec_node_path(node@, "/qemu/"@ + decimal(vmid as nat) + "/config"@),
{
    let base = qemu_path(node, vmid);
    let s = concat2(base.as_str(), "/config");
    assert(s@ =~= spec_node_path(node@, "/qemu/"@ + decimal(vmid as nat) + "/config"@));
    s
}


/// The parameter names are distinct.
proof fn lemma_qemu_keys_distinct()
    ensures
        "vmid"@ != "name"@,
        "vmid"@ != "cores"@,
        "vmid"@ != "sockets"@,
        "vmid"@ != "memory"@,
        "vmid"@ != "ostype"@,
        "vmid"@ != "scsihw"@,
        "vmid"@ != "net0"@,
        "vmid"@ != "boot"@,
        "vmid"@ != "agent"@,
        "vmid"@ != "start"@,
        "vmid"@ != "pool"@,
        "vmid"@ != "description"@,
        "vmid"@ != "tags"@,
        "name"@ != "cores"@,
        "name"@ != "sockets"@,
        "name"@ != "memory"@,
        "name"@ != "ostype"@,
        "name"@ != "scsihw"@,
        "name"@ != "net0"@,
        "name"@ != "boot"@,
        "name"@ != "agent"@,
        "name"@ != "start"@,
        "name"@ != "pool"@,
        "name"@ != "description"@,
        "name"@ != "tags"@,
        "cores"@ != "sockets"@,
        "cores"@ != "memory"@,
        "cores"@ != "ostype"@,
        "cores"@ != "scsihw"@,
        "cores"@ != "net0"@,
        "cores"@ != "boot"@,
        "cores"@ != "agent"@,
        "cores"@ != "start"@,
        "cores"@ != "pool"@,
        "cores"@ != "description"@,
        "cores"@ != "tags"@,
        "sockets"@ != "memory"@,
        "sockets"@ != "ostype"@,
        "sockets"@ != "scsihw"@,
        "sockets"@ != "net0"@,
        "sockets"@ != "boot"@,
        "sockets"@ != "agent"@,
        "sockets"@ != "start"@,
        "sockets"@ != "pool"@,
        "sockets"@ != "description"@,
        "sockets"@ != "tags"@,
        "memory"@ != "ostype"@,
        "memory"@ != "scsihw"@,
        "memory"@ != "net0"@,
        "memory"@ != "boot"@,
        "memory"@ != "agent"@,
        "memory"@ != "start"@,
        "memory"@ != "pool"@,
        "memory"@ != "description"@,
        "memory"@ != "tags"@,
        "ostype"@ != "scsihw"@,
        "ostype"@ != "net0"@,
        "ostype"@ != "boot"@,
        "ostype"@ != "agent"@,
        "ostype"@ != "start"@,
        "ostype"@ != "pool"@,
        "ostype"@ != "description"@,
        "ostype"@ != "tags"@,
        "scsihw"@ != "net0"@,
        "scsihw"@ != "boot"@,
        "scsihw"@ != "agent"@,
        "scsihw"@ != "start"@,
        "scsihw"@ != "pool"@,
        "scsihw"@ != "description"@,
        "scsihw"@ != "tags"@,
        "net0"@ != "boot"@,
        "net0"@ != "agent"@,
        "net0"@ != "start"@,
        "net0"@ != "pool"@,
        "net0"@ != "description"@,
        "net0"@ != "tags"@,
        "boot"@ != "agent"@,
        "boot"@ != "start"@,
        "boot"@ != "pool"@,
        "boot"@ != "description"@,
        "boot"@ != "tags"@,
        "agent"@ != "start"@,
        "agent"@ != "pool"@,
        "agent"@ != "description"@,
        "agent"@ != "tags"@,
        "start"@ != "pool"@,
        "start"@ != "description"@,
        "start"@ != "tags"@,
        "pool"@ != "description"@,
        "pool"@ != "tags"@,
        "description"@ != "tags"@,
{
    reveal_strlit("vmid");
    assert("vmid"@.len() == 4);
    assert("vmid"@[0] == 'v');
    reveal_strlit("name");
    assert("name"@.len() == 4);
    assert("name"@[0] == 'n');
    assert("name"@[1] == 'a');
    reveal_strlit("cores");
    assert("cores"@.len() == 5);
    assert("cores"@[0] == 'c');
    reveal_strlit("sockets");
    assert("sockets"@.len() == 7);
    reveal_strlit("memory");
    assert("memory"@.len() == 6);
    assert("memory"@[0] == 'm');
    reveal_strlit("ostype");
    assert("ostype"@.len() == 6);
    assert("ostype"@[0] == 'o');
    reveal_strlit("scsihw");
    assert("scsihw"@.len() == 6);
    assert("scsihw"@[0] == 's');
    reveal_strlit("net0");
    assert("net0"@.len() == 4);
    assert("net0"@[0] == 'n');
    assert("net0"@[1] == 'e');
    reveal_strlit("boot");
    assert("boot"@.len() == 4);
    assert("boot"@[0] == 'b');
    reveal_strlit("agent");
    assert("agent"@.len() == 5);
    assert("agent"@[0] == 'a');
    reveal_strlit("start");
    assert("start"@.len() == 5);
    assert("start"@[0] == 's');
    reveal_strlit("pool");
    assert("pool"@.len() == 4);
    assert("pool"@[0] == 'p');
    reveal_strlit("description");
    assert("description"@.len() == 11);
    reveal_strlit("tags");
    assert("tags"@.len() == 4);
    assert("tags"@[0] == 't');
}

proof fn lemma_qemu_param_vmid(c: QemuCreate)
    ensures
        !texts(c.extra@).dom().contains("vmid"@) ==> qemu_params(c).dom().contains("vmid"@) && qemu_params(c)["vmid"@] == decimal(c.vmid as nat),
{
    lemma_qemu_keys_distinct();
    let m0 = Map::<Seq<char>, Seq<char>>::empty().insert("vmid"@, decimal(c.vmid as nat));
    let m1 = put_opt(m0, "name"@, opt_str(c.name));
    let m2 = put_opt(m1, "cores"@, opt_decimal(widen(c.cores)));
    let m3 = put_opt(m2, "sockets"@, opt_decimal(widen(c.sockets)));
    let m4 = put_opt(m3, "memory"@, opt_decimal(c.memory));
    let m5 = put_opt(m4, "ostype"@, opt_str(c.ostype));
    let m6 = put_opt(m5, "scsihw"@, opt_str(c.scsihw));
    let m7 = put_opt(m6, "net0"@, opt_str(c.net0));
    let m8 = put_opt(m7, "boot"@, opt_str(c.boot));
    let m9 = put_opt(m8, "agent"@, opt_bool(c.agent));
    let m10 = put_opt(m9, "start"@, opt_bool(c.start));
    let m11 = put_opt(m10, "pool"@, opt_str(c.pool));
    let m12 = put_opt(m11, "description"@, opt_str(c.description));
    let m13 = put_opt(m12, "tags"@, opt_str(c.tags));
    assert(qemu_params(c) == m13.union_prefer_right(texts(c.extra@))) by {
        reveal(qemu_params);
    }
    assert(m13.dom().contains("vmid"@) && m13["vmid"@] == decimal(c.vmid as nat)) by {
        lemma_put_opt_other(m0, "name"@, opt_str(c.name), "vmid"@);
        lemma_put_opt_other(m1, "cores"@, opt_decimal(widen(c.cores)), "vmid"@);
        lemma_put_opt_other(m2, "sockets"@, opt_decimal(widen(c.sockets)), "vmid"@);
        lemma_put_opt_other(m3, "memory"@, opt_decimal(c.memory), "vmid"@);
        lemma_put_opt_other(m4, "ostype"@, opt_str(c.ostype), "vmid"@);
        lemma_put_opt_other(m5, "scsihw"@, opt_str(c.scsihw), "vmid"@);
        lemma_put_opt_other(m6, "net0"@, opt_str(c.net0), "vmid"@);
        lemma_put_opt_other(m7, "boot"@, opt_str(c.boot), "vmid"@);
        lemma_put_opt_other(m8, "agent"@, opt_bool(c.agent), "vmid"@);
        lemma_put_opt_other(m9, "start"@, opt_bool(c.start), "vmid"@);
        lemma_put_opt_other(m10, "pool"@, opt_str(c.pool), "vmid"@);
        lemma_put_opt_other(m11, "description"@, opt_str(c.description), "vmid"@);
        lemma_put_opt_other(m12, "tags"@, opt_str(c.tags), "vmid"@);
    }
}

proof fn lemma_qemu_param_name(c: QemuCreate)
    ensures
        c.name matches Some(v) ==> (!texts(c.extra@).dom().contains("name"@) ==> qemu_params(c).dom().contains("name"@) && qemu_params(c)["name"@] == v@),
        c.name is None && !texts(c.extra@).dom().contains("name"@) ==> !qemu_params(c).dom().contains("name"@),
{
    lemma_qemu_keys_distinct();
    let m0 = Map::<Seq<char>, Seq<char>>::empty().insert("vmid"@, decimal(c.vmid as nat));
    let m1 = put_opt(m0, "name"@, opt_str(c.name));
    let m2 = put_opt(m1, "cores"@, opt_decimal(widen(c.cores)));
    let m3 = put_opt(m2, "sockets"@, opt_decimal(widen(c.sockets)));
    let m4 = put_opt(m3, "memory"@, opt_decimal(c.memory));
    let m5 = put_opt(m4, "ostype"@, opt_str(c.ostype));
    let m6 = put_opt(m5, "scsihw"@, opt_str(c.scsihw));
    let m7 = put_opt(m6, "net0"@, opt_str(c.net0));
    let m8 = put_opt(m7, "boot"@, opt_str(c.boot));
    let m9 = put_opt(m8, "agent"@, opt_bool(c.agent));
    let m10 = put_opt(m9, "start"@, opt_bool(c.start));
    let m11 = put_opt(m10, "pool"@, opt_str(c.pool));
    let m12 = put_opt(m11, "description"@, opt_str(c.description));
    let m13 = put_opt(m12, "tags"@, opt_str(c.tags));
    assert(qemu_params(c) == m13.union_prefer_right(texts(c.extra@))) by {
        reveal(qemu_params);
    }
    lemma_put_opt_same(m0, "name"@, opt_str(c.name));
    lemma_put_opt_other(m1, "cores"@, opt_decimal(widen(c.cores)), "name"@);
    lemma_put_opt_other(m2, "sockets"@, opt_decimal(widen(c.sockets)), "name"@);
    lemma_put_opt_other(m3, "memory"@, opt_decimal(c.memory), "name"@);
    lemma_put_opt_other(m4, "ostype"@, opt_str(c.ostype), "name"@);
    lemma_put_opt_other(m5, "scsihw"@, opt_str(c.scsihw), "name"@);
    lemma_put_opt_other(m6, "net0"@, opt_str(c.net0), "name"@);
    lemma_put_opt_other(m7, "boot"@, opt_str(c.boot), "name"@);
    lemma_put_opt_other(m8, "agent"@, opt_bool(c.agent), "name"@);
    lemma_put_opt_other(m9, "start"@, opt_bool(c.start), "name"@);
    lemma_put_opt_other(m10, "pool"@, opt_str(c.pool), "name"@);
    lemma_put_opt_other(m11, "description"@, opt_str(c.description), "name"@);
    lemma_put_opt_other(m12, "tags"@, opt_str(c.tags), "name"@);
}

proof fn lemma_qemu_param_cores(c: QemuCreate)
    ensures
        c.cores matches Some(v) ==> (!texts(c.extra@).dom().contains("cores"@) ==> qemu_params(c).dom().contains("cores"@) && qemu_params(c)["cores"@] == decimal(v as nat)),
        c.cores is None && !texts(c.extra@).dom().contains("cores"@) ==> !qemu_params(c).dom().contains("cores"@),
{
    lemma_qemu_keys_distinct();
    let m0 = Map::<Seq<char>, Seq<char>>::empty().insert("vmid"@, decimal(c.vmid as nat));
    let m1 = put_opt(m0, "name"@, opt_str(c.name));
    let m2 = put_opt(m1, "cores"@, opt_decimal(widen(c.cores)));
    let m3 = put_opt(m2, "sockets"@, opt_decimal(widen(c.sockets)));
    let m4 = put_opt(m3, "memory"@, opt_decimal(c.memory));
    let m5 = put_opt(m4, "ostype"@, opt_str(c.ostype));
    let m6 = put_opt(m5, "scsihw"@, opt_str(c.scsihw));
    let m7 = put_opt(m6, "net0"@, opt_str(c.net0));
    let m8 = put_opt(m7, "boot"@, opt_str(c.boot));
    let m9 = put_opt(m8, "agent"@, opt_bool(c.agent));
    let m10 = put_opt(m9, "start"@, opt_bool(c.start));
    let m11 = put_opt(m10, "pool"@, opt_str(c.pool));
    let m12 = put_opt(m11, "description"@, opt_str(c.description));
    let m13 = put_opt(m12, "tags"@, opt_str(c.tags));
    assert(qemu_params(c) == m13.union_prefer_right(texts(c.extra@))) by {
        reveal(qemu_params);
    }
    lemma_put_opt_same(m1, "cores"@, opt_decimal(widen(c.cores)));
    lemma_put_opt_other(m0, "name"@, opt_str(c.name), "cores"@);
    lemma_put_opt_other(m2, "sockets"@, opt_decimal(widen(c.sockets)), "cores"@);
    lemma_put_opt_other(m3, "memory"@, opt_decimal(c.memory), "cores"@);
    lemma_put_opt_other(m4, "ostype"@, opt_str(c.ostype), "cores"@);
    lemma_put_opt_other(m5, "scsihw"@, opt_str(c.scsihw), "cores"@);
    lemma_put_opt_other(m6, "net0"@, opt_str(c.net0), "cores"@);
    lemma_put_opt_other(m7, "boot"@, opt_str(c.boot), "cores"@);
    lemma_put_opt_other(m8, "agent"@, opt_bool(c.agent), "cores"@);
    lemma_put_opt_other(m9, "start"@, opt_bool(c.start), "cores"@);
    lemma_put_opt_other(m10, "pool"@, opt_str(c.pool), "cores"@);
    lemma_put_opt_other(m11, "description"@, opt_str(c.description), "cores"@);
    lemma_put_opt_other(m12, "tags"@, opt_str(c.tags), "cores"@);
}

proof fn lemma_qemu_param_sockets(c: QemuCreate)
    ensures
        c.sockets matches Some(v) ==> (!texts(c.extra@).dom().contains("sockets"@) ==> qemu_params(c).dom().contains("sockets"@) && qemu_params(c)["sockets"@] == decimal(v as nat)),
        c.sockets is None && !texts(c.extra@).dom().contains("sockets"@) ==> !qemu_params(c).dom().contains("sockets"@),
{
    lemma_qemu_keys_distinct();
    let m0 = Map::<Seq<char>, Seq<char>>::empty().insert("vmid"@, decimal(c.vmid as nat));
    let m1 = put_opt(m0, "name"@, opt_str(c.name));
    let m2 = put_opt(m1, "cores"@, opt_decimal(widen(c.cores)));
    let m3 = put_opt(m2, "sockets"@, opt_decimal(widen(c.sockets)));
    let m4 = put_opt(m3, "memory"@, opt_decimal(c.memory));
    let m5 = put_opt(m4, "ostype"@, opt_str(c.ostype));
    let m6 = put_opt(m5, "scsihw"@, opt_str(c.scsihw));
    let m7 = put_opt(m6, "net0"@, opt_str(c.net0));
    let m8 = put_opt(m7, "boot"@, opt_str(c.boot));
    let m9 = put_opt(m8, "agent"@, opt_bool(c.agent));
    let m10 = put_opt(m9, "start"@, opt_bool(c.start));
    let m11 = put_opt(m10, "pool"@, opt_str(c.pool));
    let m12 = put_opt(m11, "description"@, opt_str(c.description));
    let m13 = put_opt(m12, "tags"@, opt_str(c.tags));
    assert(qemu_params(c) == m13.union_prefer_right(texts(c.extra@))) by {
        reveal(qemu_params);
    }
    lemma_put_opt_same(m2, "sockets"@, opt_decimal(widen(c.sockets)));
    lemma_put_opt_other(m0, "name"@, opt_str(c.name), "sockets"@);
    lemma_put_opt_other(m1, "cores"@, opt_decimal(widen(c.cores)), "sockets"@);
    lemma_put_opt_other(m3, "memory"@, opt_decimal(c.memory), "sockets"@);
    lemma_put_opt_other(m4, "ostype"@, opt_str(c.ostype), "sockets"@);
    lemma_put_opt_other(m5, "scsihw"@, opt_str(c.scsihw), "sockets"@);
    lemma_put_opt_other(m6, "net0"@, opt_str(c.net0), "sockets"@);
    lemma_put_opt_other(m7, "boot"@, opt_str(c.boot), "sockets"@);
    lemma_put_opt_other(m8, "agent"@, opt_bool(c.agent), "sockets"@);
    lemma_put_opt_other(m9, "start"@, opt_bool(c.start), "sockets"@);
    lemma_put_opt_other(m10, "pool"@, opt_str(c.pool), "sockets"@);
    lemma_put_opt_other(m11, "description"@, opt_str(c.description), "sockets"@);
    lemma_put_opt_other(m12, "tags"@, opt_str(c.tags), "sockets"@);
}

proof fn lemma_qemu_param_memory(c: QemuCreate)
    ensures
        c.memory matches Some(v) ==> (!texts(c.extra@).dom().contains("memory"@) ==> qemu_params(c).dom().contains("memory"@) && qemu_params(c)["memory"@] == decimal(v as nat)),
        c.memory is None && !texts(c.extra@).dom().contains("memory"@) ==> !qemu_params(c).dom().contains("memory"@),
{
    lemma_qemu_keys_distinct();
    let m0 = Map::<Seq<char>, Seq<char>>::empty().insert("vmid"@, decimal(c.vmid as nat));
    let m1 = put_opt(m0, "name"@, opt_str(c.name));
    let m2 = put_opt(m1, "cores"@, opt_decimal(widen(c.cores)));
    let m3 = put_opt(m2, "sockets"@, opt_decimal(widen(c.sockets)));
    let m4 = put_opt(m3, "memory"@, opt_decimal(c.memory));
    let m5 = put_opt(m4, "ostype"@, opt_str(c.ostype));
    let m6 = put_opt(m5, "scsihw"@, opt_str(c.scsihw));
    let m7 = put_opt(m6, "net0"@, opt_str(c.net0));
    let m8 = put_opt(m7, "boot"@, opt_str(c.boot));
    let m9 = put_opt(m8, "agent"@, opt_bool(c.agent));
    let m10 = put_opt(m9, "start"@, opt_bool(c.start));
    let m11 = put_opt(m10, "pool"@, opt_str(c.pool));
    let m12 = put_opt(m11, "description"@, opt_str(c.description));
    let m13 = put_opt(m12, "tags"@, opt_str(c.tags));
    assert(qemu_params(c) == m13.union_prefer_right(texts(c.extra@))) by {
        reveal(qemu_params);
    }
    lemma_put_opt_same(m3, "memory"@, opt_decimal(c.memory));
    lemma_put_opt_other(m0, "name"@, opt_str(c.name), "memory"@);
    lemma_put_opt_other(m1, "cores"@, opt_decimal(widen(c.cores)), "memory"@);
    lemma_put_opt_other(m2, "sockets"@, opt_decimal(widen(c.sockets)), "memory"@);
    lemma_put_opt_other(m4, "ostype"@, opt_str(c.ostype), "memory"@);
    lemma_put_opt_other(m5, "scsihw"@, opt_str(c.scsihw), "memory"@);
    lemma_put_opt_other(m6, "net0"@, opt_str(c.net0), "memory"@);
    lemma_put_opt_other(m7, "boot"@, opt_str(c.boot), "memory"@);
    lemma_put_opt_other(m8, "agent"@, opt_bool(c.agent), "memory"@);
    lemma_put_opt_other(m9, "start"@, opt_bool(c.start), "memory"@);
    lemma_put_opt_other(m10, "pool"@, opt_str(c.pool), "memory"@);
    lemma_put_opt_other(m11, "description"@, opt_str(c.description), "memory"@);
    lemma_put_opt_other(m12, "tags"@, opt_str(c.tags), "memory"@);
}

proof fn lemma_qemu_param_ostype(c: QemuCreate)
    ensures
        c.ostype matches Some(v) ==> (!texts(c.extra@).dom().contains("ostype"@) ==> qemu_params(c).dom().contains("ostype"@) && qemu_params(c)["ostype"@] == v@),
        c.ostype is None && !texts(c.extra@).dom().contains("ostype"@) ==> !qemu_params(c).dom().contains("ostype"@),
{
    lemma_qemu_keys_distinct();
    let m0 = Map::<Seq<char>, Seq<char>>::empty().insert("vmid"@, decimal(c.vmid as nat));
    let m1 = put_opt(m0, "name"@, opt_str(c.name));
    let m2 = put_opt(m1, "cores"@, opt_decimal(widen(c.cores)));
    let m3 = put_opt(m2, "sockets"@, opt_decimal(widen(c.sockets)));
    let m4 = put_opt(m3, "memory"@, opt_decimal(c.memory));
    let m5 = put_opt(m4, "ostype"@, opt_str(c.ostype));
    let m6 = put_opt(m5, "scsihw"@, opt_str(c.scsihw));
    let m7 = put_opt(m6, "net0"@, opt_str(c.net0));
    let m8 = put_opt(m7, "boot"@, opt_str(c.boot));
    let m9 = put_opt(m8, "agent"@, opt_bool(c.agent));
    let m10 = put_opt(m9, "start"@, opt_bool(c.start));
    let m11 = put_opt(m10, "pool"@, opt_str(c.pool));
    let m12 = put_opt(m11, "description"@, opt_str(c.description));
    let m13 = put_opt(m12, "tags"@, opt_str(c.tags));
    assert(qemu_params(c) == m13.union_prefer_right(texts(c.extra@))) by {
        reveal(qemu_params);
    }
    lemma_put_opt_same(m4, "ostype"@, opt_str(c.ostype));
    lemma_put_opt_other(m0, "name"@, opt_str(c.name), "ostype"@);
    lemma_put_opt_other(m1, "cores"@, opt_decimal(widen(c.cores)), "ostype"@);
    lemma_put_opt_other(m2, "sockets"@, opt_decimal(widen(c.sockets)), "ostype"@);
    lemma_put_opt_other(m3, "memory"@, opt_decimal(c.memory), "ostype"@);
    lemma_put_opt_other(m5, "scsihw"@, opt_str(c.scsihw), "ostype"@);
    lemma_put_opt_other(m6, "net0"@, opt_str(c.net0), "ostype"@);
    lemma_put_opt_other(m7, "boot"@, opt_str(c.boot), "ostype"@);
    lemma_put_opt_other(m8, "agent"@, opt_bool(c.agent), "ostype"@);
    lemma_put_opt_other(m9, "start"@, opt_bool(c.start), "ostype"@);
    lemma_put_opt_other(m10, "pool"@, opt_str(c.pool), "ostype"@);
    lemma_put_opt_other(m11, "description"@, opt_str(c.description), "ostype"@);
    lemma_put_opt_other(m12, "tags"@, opt_str(c.tags), "ostype"@);
}

proof fn lemma_qemu_param_scsihw(c: QemuCreate)
    ensures
        c.scsihw matches Some(v) ==> (!texts(c.extra@).dom().contains("scsihw"@) ==> qemu_params(c).dom().contains("scsihw"@) && qemu_params(c)["scsihw"@] == v@),
        c.scsihw is None && !texts(c.extra@).dom().contains("scsihw"@) ==> !qemu_params(c).dom().contains("scsihw"@),
{
    lemma_qemu_keys_distinct();
    let m0 = Map::<Seq<char>, Seq<char>>::empty().insert("vmid"@, decimal(c.vmid as nat));
    let m1 = put_opt(m0, "name"@, opt_str(c.name));
    let m2 = put_opt(m1, "cores"@, opt_decimal(widen(c.cores)));
    let m3 = put_opt(m2, "sockets"@, opt_decimal(widen(c.sockets)));
    let m4 = put_opt(m3, "memory"@, opt_decimal(c.memory));
    let m5 = put_opt(m4, "ostype"@, opt_str(c.ostype));
    let m6 = put_opt(m5, "scsihw"@, opt_str(c.scsihw));
    let m7 = put_opt(m6, "net0"@, opt_str(c.net0));
    let m8 = put_opt(m7, "boot"@, opt_str(c.boot));
    let m9 = put_opt(m8, "agent"@, opt_bool(c.agent));
    let m10 = put_opt(m9, "start"@, opt_bool(c.start));
    let m11 = put_opt(m10, "pool"@, opt_str(c.pool));
    let m12 = put_opt(m11, "description"@, opt_str(c.description));
    let m13 = put_opt(m12, "tags"@, opt_str(c.tags));
    assert(qemu_params(c) == m13.union_prefer_right(texts(c.extra@))) by {
        reveal(qemu_params);
    }
    lemma_put_opt_same(m5, "scsihw"@, opt_str(c.scsihw));
    lemma_put_opt_other(m0, "name"@, opt_str(c.name), "scsihw"@);
    lemma_put_opt_other(m1, "cores"@, opt_decimal(widen(c.cores)), "scsihw"@);
    lemma_put_opt_other(m2, "sockets"@, opt_decimal(widen(c.sockets)), "scsihw"@);
    lemma_put_opt_other(m3, "memory"@, opt_decimal(c.memory), "scsihw"@);
    lemma_put_opt_other(m4, "ostype"@, opt_str(c.ostype), "scsihw"@);
    lemma_put_opt_other(m6, "net0"@, opt_str(c.net0), "scsihw"@);
    lemma_put_opt_other(m7, "boot"@, opt_str(c.boot), "scsihw"@);
    lemma_put_opt_other(m8, "agent"@, opt_bool(c.agent), "scsihw"@);
    lemma_put_opt_other(m9, "start"@, opt_bool(c.start), "scsihw"@);
    lemma_put_opt_other(m10, "pool"@, opt_str(c.pool), "scsihw"@);
    lemma_put_opt_other(m11, "description"@, opt_str(c.description), "scsihw"@);
    lemma_put_opt_other(m12, "tags"@, opt_str(c.tags), "scsihw"@);
}

proof fn lemma_qemu_param_net0(c: QemuCreate)
    ensures
        c.net0 matches Some(v) ==> (!texts(c.extra@).dom().contains("net0"@) ==> qemu_params(c).dom().contains("net0"@) && qemu_params(c)["net0"@] == v@),
        c.net0 is None && !texts(c.extra@).dom().contains("net0"@) ==> !qemu_params(c).dom().contains("net0"@),
{
    lemma_qemu_keys_distinct();
    let m0 = Map::<Seq<char>, Seq<char>>::empty().insert("vmid"@, decimal(c.vmid as nat));
    let m1 = put_opt(m0, "name"@, opt_str(c.name));
    let m2 = put_opt(m1, "cores"@, opt_decimal(widen(c.cores)));
    let m3 = put_opt(m2, "sockets"@, opt_decimal(widen(c.sockets)));
    let m4 = put_opt(m3, "memory"@, opt_decimal(c.memory));
    let m5 = put_opt(m4, "ostype"@, opt_str(c.ostype));
    let m6 = put_opt(m5, "scsihw"@, opt_str(c.scsihw));
    let m7 = put_opt(m6, "net0"@, opt_str(c.net0));
    let m8 = put_opt(m7, "boot"@, opt_str(c.boot));
    let m9 = put_opt(m8, "agent"@, opt_bool(c.agent));
    let m10 = put_opt(m9, "start"@, opt_bool(c.start));
    let m11 = put_opt(m10, "pool"@, opt_str(c.pool));
    let m12 = put_opt(m11, "description"@, opt_str(c.description));
    let m13 = put_opt(m12, "tags"@, opt_str(c.tags));
    assert(qemu_params(c) == m13.union_prefer_right(texts(c.extra@))) by {
        reveal(qemu_params);
    }
    lemma_put_opt_same(m6, "net0"@, opt_str(c.net0));
    lemma_put_opt_other(m0, "name"@, opt_str(c.name), "net0"@);
    lemma_put_opt_other(m1, "cores"@, opt_decimal(widen(c.cores)), "net0"@);
    lemma_put_opt_other(m2, "sockets"@, opt_decimal(widen(c.sockets)), "net0"@);
    lemma_put_opt_other(m3, "memory"@, opt_decimal(c.memory), "net0"@);
    lemma_put_opt_other(m4, "ostype"@, opt_str(c.ostype), "net0"@);
    lemma_put_opt_other(m5, "scsihw"@, opt_str(c.scsihw), "net0"@);
    lemma_put_opt_other(m7, "boot"@, opt_str(c.boot), "net0"@);
    lemma_put_opt_other(m8, "agent"@, opt_bool(c.agent), "net0"@);
    lemma_put_opt_other(m9, "start"@, opt_bool(c.start), "net0"@);
    lemma_put_opt_other(m10, "pool"@, opt_str(c.pool), "net0"@);
    lemma_put_opt_other(m11, "description"@, opt_str(c.description), "net0"@);
    lemma_put_opt_other(m12, "tags"@, opt_str(c.tags), "net0"@);
}

proof fn lemma_qemu_param_boot(c: QemuCreate)
    ensures
        c.boot matches Some(v) ==> (!texts(c.extra@).dom().contains("boot"@) ==> qemu_params(c).dom().contains("boot"@) && qemu_params(c)["boot"@] == v@),
        c.boot is None && !texts(c.extra@).dom().contains("boot"@) ==> !qemu_params(c).dom().contains("boot"@),
{
    lemma_qemu_keys_distinct();
    let m0 = Map::<Seq<char>, Seq<char>>::empty().insert("vmid"@, decimal(c.vmid as nat));
    let m1 = put_opt(m0, "name"@, opt_str(c.name));
    let m2 = put_opt(m1, "cores"@, opt_decimal(widen(c.cores)));
    let m3 = put_opt(m2, "sockets"@, opt_decimal(widen(c.sockets)));
    let m4 = put_opt(m3, "memory"@, opt_decimal(c.memory));
    let m5 = put_opt(m4, "ostype"@, opt_str(c.ostype));
    let m6 = put_opt(m5, "scsihw"@, opt_str(c.scsihw));
    let m7 = put_opt(m6, "net0"@, opt_str(c.net0));
    let m8 = put_opt(m7, "boot"@, opt_str(c.boot));
    let m9 = put_opt(m8, "agent"@, opt_bool(c.agent));
    let m10 = put_opt(m9, "start"@, opt_bool(c.start));
    let m11 = put_opt(m10, "pool"@, opt_str(c.pool));
    let m12 = put_opt(m11, "description"@, opt_str(c.description));
    let m13 = put_opt(m12, "tags"@, opt_str(c.tags));
    assert(qemu_params(c) == m13.union_prefer_right(texts(c.extra@))) by {
        reveal(qemu_params);
    }
    lemma_put_opt_same(m7, "boot"@, opt_str(c.boot));
    lemma_put_opt_other(m0, "name"@, opt_str(c.name), "boot"@);
    lemma_put_opt_other(m1, "cores"@, opt_decimal(widen(c.cores)), "boot"@);
    lemma_put_opt_other(m2, "sockets"@, opt_decimal(widen(c.sockets)), "boot"@);
    lemma_put_opt_other(m3, "memory"@, opt_decimal(c.memory), "boot"@);
    lemma_put_opt_other(m4, "ostype"@, opt_str(c.ostype), "boot"@);
    lemma_put_opt_other(m5, "scsihw"@, opt_str(c.scsihw), "boot"@);
    lemma_put_opt_other(m6, "net0"@, opt_str(c.net0), "boot"@);
    lemma_put_opt_other(m8, "agent"@, opt_bool(c.agent), "boot"@);
    lemma_put_opt_other(m9, "start"@, opt_bool(c.start), "boot"@);
    lemma_put_opt_other(m10, "pool"@, opt_str(c.pool), "boot"@);
    lemma_put_opt_other(m11, "description"@, opt_str(c.description), "boot"@);
    lemma_put_opt_other(m12, "tags"@, opt_str(c.tags), "boot"@);
}

proof fn lemma_qemu_param_agent(c: QemuCreate)
    ensures
        c.agent matches Some(v) ==> (!texts(c.extra@).dom().contains("agent"@) ==> qemu_params(c).dom().contains("agent"@) && qemu_params(c)["agent"@] == (if v { "1"@ } else { "0"@ })),
        c.agent is None && !texts(c.extra@).dom().contains("agent"@) ==> !qemu_params(c).dom().contains("agent"@),
{
    lemma_qemu_keys_distinct();
    let m0 = Map::<Seq<char>, Seq<char>>::empty().insert("vmid"@, decimal(c.vmid as nat));
    let m1 = put_opt(m0, "name"@, opt_str(c.name));
    let m2 = put_opt(m1, "cores"@, opt_decimal(widen(c.cores)));
    let m3 = put_opt(m2, "sockets"@, opt_decimal(widen(c.sockets)));
    let m4 = put_opt(m3, "memory"@, opt_decimal(c.memory));
    let m5 = put_opt(m4, "ostype"@, opt_str(c.ostype));
    let m6 = put_opt(m5, "scsihw"@, opt_str(c.scsihw));
    let m7 = put_opt(m6, "net0"@, opt_str(c.net0));
    let m8 = put_opt(m7, "boot"@, opt_str(c.boot));
    let m9 = put_opt(m8, "agent"@, opt_bool(c.agent));
    let m10 = put_opt(m9, "start"@, opt_bool(c.start));
    let m11 = put_opt(m10, "pool"@, opt_str(c.pool));
    let m12 = put_opt(m11, "description"@, opt_str(c.description));
    let m13 = put_opt(m12, "tags"@, opt_str(c.tags));
    assert(qemu_params(c) == m13.union_prefer_right(texts(c.extra@))) by {
        reveal(qemu_params);
    }
    lemma_put_opt_same(m8, "agent"@, opt_bool(c.agent));
    lemma_put_opt_other(m0, "name"@, opt_str(c.name), "agent"@);
    lemma_put_opt_other(m1, "cores"@, opt_decimal(widen(c.cores)), "agent"@);
    lemma_put_opt_other(m2, "sockets"@, opt_decimal(widen(c.sockets)), "agent"@);
    lemma_put_opt_other(m3, "memory"@, opt_decimal(c.memory), "agent"@);
    lemma_put_opt_other(m4, "ostype"@, opt_str(c.ostype), "agent"@);
    lemma_put_opt_other(m5, "scsihw"@, opt_str(c.scsihw), "agent"@);
    lemma_put_opt_other(m6, "net0"@, opt_str(c.net0), "agent"@);
    lemma_put_opt_other(m7, "boot"@, opt_str(c.boot), "agent"@);
    lemma_put_opt_other(m9, "start"@, opt_bool(c.start), "agent"@);
    lemma_put_opt_other(m10, "pool"@, opt_str(c.pool), "agent"@);
    lemma_put_opt_other(m11, "description"@, opt_str(c.description), "agent"@);
    lemma_put_opt_other(m12, "tags"@, opt_str(c.tags), "agent"@);
}

proof fn lemma_qemu_param_start(c: QemuCreate)
    ensures
        c.start matches Some(v) ==> (!texts(c.extra@).dom().contains("start"@) ==> qemu_params(c).dom().contains("start"@) && qemu_params(c)["start"@] == (if v { "1"@ } else { "0"@ })),
        c.start is None && !texts(c.extra@).dom().contains("start"@) ==> !qemu_params(c).dom().contains("start"@),
{
    lemma_qemu_keys_distinct();
    let m0 = Map::<Seq<char>, Seq<char>>::empty().insert("vmid"@, decimal(c.vmid as nat));
    let m1 = put_opt(m0, "name"@, opt_str(c.name));
    let m2 = put_opt(m1, "cores"@, opt_decimal(widen(c.cores)));
    let m3 = put_opt(m2, "sockets"@, opt_decimal(widen(c.sockets)));
    let m4 = put_opt(m3, "memory"@, opt_decimal(c.memory));
    let m5 = put_opt(m4, "ostype"@, opt_str(c.ostype));
    let m6 = put_opt(m5, "scsihw"@, opt_str(c.scsihw));
    let m7 = put_opt(m6, "net0"@, opt_str(c.net0));
    let m8 = put_opt(m7, "boot"@, opt_str(c.boot));
    let m9 = put_opt(m8, "agent"@, opt_bool(c.agent));
    let m10 = put_opt(m9, "start"@, opt_bool(c.start));
    let m11 = put_opt(m10, "pool"@, opt_str(c.pool));
    let m12 = put_opt(m11, "description"@, opt_str(c.description));
    let m13 = put_opt(m12, "tags"@, opt_str(c.tags));
    assert(qemu_params(c) == m13.union_prefer_right(texts(c.extra@))) by {
        reveal(qemu_params);
    }
    lemma_put_opt_same(m9, "start"@, opt_bool(c.start));
    lemma_put_opt_other(m0, "name"@, opt_str(c.name), "start"@);
    lemma_put_opt_other(m1, "cores"@, opt_decimal(widen(c.cores)), "start"@);
    lemma_put_opt_other(m2, "sockets"@, opt_decimal(widen(c.sockets)), "start"@);
    lemma_put_opt_other(m3, "memory"@, opt_decimal(c.memory), "start"@);
    lemma_put_opt_other(m4, "ostype"@, opt_str(c.ostype), "start"@);
    lemma_put_opt_other(m5, "scsihw"@, opt_str(c.scsihw), "start"@);
    lemma_put_opt_other(m6, "net0"@, opt_str(c.net0), "start"@);
    lemma_put_opt_other(m7, "boot"@, opt_str(c.boot), "start"@);
    lemma_put_opt_other(m8, "agent"@, opt_bool(c.agent), "start"@);
    lemma_put_opt_other(m10, "pool"@, opt_str(c.pool), "start"@);
    lemma_put_opt_other(m11, "description"@, opt_str(c.description), "start"@);
    lemma_put_opt_other(m12, "tags"@, opt_str(c.tags), "start"@);
}

proof fn lemma_qemu_param_pool(c: QemuCreate)
    ensures
        c.pool matches Some(v) ==> (!texts(c.extra@).dom().contains("pool"@) ==> qemu_params(c).dom().contains("pool"@) && qemu_params(c)["pool"@] == v@),
        c.pool is None && !texts(c.extra@).dom().contains("pool"@) ==> !qemu_params(c).dom().contains("pool"@),
{
    lemma_qemu_keys_distinct();
    let m0 = Map::<Seq<char>, Seq<char>>::empty().insert("vmid"@, decimal(c.vmid as nat));
    let m1 = put_opt(m0, "name"@, opt_str(c.name));
    let m2 = put_opt(m1, "cores"@, opt_decimal(widen(c.cores)));
    let m3 = put_opt(m2, "sockets"@, opt_decimal(widen(c.sockets)));
    let m4 = put_opt(m3, "memory"@, opt_decimal(c.memory));
    let m5 = put_opt(m4, "ostype"@, opt_str(c.ostype));
    let m6 = put_opt(m5, "scsihw"@, opt_str(c.scsihw));
    let m7 = put_opt(m6, "net0"@, opt_str(c.net0));
    let m8 = put_opt(m7, "boot"@, opt_str(c.boot));
    let m9 = put_opt(m8, "agent"@, opt_bool(c.agent));
    let m10 = put_opt(m9, "start"@, opt_bool(c.start));
    let m11 = put_opt(m10, "pool"@, opt_str(c.pool));
    let m12 = put_opt(m11, "description"@, opt_str(c.description));
    let m13 = put_opt(m12, "tags"@, opt_str(c.tags));
    assert(qemu_params(c) == m13.union_prefer_right(texts(c.extra@))) by {
        reveal(qemu_params);
    }
    lemma_put_opt_same(m10, "pool"@, opt_str(c.pool));
    lemma_put_opt_other(m0, "name"@, opt_str(c.name), "pool"@);
    lemma_put_opt_other(m1, "cores"@, opt_decimal(widen(c.cores)), "pool"@);
    lemma_put_opt_other(m2, "sockets"@, opt_decimal(widen(c.sockets)), "pool"@);
    lemma_put_opt_other(m3, "memory"@, opt_decimal(c.memory), "pool"@);
    lemma_put_opt_other(m4, "ostype"@, opt_str(c.ostype), "pool"@);
    lemma_put_opt_other(m5, "scsihw"@, opt_str(c.scsihw), "pool"@);
    lemma_put_opt_other(m6, "net0"@, opt_str(c.net0), "pool"@);
    lemma_put_opt_other(m7, "boot"@, opt_str(c.boot), "pool"@);
    lemma_put_opt_other(m8, "agent"@, opt_bool(c.agent), "pool"@);
    lemma_put_opt_other(m9, "start"@, opt_bool(c.start), "pool"@);
    lemma_put_opt_other(m11, "description"@, opt_str(c.description), "pool"@);
    lemma_put_opt_other(m12, "tags"@, opt_str(c.tags), "pool"@);
}

proof fn lemma_qemu_param_description(c: QemuCreate)
    ensures
        c.description matches Some(v) ==> (!texts(c.extra@).dom().contains("description"@) ==> qemu_params(c).dom().contains("description"@) && qemu_params(c)["description"@] == v@),
        c.description is None && !texts(c.extra@).dom().contains("description"@) ==> !qemu_params(c).dom().contains("description"@),
{
    lemma_qemu_keys_distinct();
    let m0 = Map::<Seq<char>, Seq<char>>::empty().insert("vmid"@, decimal(c.vmid as nat));
    let m1 = put_opt(m0, "name"@, opt_str(c.name));
    let m2 = put_opt(m1, "cores"@, opt_decimal(widen(c.cores)));
    let m3 = put_opt(m2, "sockets"@, opt_decimal(widen(c.sockets)));
    let m4 = put_opt(m3, "memory"@, opt_decimal(c.memory));
    let m5 = put_opt(m4, "ostype"@, opt_str(c.ostype));
    let m6 = put_opt(m5, "scsihw"@, opt_str(c.scsihw));
    let m7 = put_opt(m6, "net0"@, opt_str(c.net0));
    let m8 = put_opt(m7, "boot"@, opt_str(c.boot));
    let m9 = put_opt(m8, "agent"@, opt_bool(c.agent));
    let m10 = put_opt(m9, "start"@, opt_bool(c.start));
    let m11 = put_opt(m10, "pool"@, opt_str(c.pool));
    let m12 = put_opt(m11, "description"@, opt_str(c.description));
    let m13 = put_opt(m12, "tags"@, opt_str(c.tags));
    assert(qemu_params(c) == m13.union_prefer_right(texts(c.extra@))) by {
        reveal(qemu_params);
    }
    lemma_put_opt_same(m11, "description"@, opt_str(c.description));
    lemma_put_opt_other(m0, "name"@, opt_str(c.name), "description"@);
    lemma_put_opt_other(m1, "cores"@, opt_decimal(widen(c.cores)), "description"@);
    lemma_put_opt_other(m2, "sockets"@, opt_decimal(widen(c.sockets)), "description"@);
    lemma_put_opt_other(m3, "memory"@, opt_decimal(c.memory), "description"@);
    lemma_put_opt_other(m4, "ostype"@, opt_str(c.ostype), "description"@);
    lemma_put_opt_other(m5, "scsihw"@, opt_str(c.scsihw), "description"@);
    lemma_put_opt_other(m6, "net0"@, opt_str(c.net0), "description"@);
    lemma_put_opt_other(m7, "boot"@, opt_str(c.boot), "description"@);
    lemma_put_opt_other(m8, "agent"@, opt_bool(c.agent), "description"@);
    lemma_put_opt_other(m9, "start"@, opt_bool(c.start), "description"@);
    lemma_put_opt_other(m10, "pool"@, opt_str(c.pool), "description"@);
    lemma_put_opt_other(m12, "tags"@, opt_str(c.tags), "description"@);
}

proof fn lemma_qemu_param_tags(c: QemuCreate)
    ensures
        c.tags matches Some(v) ==> (!texts(c.extra@).dom().contains("tags"@) ==> qemu_params(c).dom().contains("tags"@) && qemu_params(c)["tags"@] == v@),
        c.tags is None && !texts(c.extra@).dom().contains("tags"@) ==> !qemu_params(c).dom().contains("tags"@),
{
    lemma_qemu_keys_distinct();
    let m0 = Map::<Seq<char>, Seq<char>>::empty().insert("vmid"@, decimal(c.vmid as nat));
    let m1 = put_opt(m0, "name"@, opt_str(c.name));
    let m2 = put_opt(m1, "cores"@, opt_decimal(widen(c.cores)));
    let m3 = put_opt(m2, "sockets"@, opt_decimal(widen(c.sockets)));
    let m4 = put_opt(m3, "memory"@, opt_decimal(c.memory));
    let m5 = put_opt(m4, "ostype"@, opt_str(c.ostype));
    let m6 = put_opt(m5, "scsihw"@, opt_str(c.scsihw));
    let m7 = put_opt(m6, "net0"@, opt_str(c.net0));
    let m8 = put_opt(m7, "boot"@, opt_str(c.boot));
    let m9 = put_opt(m8, "agent"@, opt_bool(c.agent));
    let m10 = put_opt(m9, "start"@, opt_bool(c.start));
    let m11 = put_opt(m10, "pool"@, opt_str(c.pool));
    let m12 = put_opt(m11, "description"@, opt_str(c.description));
    let m13 = put_opt(m12, "tags"@, opt_str(c.tags));
    assert(qemu_params(c) == m13.union_prefer_right(texts(c.extra@))) by {
        reveal(qemu_params);
    }
    lemma_put_opt_same(m12, "tags"@, opt_str(c.tags));
    lemma_put_opt_other(m0, "name"@, opt_str(c.name), "tags"@);
    lemma_put_opt_other(m1, "cores"@, opt_decimal(widen(c.cores)), "tags"@);
    lemma_put_opt_other(m2, "sockets"@, opt_decimal(widen(c.sockets)), "tags"@);
    lemma_put_opt_other(m3, "memory"@, opt_decimal(c.memory), "tags"@);
    lemma_put_opt_other(m4, "ostype"@, opt_str(c.ostype), "tags"@);
    lemma_put_opt_other(m5, "scsihw"@, opt_str(c.scsihw), "tags"@);
    lemma_put_opt_other(m6, "net0"@, opt_str(c.net0), "tags"@);
    lemma_put_opt_other(m7, "boot"@, opt_str(c.boot), "tags"@);
    lemma_put_opt_other(m8, "agent"@, opt_bool(c.agent), "tags"@);
    lemma_put_opt_other(m9, "start"@, opt_bool(c.start), "tags"@);
    lemma_put_opt_other(m10, "pool"@, opt_str(c.pool), "tags"@);
    lemma_put_opt_other(m11, "description"@, opt_str(c.description), "tags"@);
}

proof fn lemma_qemu_param_extra(c: QemuCreate)
    ensures
        forall|k: Seq<char>| #[trigger] texts(c.extra@).dom().contains(k) ==> qemu_params(c).dom().contains(k) && qemu_params(c)[k] == texts(c.extra@)[k],
        forall|k: Seq<char>| #[trigger] qemu_params(c).dom().contains(k) ==> texts(c.extra@).dom().contains(k) || k == "vmid"@ || k == "name"@ || k == "cores"@ || k == "sockets"@ || k == "memory"@ || k == "ostype"@ || k == "scsihw"@ || k == "net0"@ || k == "boot"@ || k == "agent"@ || k == "start"@ || k == "pool"@ || k == "description"@ || k == "tags"@,
{
    let m0 = Map::<Seq<char>, Seq<char>>::empty().insert("vmid"@, decimal(c.vmid as nat));
    let m1 = put_opt(m0, "name"@, opt_str(c.name));
    let m2 = put_opt(m1, "cores"@, opt_decimal(widen(c.cores)));
    let m3 = put_opt(m2, "sockets"@, opt_decimal(widen(c.sockets)));
    let m4 = put_opt(m3, "memory"@, opt_decimal(c.memory));
    let m5 = put_opt(m4, "ostype"@, opt_str(c.ostype));
    let m6 = put_opt(m5, "scsihw"@, opt_str(c.scsihw));
    let m7 = put_opt(m6, "net0"@, opt_str(c.net0));
    let m8 = put_opt(m7, "boot"@, opt_str(c.boot));
    let m9 = put_opt(m8, "agent"@, opt_bool(c.agent));
    let m10 = put_opt(m9, "start"@, opt_bool(c.start));
    let m11 = put_opt(m10, "pool"@, opt_str(c.pool));
    let m12 = put_opt(m11, "description"@, opt_str(c.description));
    let m13 = put_opt(m12, "tags"@, opt_str(c.tags));
    assert(qemu_params(c) == m13.union_prefer_right(texts(c.extra@))) by {
        reveal(qemu_params);
    }
    assert forall|k: Seq<char>| #[trigger] qemu_params(c).dom().contains(k) implies texts(c.extra@).dom().contains(k) || k == "vmid"@ || k == "name"@ || k == "cores"@ || k == "sockets"@ || k == "memory"@ || k == "ostype"@ || k == "scsihw"@ || k == "net0"@ || k == "boot"@ || k == "agent"@ || k == "start"@ || k == "pool"@ || k == "description"@ || k == "tags"@ by {
        lemma_put_opt_dom(m0, "name"@, opt_str(c.name), k);
        lemma_put_opt_dom(m1, "cores"@, opt_decimal(widen(c.cores)), k);
        lemma_put_opt_dom(m2, "sockets"@, opt_decimal(widen(c.sockets)), k);
        lemma_put_opt_dom(m3, "memory"@, opt_decimal(c.memory), k);
        lemma_put_opt_dom(m4, "ostype"@, opt_str(c.ostype), k);
        lemma_put_opt_dom(m5, "scsihw"@, opt_str(c.scsihw), k);
        lemma_put_opt_dom(m6, "net0"@, opt_str(c.net0), k);
        lemma_put_opt_dom(m7, "boot"@, opt_str(c.boot), k);
        lemma_put_opt_dom(m8, "agent"@, opt_bool(c.agent), k);
        lemma_put_opt_dom(m9, "start"@, opt_bool(c.start), k);
        lemma_put_opt_dom(m10, "pool"@, opt_str(c.pool), k);
        lemma_put_opt_dom(m11, "description"@, opt_str(c.description), k);
        lemma_put_opt_dom(m12, "tags"@, opt_str(c.tags), k);
    }
}

/// Every setting of a VM creation reaches the form under its Proxmox name:
/// `vmid` always, each optional setting exactly when it is present (numbers in
/// decimal, booleans as `1`/`0`), unless an `extra` entry of the same name
/// overrides it; every `extra` entry is sent as given, and nothing else is
/// sent.
pub proof fn lemma_qemu_params_carry_settings(c: QemuCreate)
    ensures
        !texts(c.extra@).dom().contains("vmid"@) ==> qemu_params(c).dom().contains("vmid"@) && qemu_params(c)["vmid"@] == decimal(c.vmid as nat),
        c.name matches Some(v) ==> (!texts(c.extra@).dom().contains("name"@) ==> qemu_params(c).dom().contains("name"@) && qemu_params(c)["name"@] == v@),
        c.name is None && !texts(c.extra@).dom().contains("name"@) ==> !qemu_params(c).dom().contains("name"@),
        c.cores matches Some(v) ==> (!texts(c.extra@).dom().contains("cores"@) ==> qemu_params(c).dom().contains("cores"@) && qemu_params(c)["cores"@] == decimal(v as nat)),
        c.cores is None && !texts(c.extra@).dom().contains("cores"@) ==> !qemu_params(c).dom().contains("cores"@),
        c.sockets matches Some(v) ==> (!texts(c.extra@).dom().contains("sockets"@) ==> qemu_params(c).dom().contains("sockets"@) && qemu_params(c)["sockets"@] == decimal(v as nat)),
        c.sockets is None && !texts(c.extra@).dom().contains("sockets"@) ==> !qemu_params(c).dom().contains("sockets"@),
        c.memory matches Some(v) ==> (!texts(c.extra@).dom().contains("memory"@) ==> qemu_params(c).dom().contains("memory"@) && qemu_params(c)["memory"@] == decimal(v as nat)),
        c.memory is None && !texts(c.extra@).dom().contains("memory"@) ==> !qemu_params(c).dom().contains("memory"@),
        c.ostype matches Some(v) ==> (!texts(c.extra@).dom().contains("ostype"@) ==> qemu_params(c).dom().contains("ostype"@) && qemu_params(c)["ostype"@] == v@),
        c.ostype is None && !texts(c.extra@).dom().contains("ostype"@) ==> !qemu_params(c).dom().contains("ostype"@),
        c.scsihw matches Some(v) ==> (!texts(c.extra@).dom().contains("scsihw"@) ==> qemu_params(c).dom().contains("scsihw"@) && qemu_params(c)["scsihw"@] == v@),
        c.scsihw is None && !texts(c.extra@).dom().contains("scsihw"@) ==> !qemu_params(c).dom().contains("scsihw"@),
        c.net0 matches Some(v) ==> (!texts(c.extra@).dom().contains("net0"@) ==> qemu_params(c).dom().contains("net0"@) && qemu_params(c)["net0"@] == v@),
        c.net0 is None && !texts(c.extra@).dom().contains("net0"@) ==> !qemu_params(c).dom().contains("net0"@),
        c.boot matches Some(v) ==> (!texts(c.extra@).dom().contains("boot"@) ==> qemu_params(c).dom().contains("boot"@) && qemu_params(c)["boot"@] == v@),
        c.boot is None && !texts(c.extra@).dom().contains("boot"@) ==> !qemu_params(c).dom().contains("boot"@),
        c.agent matches Some(v) ==> (!texts(c.extra@).dom().contains("agent"@) ==> qemu_params(c).dom().contains("agent"@) && qemu_params(c)["agent"@] == (if v { "1"@ } else { "0"@ })),
        c.agent is None && !texts(c.extra@).dom().contains("agent"@) ==> !qemu_params(c).dom().contains("agent"@),
        c.start matches Some(v) ==> (!texts(c.extra@).dom().contains("start"@) ==> qemu_params(c).dom().contains("start"@) && qemu_params(c)["start"@] == (if v { "1"@ } else { "0"@ })),
        c.start is None && !texts(c.extra@).dom().contains("start"@) ==> !qemu_params(c).dom().contains("start"@),
        c.pool matches Some(v) ==> (!texts(c.extra@).dom().contains("pool"@) ==> qemu_params(c).dom().contains("pool"@) && qemu_params(c)["pool"@] == v@),
        c.pool is None && !texts(c.extra@).dom().contains("pool"@) ==> !qemu_params(c).dom().contains("pool"@),
        c.description matches Some(v) ==> (!texts(c.extra@).dom().contains("description"@) ==> qemu_params(c).dom().contains("description"@) && qemu_params(c)["description"@] == v@),
        c.description is None && !texts(c.extra@).dom().contains("description"@) ==> !qemu_params(c).dom().contains("description"@),
        c.tags matches Some(v) ==> (!texts(c.extra@).dom().contains("tags"@) ==> qemu_params(c).dom().contains("tags"@) && qemu_params(c)["tags"@] == v@),
        c.tags is None && !texts(c.extra@).dom().contains("tags"@) ==> !qemu_params(c).dom().contains("tags"@),
        forall|k: Seq<char>| #[trigger] texts(c.extra@).dom().contains(k) ==> qemu_params(c).dom().contains(k) && qemu_params(c)[k] == texts(c.extra@)[k],
        forall|k: Seq<char>| #[trigger] qemu_params(c).dom().contains(k) ==> texts(c.extra@).dom().contains(k) || k == "vmid"@ || k == "name"@ || k == "cores"@ || k == "sockets"@ || k == "memory"@ || k == "ostype"@ || k == "scsihw"@ || k == "net0"@ || k == "boot"@ || k == "agent"@ || k == "start"@ || k == "pool"@ || k == "description"@ || k == "tags"@,
{
    lemma_qemu_param_vmid(c);
    lemma_qemu_param_name(c);
    lemma_qemu_param_cores(c);
    lemma_qemu_param_sockets(c);
    lemma_qemu_param_memory(c);
    lemma_qemu_param_ostype(c);
    lemma_qemu_param_scsihw(c);
    lemma_qemu_param_net0(c);
    lemma_qemu_param_boot(c);
    lemma_qemu_param_agent(c);
    lemma_qemu_param_start(c);
    lemma_qemu_param_pool(c);
    lemma_qemu_param_description(c);
    lemma_qemu_param_tags(c);
    lemma_qemu_param_extra(c);
}

} // verus!
