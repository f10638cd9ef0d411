//! LXC container management (`/nodes/{node}/lxc`).

use vstd::prelude::*;
use crate::proxmox::client::{node_path, spec_node_path};
use crate::proxmox::config_value::{field_text, field_u64, lookup_str, lookup_u64, ConfigValue};
use crate::proxmox::params::{
    lemma_put_opt_dom, lemma_put_opt_other, lemma_put_opt_same,
    insert_opt, insert_opt_bool, insert_opt_u64, opt_bool, opt_decimal, put_opt, widen, widen_u32,
};
use crate::string_map::{lemma_texts_insert, lemma_texts_union, texts, StringMap};
use crate::text::{concat2, decimal, opt_str, owned, u64_to_decimal};

verus! {

/// The flat `key=value` configuration of a container
/// (`GET /nodes/{node}/lxc/{vmid}/config`).
#[derive(Debug, Clone, PartialEq, Eq)]
pub struct LxcConfig {
    pub fields: StringMap<ConfigValue>,
}

impl LxcConfig {
    /// Read a field as a string, coercing numbers/bools to their text form.
    pub fn get_str(&self, key: &str) -> (r: Option<String>)
        ensures
            opt_str(r) == field_text(self.fields@, key@),
    {
        lookup_str(&self.fields, key)
    }

    /// Read a field as an unsigned integer (parsing numeric strings too).
    pub fn get_u64(&self, key: &str) -> (r: Option<u64>)
        ensures
            r == field_u64(self.fields@, key@),
    {
        lookup_u64(&self.fields, key)
    }

    /// Container hostname.
    pub fn hostname(&self) -> (r: Option<String>)
        ensures
            opt_str(r) == field_text(self.fields@, "hostname"@),
    {
        self.get_str("hostname")
    }

    /// Number of cores.
    pub fn cores(&self) -> (r: Option<u64>)
        ensures
            r == field_u64(self.fields@, "cores"@),
    {
        self.get_u64("cores")
    }

    /// Configured memory in MiB.
    pub fn memory(&self) -> (r: Option<u64>)
        ensures
            r == field_u64(self.fields@, "memory"@),
    {
        self.get_u64("memory")
    }

    /// Configured swap in MiB.
    pub fn swap(&self) -> (r: Option<u64>)
        ensures
            r == field_u64(self.fields@, "swap"@),
    {
        self.get_u64("swap")
    }

    /// SHA1 digest of the live config, for optimistic-concurrency updates:
    /// passed back as `digest` on an update, Proxmox rejects the write if the
    /// configuration changed meanwhile.
    pub fn digest(&self) -> (r: Option<String>)
        ensures
            opt_str(r) == field_text(self.fields@, "digest"@),
    {
        self.get_str("digest")
    }
}

/// Typed parameters for creating a container (`POST /nodes/{node}/lxc`).
#[derive(Debug, Clone, Default, PartialEq, Eq)]
pub struct LxcCreate {
    pub vmid: u32,
    /// Template volume, e.g. `local:vztmpl/debian-12-standard_12.7-1_amd64.tar.zst`.
    pub ostemplate: String,
    pub hostname: Option<String>,
    pub cores: Option<u32>,
    /// Memory in MiB.
    pub memory: Option<u64>,
    /// Swap in MiB.
    pub swap: Option<u64>,
    /// Root filesystem, e.g. `local-lvm:8`.
    pub rootfs: Option<String>,
    /// Primary NIC, e.g. `name=eth0,bridge=vmbr0,ip=dhcp`.
    pub net0: Option<String>,
    /// Default storage for the rootfs when `rootfs` is not given.
    pub storage: Option<String>,
    pub unprivileged: Option<bool>,
    /// Start the container right after creation.
    pub start: Option<bool>,
    /// Root password (the `password` parameter).
    pub password: Option<String>,
    /// Authorized SSH keys (the `ssh-public-keys` parameter).
    pub ssh_public_keys: Option<String>,
    pub pool: Option<String>,
    pub description: Option<String>,
    pub tags: Option<String>,
    /// Arbitrary additional `key=value` config (extra mounts, features, …).
    pub extra: StringMap<String>,
}

/// The form parameters of a container creation: `vmid` and `ostemplate`,
/// each optional setting that is present under its Proxmox name, then every
/// `extra` entry, which wins over a typed setting of the same name.
#[verifier::opaque]
pub open spec fn lxc_params(c: LxcCreate) -> Map<Seq<char>, Seq<char>> {
    let m = Map::<Seq<char>, Seq<char>>::empty().insert("vmid"@, decimal(c.vmid as nat)).insert(
        "ostemplate"@,
        c.ostemplate@,
    );
    let m = put_opt(m, "hostname"@, opt_str(c.hostname));
    let m = put_opt(m, "cores"@, opt_decimal(widen(c.cores)));
    let m = put_opt(m, "memory"@, opt_decimal(c.memory));
    let m = put_opt(m, "swap"@, opt_decimal(c.swap));
    let m = put_opt(m, "rootfs"@, opt_str(c.rootfs));
    let m = put_opt(m, "net0"@, opt_str(c.net0));
    let m = put_opt(m, "storage"@, opt_str(c.storage));
    let m = put_opt(m, "unprivileged"@, opt_bool(c.unprivileged));
    let m = put_opt(m, "start"@, opt_bool(c.start));
    let m = put_opt(m, "password"@, opt_str(c.password));
    let m = put_opt(m, "ssh-public-keys"@, opt_str(c.ssh_public_keys));
    let m = put_opt(m, "pool"@, opt_str(c.pool));
    let m = put_opt(m, "description"@, opt_str(c.description));
    let m = put_opt(m, "tags"@, opt_str(c.tags));
    m.union_prefer_right(texts(c.extra@))
}

impl LxcCreate {
    /// Flatten into the form parameters Proxmox expects.
    pub fn to_params(&self) -> (p: StringMap<String>)
        ensures
            texts(p@) == lxc_params(*self),
    {
        proof {
            reveal(lxc_params);
        }
        let mut p = StringMap::new();
        let vmid = u64_to_decimal(self.vmid as u64);
        proof {
            lemma_texts_insert(p@, "vmid"@, vmid);
            assert(texts(p@) =~= Map::empty());
        }
        p.insert(owned("vmid"), vmid);
        let template = self.ostemplate.clone();
        proof {
            lemma_texts_insert(p@, "ostemplate"@, template);
        }
        p.insert(owned("ostemplate"), template);
        insert_opt(&mut p, "hostname", self.hostname.as_ref());
        insert_opt_u64(&mut p, "cores", widen_u32(self.cores));
        insert_opt_u64(&mut p, "memory", self.memory);
        insert_opt_u64(&mut p, "swap", self.swap);
        insert_opt(&mut p, "rootfs", self.rootfs.as_ref());
        insert_opt(&mut p, "net0", self.net0.as_ref());
        insert_opt(&mut p, "storage", self.storage.as_ref());
        insert_opt_bool(&mut p, "unprivileged", self.unprivileged);
        insert_opt_bool(&mut p, "start", self.start);
        insert_opt(&mut p, "password", self.password.as_ref());
        insert_opt(&mut p, "ssh-public-keys", self.ssh_public_keys.as_ref());
        insert_opt(&mut p, "pool", self.pool.as_ref());
        insert_opt(&mut p, "description", self.description.as_ref());
        insert_opt(&mut p, "tags", self.tags.as_ref());
        proof {
            lemma_texts_union(p@, self.extra@);
        }
        p.extend_from(&self.extra);
        p
    }
}

/// `/nodes/{node}/lxc`: list and create containers.
pub fn lxc_collection_path(node: &str) -> (s: String)
    ensures
        s@ == spec_node_path(node@, "/lxc"@),
{
    node_path(node, "/lxc")
}

/// `/nodes/{node}/lxc/{vmid}`: one container.
pub fn lxc_path(node: &str, vmid: u32) -> (s: String)
    ensures
        s@ == spec_node_path(node@, "/lxc/"@ + decimal(vmid as nat)),
{
    let id = u64_to_decimal(vmid as u64);
    let rest = concat2("/lxc/", id.as_str());
    node_path(node, rest.as_str())
}

/// `/nodes/{node}/lxc/{vmid}/config`: a container's configuration.
pub fn lxc_config_path(node: &str, vmid: u32) -> (s: String)
    ensures
        s@ == spec_node_path(node@, "/lxc/"@ + decimal(vmid as nat) + "/config"@),
{
    let base = lxc_path(node, vmid);
    let s = concat2(base.as_str(), "/config");
    assert(s@ =~= spec_node_path(node@, "/lxc/"@ + decimal(vmid as nat) + "/config"@));
    s
}


/// The parameter names are distinct.
proof fn lemma_lxc_keys_distinct()
    ensures
        "vmid"@ != "ostemplate"@,
        "vmid"@ != "hostname"@,
        "vmid"@ != "cores"@,
        "vmid"@ != "memory"@,
        "vmid"@ != "swap"@,
        "vmid"@ != "rootfs"@,
        "vmid"@ != "net0"@,
        "vmid"@ != "storage"@,
        "vmid"@ != "unprivileged"@,
        "vmid"@ != "start"@,
        "vmid"@ != "password"@,
        "vmid"@ != "ssh-public-keys"@,
        "vmid"@ != "pool"@,
        "vmid"@ != "description"@,
        "vmid"@ != "tags"@,
        "ostemplate"@ != "hostname"@,
        "ostemplate"@ != "cores"@,
        "ostemplate"@ != "memory"@,
        "ostemplate"@ != "swap"@,
        "ostemplate"@ != "rootfs"@,
        "ostemplate"@ != "net0"@,
        "ostemplate"@ != "storage"@,
        "ostemplate"@ != "unprivileged"@,
        "ostemplate"@ != "start"@,
        "ostemplate"@ != "password"@,
        "ostemplate"@ != "ssh-public-keys"@,
        "ostemplate"@ != "pool"@,
        "ostemplate"@ != "description"@,
        "ostemplate"@ != "tags"@,
        "hostname"@ != "cores"@,
        "hostname"@ != "memory"@,
        "hostname"@ != "swap"@,
        "hostname"@ != "rootfs"@,
        "hostname"@ != "net0"@,
        "hostname"@ != "storage"@,
        "hostname"@ != "unprivileged"@,
        "hostname"@ != "start"@,
        "hostname"@ != "password"@,
        "hostname"@ != "ssh-public-keys"@,
        "hostname"@ != "pool"@,
        "hostname"@ != "description"@,
        "hostname"@ != "tags"@,
        "cores"@ != "memory"@,
        "cores"@ != "swap"@,
        "cores"@ != "rootfs"@,
        "cores"@ != "net0"@,
        "cores"@ != "storage"@,
        "cores"@ != "unprivileged"@,
        "cores"@ != "start"@,
        "cores"@ != "password"@,
        "cores"@ != "ssh-public-keys"@,
        "cores"@ != "pool"@,
        "cores"@ != "description"@,
        "cores"@ != "tags"@,
        "memory"@ != "swap"@,
        "memory"@ != "rootfs"@,
        "memory"@ != "net0"@,
        "memory"@ != "storage"@,
        "memory"@ != "unprivileged"@,
        "memory"@ != "start"@,
        "memory"@ != "password"@,
        "memory"@ != "ssh-public-keys"@,
        "memory"@ != "pool"@,
        "memory"@ != "description"@,
        "memory"@ != "tags"@,
        "swap"@ != "rootfs"@,
        "swap"@ != "net0"@,
        "swap"@ != "storage"@,
        "swap"@ != "unprivileged"@,
        "swap"@ != "start"@,
        "swap"@ != "password"@,
        "swap"@ != "ssh-public-keys"@,
        "swap"@ != "pool"@,
        "swap"@ != "description"@,
        "swap"@ != "tags"@,
        "rootfs"@ != "net0"@,
        "rootfs"@ != "storage"@,
        "rootfs"@ != "unprivileged"@,
        "rootfs"@ != "start"@,
        "rootfs"@ != "password"@,
        "rootfs"@ != "ssh-public-keys"@,
        "rootfs"@ != "pool"@,
        "rootfs"@ != "description"@,
        "rootfs"@ != "tags"@,
        "net0"@ != "storage"@,
        "net0"@ != "unprivileged"@,
        "net0"@ != "start"@,
        "net0"@ != "password"@,
        "net0"@ != "ssh-public-keys"@,
        "net0"@ != "pool"@,
        "net0"@ != "description"@,
        "net0"@ != "tags"@,
        "storage"@ != "unprivileged"@,
        "storage"@ != "start"@,
        "storage"@ != "password"@,
        "storage"@ != "ssh-public-keys"@,
        "storage"@ != "pool"@,
        "storage"@ != "description"@,
        "storage"@ != "tags"@,
        "unprivileged"@ != "start"@,
        "unprivileged"@ != "password"@,
        "unprivileged"@ != "ssh-public-keys"@,
        "unprivileged"@ != "pool"@,
        "unprivileged"@ != "description"@,
        "unprivileged"@ != "tags"@,
        "start"@ != "password"@,
        "start"@ != "ssh-public-keys"@,
        "start"@ != "pool"@,
        "start"@ != "description"@,
        "start"@ != "tags"@,
        "password"@ != "ssh-public-keys"@,
        "password"@ != "pool"@,
        "password"@ != "description"@,
        "password"@ != "tags"@,
        "ssh-public-keys"@ != "pool"@,
        "ssh-public-keys"@ != "description"@,
        "ssh-public-keys"@ != "tags"@,
        "pool"@ != "description"@,
        "pool"@ != "tags"@,
        "description"@ != "tags"@,
{
    reveal_strlit("vmid");
    assert("vmid"@.len() == 4);
    assert("vmid"@[0] == 'v');
    reveal_strlit("ostemplate");
    assert("ostemplate"@.len() == 10);
    reveal_strlit("hostname");
    assert("hostname"@.len() == 8);
    assert("hostname"@[0] == 'h');
    reveal_strlit("cores");
    assert("cores"@.len() == 5);
    assert("cores"@[0] == 'c');
    reveal_strlit("memory");
    assert("memory"@.len() == 6);
    assert("memory"@[0] == 'm');
    reveal_strlit("swap");
    assert("swap"@.len() == 4);
    assert("swap"@[0] == 's');
    reveal_strlit("rootfs");
    assert("rootfs"@.len() == 6);
    assert("rootfs"@[0] == 'r');
    reveal_strlit("net0");
    assert("net0"@.len() == 4);
    assert("net0"@[0] == 'n');
    reveal_strlit("storage");
    assert("storage"@.len() == 7);
    reveal_strlit("unprivileged");
    assert("unprivileged"@.len() == 12);
    reveal_strlit("start");
    assert("start"@.len() == 5);
    assert("start"@[0] == 's');
    reveal_strlit("password");
    assert("password"@.len() == 8);
    assert("password"@[0] == 'p');
    reveal_strlit("ssh-public-keys");
    assert("ssh-public-keys"@.len() == 15);
    reveal_strlit("pool");
    assert("pool"@.len() == 4);
    assert("pool"@[0] == 'p');
    reveal_strlit("description");
    assert("description"@.len() == 11);
    reveal_strlit("tags");
    assert("tags"@.len() == 4);
    assert("tags"@[0] == 't');
}

proof fn lemma_lxc_param_vmid(c: LxcCreate)
    ensures
        !texts(c.extra@).dom().contains("vmid"@) ==> lxc_params(c).dom().contains("vmid"@) && lxc_params(c)["vmid"@] == decimal(c.vmid as nat),
{
    lemma_lxc_keys_distinct();
    let m0 = Map::<Seq<char>, Seq<char>>::empty().insert("vmid"@, decimal(c.vmid as nat)).insert("ostemplate"@, c.ostemplate@);
    let m1 = put_opt(m0, "hostname"@, opt_str(c.hostname));
    let m2 = put_opt(m1, "cores"@, opt_decimal(widen(c.cores)));
    let m3 = put_opt(m2, "memory"@, opt_decimal(c.memory));
    let m4 = put_opt(m3, "swap"@, opt_decimal(c.swap));
    let m5 = put_opt(m4, "rootfs"@, opt_str(c.rootfs));
    let m6 = put_opt(m5, "net0"@, opt_str(c.net0));
    let m7 = put_opt(m6, "storage"@, opt_str(c.storage));
    let m8 = put_opt(m7, "unprivileged"@, opt_bool(c.unprivileged));
    let m9 = put_opt(m8, "start"@, opt_bool(c.start));
    let m10 = put_opt(m9, "password"@, opt_str(c.password));
    let m11 = put_opt(m10, "ssh-public-keys"@, opt_str(c.ssh_public_keys));
    let m12 = put_opt(m11, "pool"@, opt_str(c.pool));
    let m13 = put_opt(m12, "description"@, opt_str(c.description));
    let m14 = put_opt(m13, "tags"@, opt_str(c.tags));
    assert(lxc_params(c) == m14.union_prefer_right(texts(c.extra@))) by {
        reveal(lxc_params);
    }
    assert(m14.dom().contains("vmid"@) && m14["vmid"@] == decimal(c.vmid as nat)) by {
        lemma_put_opt_other(m0, "hostname"@, opt_str(c.hostname), "vmid"@);
        lemma_put_opt_other(m1, "cores"@, opt_decimal(widen(c.cores)), "vmid"@);
        lemma_put_opt_other(m2, "memory"@, opt_decimal(c.memory), "vmid"@);
        lemma_put_opt_other(m3, "swap"@, opt_decimal(c.swap), "vmid"@);
        lemma_put_opt_other(m4, "rootfs"@, opt_str(c.rootfs), "vmid"@);
        lemma_put_opt_other(m5, "net0"@, opt_str(c.net0), "vmid"@);
        lemma_put_opt_other(m6, "storage"@, opt_str(c.storage), "vmid"@);
        lemma_put_opt_other(m7, "unprivileged"@, opt_bool(c.unprivileged), "vmid"@);
        lemma_put_opt_other(m8, "start"@, opt_bool(c.start), "vmid"@);
        lemma_put_opt_other(m9, "password"@, opt_str(c.password), "vmid"@);
        lemma_put_opt_other(m10, "ssh-public-keys"@, opt_str(c.ssh_public_keys), "vmid"@);
        lemma_put_opt_other(m11, "pool"@, opt_str(c.pool), "vmid"@);
        lemma_put_opt_other(m12, "description"@, opt_str(c.description), "vmid"@);
        lemma_put_opt_other(m13, "tags"@, opt_str(c.tags), "vmid"@);
    }
}

proof fn lemma_lxc_param_ostemplate(c: LxcCreate)
    ensures
        !texts(c.extra@).dom().contains("ostemplate"@) ==> lxc_params(c).dom().contains("ostemplate"@) && lxc_params(c)["ostemplate"@] == c.ostemplate@,
{
    lemma_lxc_keys_distinct();
    let m0 = Map::<Seq<char>, Seq<char>>::empty().insert("vmid"@, decimal(c.vmid as nat)).insert("ostemplate"@, c.ostemplate@);
    let m1 = put_opt(m0, "hostname"@, opt_str(c.hostname));
    let m2 = put_opt(m1, "cores"@, opt_decimal(widen(c.cores)));
    let m3 = put_opt(m2, "memory"@, opt_decimal(c.memory));
    let m4 = put_opt(m3, "swap"@, opt_decimal(c.swap));
    let m5 = put_opt(m4, "rootfs"@, opt_str(c.rootfs));
    let m6 = put_opt(m5, "net0"@, opt_str(c.net0));
    let m7 = put_opt(m6, "storage"@, opt_str(c.storage));
    let m8 = put_opt(m7, "unprivileged"@, opt_bool(c.unprivileged));
    let m9 = put_opt(m8, "start"@, opt_bool(c.start));
    let m10 = put_opt(m9, "password"@, opt_str(c.password));
    let m11 = put_opt(m10, "ssh-public-keys"@, opt_str(c.ssh_public_keys));
    let m12 = put_opt(m11, "pool"@, opt_str(c.pool));
    let m13 = put_opt(m12, "description"@, opt_str(c.description));
    let m14 = put_opt(m13, "tags"@, opt_str(c.tags));
    assert(lxc_params(c) == m14.union_prefer_right(texts(c.extra@))) by {
        reveal(lxc_params);
    }
    assert(m14.dom().contains("ostemplate"@) && m14["ostemplate"@] == c.ostemplate@) by {
        lemma_put_opt_other(m0, "hostname"@, opt_str(c.hostname), "ostemplate"@);
        lemma_put_opt_other(m1, "cores"@, opt_decimal(widen(c.cores)), "ostemplate"@);
        lemma_put_opt_other(m2, "memory"@, opt_decimal(c.memory), "ostemplate"@);
        lemma_put_opt_other(m3, "swap"@, opt_decimal(c.swap), "ostemplate"@);
        lemma_put_opt_other(m4, "rootfs"@, opt_str(c.rootfs), "ostemplate"@);
        lemma_put_opt_other(m5, "net0"@, opt_str(c.net0), "ostemplate"@);
        lemma_put_opt_other(m6, "storage"@, opt_str(c.storage), "ostemplate"@);
        lemma_put_opt_other(m7, "unprivileged"@, opt_bool(c.unprivileged), "ostemplate"@);
        lemma_put_opt_other(m8, "start"@, opt_bool(c.start), "ostemplate"@);
        lemma_put_opt_other(m9, "password"@, opt_str(c.password), "ostemplate"@);
        lemma_put_opt_other(m10, "ssh-public-keys"@, opt_str(c.ssh_public_keys), "ostemplate"@);
        lemma_put_opt_other(m11, "pool"@, opt_str(c.pool), "ostemplate"@);
        lemma_put_opt_other(m12, "description"@, opt_str(c.description), "ostemplate"@);
        lemma_put_opt_other(m13, "tags"@, opt_str(c.tags), "ostemplate"@);
    }
}

proof fn lemma_lxc_param_hostname(c: LxcCreate)
    ensures
        c.hostname matches Some(v) ==> (!texts(c.extra@).dom().contains("hostname"@) ==> lxc_params(c).dom().contains("hostname"@) && lxc_params(c)["hostname"@] == v@),
        c.hostname is None && !texts(c.extra@).dom().contains("hostname"@) ==> !lxc_params(c).dom().contains("hostname"@),
{
    lemma_lxc_keys_distinct();
    let m0 = Map::<Seq<char>, Seq<char>>::empty().insert("vmid"@, decimal(c.vmid as nat)).insert("ostemplate"@, c.ostemplate@);
    let m1 = put_opt(m0, "hostname"@, opt_str(c.hostname));
    let m2 = put_opt(m1, "cores"@, opt_decimal(widen(c.cores)));
    let m3 = put_opt(m2, "memory"@, opt_decimal(c.memory));
    let m4 = put_opt(m3, "swap"@, opt_decimal(c.swap));
    let m5 = put_opt(m4, "rootfs"@, opt_str(c.rootfs));
    let m6 = put_opt(m5, "net0"@, opt_str(c.net0));
    let m7 = put_opt(m6, "storage"@, opt_str(c.storage));
    let m8 = put_opt(m7, "unprivileged"@, opt_bool(c.unprivileged));
    let m9 = put_opt(m8, "start"@, opt_bool(c.start));
    let m10 = put_opt(m9, "password"@, opt_str(c.password));
    let m11 = put_opt(m10, "ssh-public-keys"@, opt_str(c.ssh_public_keys));
    let m12 = put_opt(m11, "pool"@, opt_str(c.pool));
    let m13 = put_opt(m12, "description"@, opt_str(c.description));
    let m14 = put_opt(m13, "tags"@, opt_str(c.tags));
    assert(lxc_params(c) == m14.union_prefer_right(texts(c.extra@))) by {
        reveal(lxc_params);
    }
    lemma_put_opt_same(m0, "hostname"@, opt_str(c.hostname));
    lemma_put_opt_other(m1, "cores"@, opt_decimal(widen(c.cores)), "hostname"@);
    lemma_put_opt_other(m2, "memory"@, opt_decimal(c.memory), "hostname"@);
    lemma_put_opt_other(m3, "swap"@, opt_decimal(c.swap), "hostname"@);
    lemma_put_opt_other(m4, "rootfs"@, opt_str(c.rootfs), "hostname"@);
    lemma_put_opt_other(m5, "net0"@, opt_str(c.net0), "hostname"@);
    lemma_put_opt_other(m6, "storage"@, opt_str(c.storage), "hostname"@);
    lemma_put_opt_other(m7, "unprivileged"@, opt_bool(c.unprivileged), "hostname"@);
    lemma_put_opt_other(m8, "start"@, opt_bool(c.start), "hostname"@);
    lemma_put_opt_other(m9, "password"@, opt_str(c.password), "hostname"@);
    lemma_put_opt_other(m10, "ssh-public-keys"@, opt_str(c.ssh_public_keys), "hostname"@);
    lemma_put_opt_other(m11, "pool"@, opt_str(c.pool), "hostname"@);
    lemma_put_opt_other(m12, "description"@, opt_str(c.description), "hostname"@);
    lemma_put_opt_other(m13, "tags"@, opt_str(c.tags), "hostname"@);
}

proof fn lemma_lxc_param_cores(c: LxcCreate)
    ensures
        c.cores matches Some(v) ==> (!texts(c.extra@).dom().contains("cores"@) ==> lxc_params(c).dom().contains("cores"@) && lxc_params(c)["cores"@] == decimal(v as nat)),
        c.cores is None && !texts(c.extra@).dom().contains("cores"@) ==> !lxc_params(c).dom().contains("cores"@),
{
    lemma_lxc_keys_distinct();
    let m0 = Map::<Seq<char>, Seq<char>>::empty().insert("vmid"@, decimal(c.vmid as nat)).insert("ostemplate"@, c.ostemplate@);
    let m1 = put_opt(m0, "hostname"@, opt_str(c.hostname));
    let m2 = put_opt(m1, "cores"@, opt_decimal(widen(c.cores)));
    let m3 = put_opt(m2, "memory"@, opt_decimal(c.memory));
    let m4 = put_opt(m3, "swap"@, opt_decimal(c.swap));
    let m5 = put_opt(m4, "rootfs"@, opt_str(c.rootfs));
    let m6 = put_opt(m5, "net0"@, opt_str(c.net0));
    let m7 = put_opt(m6, "storage"@, opt_str(c.storage));
    let m8 = put_opt(m7, "unprivileged"@, opt_bool(c.unprivileged));
    let m9 = put_opt(m8, "start"@, opt_bool(c.start));
    let m10 = put_opt(m9, "password"@, opt_str(c.password));
    let m11 = put_opt(m10, "ssh-public-keys"@, opt_str(c.ssh_public_keys));
    let m12 = put_opt(m11, "pool"@, opt_str(c.pool));
    let m13 = put_opt(m12, "description"@, opt_str(c.description));
    let m14 = put_opt(m13, "tags"@, opt_str(c.tags));
    assert(lxc_params(c) == m14.union_prefer_right(texts(c.extra@))) by {
        reveal(lxc_params);
    }
    lemma_put_opt_same(m1, "cores"@, opt_decimal(widen(c.cores)));
    lemma_put_opt_other(m0, "hostname"@, opt_str(c.hostname), "cores"@);
    lemma_put_opt_other(m2, "memory"@, opt_decimal(c.memory), "cores"@);
    lemma_put_opt_other(m3, "swap"@, opt_decimal(c.swap), "cores"@);
    lemma_put_opt_other(m4, "rootfs"@, opt_str(c.rootfs), "cores"@);
    lemma_put_opt_other(m5, "net0"@, opt_str(c.net0), "cores"@);
    lemma_put_opt_other(m6, "storage"@, opt_str(c.storage), "cores"@);
    lemma_put_opt_other(m7, "unprivileged"@, opt_bool(c.unprivileged), "cores"@);
    lemma_put_opt_other(m8, "start"@, opt_bool(c.start), "cores"@);
    lemma_put_opt_other(m9, "password"@, opt_str(c.password), "cores"@);
    lemma_put_opt_other(m10, "ssh-public-keys"@, opt_str(c.ssh_public_keys), "cores"@);
    lemma_put_opt_other(m11, "pool"@, opt_str(c.pool), "cores"@);
    lemma_put_opt_other(m12, "description"@, opt_str(c.description), "cores"@);
    lemma_put_opt_other(m13, "tags"@, opt_str(c.tags), "cores"@);
}

proof fn lemma_lxc_param_memory(c: LxcCreate)
    ensures
        c.memory matches Some(v) ==> (!texts(c.extra@).dom().contains("memory"@) ==> lxc_params(c).dom().contains("memory"@) && lxc_params(c)["memory"@] == decimal(v as nat)),
        c.memory is None && !texts(c.extra@).dom().contains("memory"@) ==> !lxc_params(c).dom().contains("memory"@),
{
    lemma_lxc_keys_distinct();
    let m0 = Map::<Seq<char>, Seq<char>>::empty().insert("vmid"@, decimal(c.vmid as nat)).insert("ostemplate"@, c.ostemplate@);
    let m1 = put_opt(m0, "hostname"@, opt_str(c.hostname));
    let m2 = put_opt(m1, "cores"@, opt_decimal(widen(c.cores)));
    let m3 = put_opt(m2, "memory"@, opt_decimal(c.memory));
    let m4 = put_opt(m3, "swap"@, opt_decimal(c.swap));
    let m5 = put_opt(m4, "rootfs"@, opt_str(c.rootfs));
    let m6 = put_opt(m5, "net0"@, opt_str(c.net0));
    let m7 = put_opt(m6, "storage"@, opt_str(c.storage));
    let m8 = put_opt(m7, "unprivileged"@, opt_bool(c.unprivileged));
    let m9 = put_opt(m8, "start"@, opt_bool(c.start));
    let m10 = put_opt(m9, "password"@, opt_str(c.password));
    let m11 = put_opt(m10, "ssh-public-keys"@, opt_str(c.ssh_public_keys));
    let m12 = put_opt(m11, "pool"@, opt_str(c.pool));
    let m13 = put_opt(m12, "description"@, opt_str(c.description));
    let m14 = put_opt(m13, "tags"@, opt_str(c.tags));
    assert(lxc_params(c) == m14.union_prefer_right(texts(c.extra@))) by {
        reveal(lxc_params);
    }
    lemma_put_opt_same(m2, "memory"@, opt_decimal(c.memory));
    lemma_put_opt_other(m0, "hostname"@, opt_str(c.hostname), "memory"@);
    lemma_put_opt_other(m1, "cores"@, opt_decimal(widen(c.cores)), "memory"@);
    lemma_put_opt_other(m3, "swap"@, opt_decimal(c.swap), "memory"@);
    lemma_put_opt_other(m4, "rootfs"@, opt_str(c.rootfs), "memory"@);
    lemma_put_opt_other(m5, "net0"@, opt_str(c.net0), "memory"@);
    lemma_put_opt_other(m6, "storage"@, opt_str(c.storage), "memory"@);
    lemma_put_opt_other(m7, "unprivileged"@, opt_bool(c.unprivileged), "memory"@);
    lemma_put_opt_other(m8, "start"@, opt_bool(c.start), "memory"@);
    lemma_put_opt_other(m9, "password"@, opt_str(c.password), "memory"@);
    lemma_put_opt_other(m10, "ssh-public-keys"@, opt_str(c.ssh_public_keys), "memory"@);
    lemma_put_opt_other(m11, "pool"@, opt_str(c.pool), "memory"@);
    lemma_put_opt_other(m12, "description"@, opt_str(c.description), "memory"@);
    lemma_put_opt_other(m13, "tags"@, opt_str(c.tags), "memory"@);
}

proof fn lemma_lxc_param_swap(c: LxcCreate)
    ensures
        c.swap matches Some(v) ==> (!texts(c.extra@).dom().contains("swap"@) ==> lxc_params(c).dom().contains("swap"@) && lxc_params(c)["swap"@] == decimal(v as nat)),
        c.swap is None && !texts(c.extra@).dom().contains("swap"@) ==> !lxc_params(c).dom().contains("swap"@),
{
    lemma_lxc_keys_distinct();
    let m0 = Map::<Seq<char>, Seq<char>>::empty().insert("vmid"@, decimal(c.vmid as nat)).insert("ostemplate"@, c.ostemplate@);
    let m1 = put_opt(m0, "hostname"@, opt_str(c.hostname));
    let m2 = put_opt(m1, "cores"@, opt_decimal(widen(c.cores)));
    let m3 = put_opt(m2, "memory"@, opt_decimal(c.memory));
    let m4 = put_opt(m3, "swap"@, opt_decimal(c.swap));
    let m5 = put_opt(m4, "rootfs"@, opt_str(c.rootfs));
    let m6 = put_opt(m5, "net0"@, opt_str(c.net0));
    let m7 = put_opt(m6, "storage"@, opt_str(c.storage));
    let m8 = put_opt(m7, "unprivileged"@, opt_bool(c.unprivileged));
    let m9 = put_opt(m8, "start"@, opt_bool(c.start));
    let m10 = put_opt(m9, "password"@, opt_str(c.password));
    let m11 = put_opt(m10, "ssh-public-keys"@, opt_str(c.ssh_public_keys));
    let m12 = put_opt(m11, "pool"@, opt_str(c.pool));
    let m13 = put_opt(m12, "description"@, opt_str(c.description));
    let m14 = put_opt(m13, "tags"@, opt_str(c.tags));
    assert(lxc_params(c) == m14.union_prefer_right(texts(c.extra@))) by {
        reveal(lxc_params);
    }
    lemma_put_opt_same(m3, "swap"@, opt_decimal(c.swap));
    lemma_put_opt_other(m0, "hostname"@, opt_str(c.hostname), "swap"@);
    lemma_put_opt_other(m1, "cores"@, opt_decimal(widen(c.cores)), "swap"@);
    lemma_put_opt_other(m2, "memory"@, opt_decimal(c.memory), "swap"@);
    lemma_put_opt_other(m4, "rootfs"@, opt_str(c.rootfs), "swap"@);
    lemma_put_opt_other(m5, "net0"@, opt_str(c.net0), "swap"@);
    lemma_put_opt_other(m6, "storage"@, opt_str(c.storage), "swap"@);
    lemma_put_opt_other(m7, "unprivileged"@, opt_bool(c.unprivileged), "swap"@);
    lemma_put_opt_other(m8, "start"@, opt_bool(c.start), "swap"@);
    lemma_put_opt_other(m9, "password"@, opt_str(c.password), "swap"@);
    lemma_put_opt_other(m10, "ssh-public-keys"@, opt_str(c.ssh_public_keys), "swap"@);
    lemma_put_opt_other(m11, "pool"@, opt_str(c.pool), "swap"@);
    lemma_put_opt_other(m12, "description"@, opt_str(c.description), "swap"@);
    lemma_put_opt_other(m13, "tags"@, opt_str(c.tags), "swap"@);
}

proof fn lemma_lxc_param_rootfs(c: LxcCreate)
    ensures
        c.rootfs matches Some(v) ==> (!texts(c.extra@).dom().contains("rootfs"@) ==> lxc_params(c).dom().contains("rootfs"@) && lxc_params(c)["rootfs"@] == v@),
        c.rootfs is None && !texts(c.extra@).dom().contains("rootfs"@) ==> !lxc_params(c).dom().contains("rootfs"@),
{
    lemma_lxc_keys_distinct();
    let m0 = Map::<Seq<char>, Seq<char>>::empty().insert("vmid"@, decimal(c.vmid as nat)).insert("ostemplate"@, c.ostemplate@);
    let m1 = put_opt(m0, "hostname"@, opt_str(c.hostname));
    let m2 = put_opt(m1, "cores"@, opt_decimal(widen(c.cores)));
    let m3 = put_opt(m2, "memory"@, opt_decimal(c.memory));
    let m4 = put_opt(m3, "swap"@, opt_decimal(c.swap));
    let m5 = put_opt(m4, "rootfs"@, opt_str(c.rootfs));
    let m6 = put_opt(m5, "net0"@, opt_str(c.net0));
    let m7 = put_opt(m6, "storage"@, opt_str(c.storage));
    let m8 = put_opt(m7, "unprivileged"@, opt_bool(c.unprivileged));
    let m9 = put_opt(m8, "start"@, opt_bool(c.start));
    let m10 = put_opt(m9, "password"@, opt_str(c.password));
    let m11 = put_opt(m10, "ssh-public-keys"@, opt_str(c.ssh_public_keys));
    let m12 = put_opt(m11, "pool"@, opt_str(c.pool));
    let m13 = put_opt(m12, "description"@, opt_str(c.description));
    let m14 = put_opt(m13, "tags"@, opt_str(c.tags));
    assert(lxc_params(c) == m14.union_prefer_right(texts(c.extra@))) by {
        reveal(lxc_params);
    }
    lemma_put_opt_same(m4, "rootfs"@, opt_str(c.rootfs));
    lemma_put_opt_other(m0, "hostname"@, opt_str(c.hostname), "rootfs"@);
    lemma_put_opt_other(m1, "cores"@, opt_decimal(widen(c.cores)), "rootfs"@);
    lemma_put_opt_other(m2, "memory"@, opt_decimal(c.memory), "rootfs"@);
    lemma_put_opt_other(m3, "swap"@, opt_decimal(c.swap), "rootfs"@);
    lemma_put_opt_other(m5, "net0"@, opt_str(c.net0), "rootfs"@);
    lemma_put_opt_other(m6, "storage"@, opt_str(c.storage), "rootfs"@);
    lemma_put_opt_other(m7, "unprivileged"@, opt_bool(c.unprivileged), "rootfs"@);
    lemma_put_opt_other(m8, "start"@, opt_bool(c.start), "rootfs"@);
    lemma_put_opt_other(m9, "password"@, opt_str(c.password), "rootfs"@);
    lemma_put_opt_other(m10, "ssh-public-keys"@, opt_str(c.ssh_public_keys), "rootfs"@);
    lemma_put_opt_other(m11, "pool"@, opt_str(c.pool), "rootfs"@);
    lemma_put_opt_other(m12, "description"@, opt_str(c.description), "rootfs"@);
    lemma_put_opt_other(m13, "tags"@, opt_str(c.tags), "rootfs"@);
}

proof fn lemma_lxc_param_net0(c: LxcCreate)
    ensures
        c.net0 matches Some(v) ==> (!texts(c.extra@).dom().contains("net0"@) ==> lxc_params(c).dom().contains("net0"@) && lxc_params(c)["net0"@] == v@),
        c.net0 is None && !texts(c.extra@).dom().contains("net0"@) ==> !lxc_params(c).dom().contains("net0"@),
{
    lemma_lxc_keys_distinct();
    let m0 = Map::<Seq<char>, Seq<char>>::empty().insert("vmid"@, decimal(c.vmid as nat)).insert("ostemplate"@, c.ostemplate@);
    let m1 = put_opt(m0, "hostname"@, opt_str(c.hostname));
    let m2 = put_opt(m1, "cores"@, opt_decimal(widen(c.cores)));
    let m3 = put_opt(m2, "memory"@, opt_decimal(c.memory));
    let m4 = put_opt(m3, "swap"@, opt_decimal(c.swap));
    let m5 = put_opt(m4, "rootfs"@, opt_str(c.rootfs));
    let m6 = put_opt(m5, "net0"@, opt_str(c.net0));
    let m7 = put_opt(m6, "storage"@, opt_str(c.storage));
    let m8 = put_opt(m7, "unprivileged"@, opt_bool(c.unprivileged));
    let m9 = put_opt(m8, "start"@, opt_bool(c.start));
    let m10 = put_opt(m9, "password"@, opt_str(c.password));
    let m11 = put_opt(m10, "ssh-public-keys"@, opt_str(c.ssh_public_keys));
    let m12 = put_opt(m11, "pool"@, opt_str(c.pool));
    let m13 = put_opt(m12, "description"@, opt_str(c.description));
    let m14 = put_opt(m13, "tags"@, opt_str(c.tags));
    assert(lxc_params(c) == m14.union_prefer_right(texts(c.extra@))) by {
        reveal(lxc_params);
    }
    lemma_put_opt_same(m5, "net0"@, opt_str(c.net0));
    lemma_put_opt_other(m0, "hostname"@, opt_str(c.hostname), "net0"@);
    lemma_put_opt_other(m1, "cores"@, opt_decimal(widen(c.cores)), "net0"@);
    lemma_put_opt_other(m2, "memory"@, opt_decimal(c.memory), "net0"@);
    lemma_put_opt_other(m3, "swap"@, opt_decimal(c.swap), "net0"@);
    lemma_put_opt_other(m4, "rootfs"@, opt_str(c.rootfs), "net0"@);
    lemma_put_opt_other(m6, "storage"@, opt_str(c.storage), "net0"@);
    lemma_put_opt_other(m7, "unprivileged"@, opt_bool(c.unprivileged), "net0"@);
    lemma_put_opt_other(m8, "start"@, opt_bool(c.start), "net0"@);
    lemma_put_opt_other(m9, "password"@, opt_str(c.password), "net0"@);
    lemma_put_opt_other(m10, "ssh-public-keys"@, opt_str(c.ssh_public_keys), "net0"@);
    lemma_put_opt_other(m11, "pool"@, opt_str(c.pool), "net0"@);
    lemma_put_opt_other(m12, "description"@, opt_str(c.description), "net0"@);
    lemma_put_opt_other(m13, "tags"@, opt_str(c.tags), "net0"@);
}

proof fn lemma_lxc_param_storage(c: LxcCreate)
    ensures
        c.storage matches Some(v) ==> (!texts(c.extra@).dom().contains("storage"@) ==> lxc_params(c).dom().contains("storage"@) && lxc_params(c)["storage"@] == v@),
        c.storage is None && !texts(c.extra@).dom().contains("storage"@) ==> !lxc_params(c).dom().contains("storage"@),
{
    lemma_lxc_keys_distinct();
    let m0 = Map::<Seq<char>, Seq<char>>::empty().insert("vmid"@, decimal(c.vmid as nat)).insert("ostemplate"@, c.ostemplate@);
    let m1 = put_opt(m0, "hostname"@, opt_str(c.hostname));
    let m2 = put_opt(m1, "cores"@, opt_decimal(widen(c.cores)));
    let m3 = put_opt(m2, "memory"@, opt_decimal(c.memory));
    let m4 = put_opt(m3, "swap"@, opt_decimal(c.swap));
    let m5 = put_opt(m4, "rootfs"@, opt_str(c.rootfs));
    let m6 = put_opt(m5, "net0"@, opt_str(c.net0));
    let m7 = put_opt(m6, "storage"@, opt_str(c.storage));
    let m8 = put_opt(m7, "unprivileged"@, opt_bool(c.unprivileged));
    let m9 = put_opt(m8, "start"@, opt_bool(c.start));
    let m10 = put_opt(m9, "password"@, opt_str(c.password));
    let m11 = put_opt(m10, "ssh-public-keys"@, opt_str(c.ssh_public_keys));
    let m12 = put_opt(m11, "pool"@, opt_str(c.pool));
    let m13 = put_opt(m12, "description"@, opt_str(c.description));
    let m14 = put_opt(m13, "tags"@, opt_str(c.tags));
    assert(lxc_params(c) == m14.union_prefer_right(texts(c.extra@))) by {
        reveal(lxc_params);
    }
    lemma_put_opt_same(m6, "storage"@, opt_str(c.storage));
    lemma_put_opt_other(m0, "hostname"@, opt_str(c.hostname), "storage"@);
    lemma_put_opt_other(m1, "cores"@, opt_decimal(widen(c.cores)), "storage"@);
    lemma_put_opt_other(m2, "memory"@, opt_decimal(c.memory), "storage"@);
    lemma_put_opt_other(m3, "swap"@, opt_decimal(c.swap), "storage"@);
    lemma_put_opt_other(m4, "rootfs"@, opt_str(c.rootfs), "storage"@);
    lemma_put_opt_other(m5, "net0"@, opt_str(c.net0), "storage"@);
    lemma_put_opt_other(m7, "unprivileged"@, opt_bool(c.unprivileged), "storage"@);
    lemma_put_opt_other(m8, "start"@, opt_bool(c.start), "storage"@);
    lemma_put_opt_other(m9, "password"@, opt_str(c.password), "storage"@);
    lemma_put_opt_other(m10, "ssh-public-keys"@, opt_str(c.ssh_public_keys), "storage"@);
    lemma_put_opt_other(m11, "pool"@, opt_str(c.pool), "storage"@);
    lemma_put_opt_other(m12, "description"@, opt_str(c.description), "storage"@);
    lemma_put_opt_other(m13, "tags"@, opt_str(c.tags), "storage"@);
}

proof fn lemma_lxc_param_unprivileged(c: LxcCreate)
    ensures
        c.unprivileged matches Some(v) ==> (!texts(c.extra@).dom().contains("unprivileged"@) ==> lxc_params(c).dom().contains("unprivileged"@) && lxc_params(c)["unprivileged"@] == (if v { "1"@ } else { "0"@ })),
        c.unprivileged is None && !texts(c.extra@).dom().contains("unprivileged"@) ==> !lxc_params(c).dom().contains("unprivileged"@),
{
    lemma_lxc_keys_distinct();
    let m0 = Map::<Seq<char>, Seq<char>>::empty().insert("vmid"@, decimal(c.vmid as nat)).insert("ostemplate"@, c.ostemplate@);
    let m1 = put_opt(m0, "hostname"@, opt_str(c.hostname));
    let m2 = put_opt(m1, "cores"@, opt_decimal(widen(c.cores)));
    let m3 = put_opt(m2, "memory"@, opt_decimal(c.memory));
    let m4 = put_opt(m3, "swap"@, opt_decimal(c.swap));
    let m5 = put_opt(m4, "rootfs"@, opt_str(c.rootfs));
    let m6 = put_opt(m5, "net0"@, opt_str(c.net0));
    let m7 = put_opt(m6, "storage"@, opt_str(c.storage));
    let m8 = put_opt(m7, "unprivileged"@, opt_bool(c.unprivileged));
    let m9 = put_opt(m8, "start"@, opt_bool(c.start));
    let m10 = put_opt(m9, "password"@, opt_str(c.password));
    let m11 = put_opt(m10, "ssh-public-keys"@, opt_str(c.ssh_public_keys));
    let m12 = put_opt(m11, "pool"@, opt_str(c.pool));
    let m13 = put_opt(m12, "description"@, opt_str(c.description));
    let m14 = put_opt(m13, "tags"@, opt_str(c.tags));
    assert(lxc_params(c) == m14.union_prefer_right(texts(c.extra@))) by {
        reveal(lxc_params);
    }
    lemma_put_opt_same(m7, "unprivileged"@, opt_bool(c.unprivileged));
    lemma_put_opt_other(m0, "hostname"@, opt_str(c.hostname), "unprivileged"@);
    lemma_put_opt_other(m1, "cores"@, opt_decimal(widen(c.cores)), "unprivileged"@);
    lemma_put_opt_other(m2, "memory"@, opt_decimal(c.memory), "unprivileged"@);
    lemma_put_opt_other(m3, "swap"@, opt_decimal(c.swap), "unprivileged"@);
    lemma_put_opt_other(m4, "rootfs"@, opt_str(c.rootfs), "unprivileged"@);
    lemma_put_opt_other(m5, "net0"@, opt_str(c.net0), "unprivileged"@);
    lemma_put_opt_other(m6, "storage"@, opt_str(c.storage), "unprivileged"@);
    lemma_put_opt_other(m8, "start"@, opt_bool(c.start), "unprivileged"@);
    lemma_put_opt_other(m9, "password"@, opt_str(c.password), "unprivileged"@);
    lemma_put_opt_other(m10, "ssh-public-keys"@, opt_str(c.ssh_public_keys), "unprivileged"@);
    lemma_put_opt_other(m11, "pool"@, opt_str(c.pool), "unprivileged"@);
    lemma_put_opt_other(m12, "description"@, opt_str(c.description), "unprivileged"@);
    lemma_put_opt_other(m13, "tags"@, opt_str(c.tags), "unprivileged"@);
}

proof fn lemma_lxc_param_start(c: LxcCreate)
    ensures
        c.start matches Some(v) ==> (!texts(c.extra@).dom().contains("start"@) ==> lxc_params(c).dom().contains("start"@) && lxc_params(c)["start"@] == (if v { "1"@ } else { "0"@ })),
        c.start is None && !texts(c.extra@).dom().contains("start"@) ==> !lxc_params(c).dom().contains("start"@),
{
    lemma_lxc_keys_distinct();
    let m0 = Map::<Seq<char>, Seq<char>>::empty().insert("vmid"@, decimal(c.vmid as nat)).insert("ostemplate"@, c.ostemplate@);
    let m1 = put_opt(m0, "hostname"@, opt_str(c.hostname));
    let m2 = put_opt(m1, "cores"@, opt_decimal(widen(c.cores)));
    let m3 = put_opt(m2, "memory"@, opt_decimal(c.memory));
    let m4 = put_opt(m3, "swap"@, opt_decimal(c.swap));
    let m5 = put_opt(m4, "rootfs"@, opt_str(c.rootfs));
    let m6 = put_opt(m5, "net0"@, opt_str(c.net0));
    let m7 = put_opt(m6, "storage"@, opt_str(c.storage));
    let m8 = put_opt(m7, "unprivileged"@, opt_bool(c.unprivileged));
    let m9 = put_opt(m8, "start"@, opt_bool(c.start));
    let m10 = put_opt(m9, "password"@, opt_str(c.password));
    let m11 = put_opt(m10, "ssh-public-keys"@, opt_str(c.ssh_public_keys));
    let m12 = put_opt(m11, "pool"@, opt_str(c.pool));
    let m13 = put_opt(m12, "description"@, opt_str(c.description));
    let m14 = put_opt(m13, "tags"@, opt_str(c.tags));
    assert(lxc_params(c) == m14.union_prefer_right(texts(c.extra@))) by {
        reveal(lxc_params);
    }
    lemma_put_opt_same(m8, "start"@, opt_bool(c.start));
    lemma_put_opt_other(m0, "hostname"@, opt_str(c.hostname), "start"@);
    lemma_put_opt_other(m1, "cores"@, opt_decimal(widen(c.cores)), "start"@);
    lemma_put_opt_other(m2, "memory"@, opt_decimal(c.memory), "start"@);
    lemma_put_opt_other(m3, "swap"@, opt_decimal(c.swap), "start"@);
    lemma_put_opt_other(m4, "rootfs"@, opt_str(c.rootfs), "start"@);
    lemma_put_opt_other(m5, "net0"@, opt_str(c.net0), "start"@);
    lemma_put_opt_other(m6, "storage"@, opt_str(c.storage), "start"@);
    lemma_put_opt_other(m7, "unprivileged"@, opt_bool(c.unprivileged), "start"@);
    lemma_put_opt_other(m9, "password"@, opt_str(c.password), "start"@);
    lemma_put_opt_other(m10, "ssh-public-keys"@, opt_str(c.ssh_public_keys), "start"@);
    lemma_put_opt_other(m11, "pool"@, opt_str(c.pool), "start"@);
    lemma_put_opt_other(m12, "description"@, opt_str(c.description), "start"@);
    lemma_put_opt_other(m13, "tags"@, opt_str(c.tags), "start"@);
}

proof fn lemma_lxc_param_password(c: LxcCreate)
    ensures
        c.password matches Some(v) ==> (!texts(c.extra@).dom().contains("password"@) ==> lxc_params(c).dom().contains("password"@) && lxc_params(c)["password"@] == v@),
        c.password is None && !texts(c.extra@).dom().contains("password"@) ==> !lxc_params(c).dom().contains("password"@),
{
    lemma_lxc_keys_distinct();
    let m0 = Map::<Seq<char>, Seq<char>>::empty().insert("vmid"@, decimal(c.vmid as nat)).insert("ostemplate"@, c.ostemplate@);
    let m1 = put_opt(m0, "hostname"@, opt_str(c.hostname));
    let m2 = put_opt(m1, "cores"@, opt_decimal(widen(c.cores)));
    let m3 = put_opt(m2, "memory"@, opt_decimal(c.memory));
    let m4 = put_opt(m3, "swap"@, opt_decimal(c.swap));
    let m5 = put_opt(m4, "rootfs"@, opt_str(c.rootfs));
    let m6 = put_opt(m5, "net0"@, opt_str(c.net0));
    let m7 = put_opt(m6, "storage"@, opt_str(c.storage));
    let m8 = put_opt(m7, "unprivileged"@, opt_bool(c.unprivileged));
    let m9 = put_opt(m8, "start"@, opt_bool(c.start));
    let m10 = put_opt(m9, "password"@, opt_str(c.password));
    let m11 = put_opt(m10, "ssh-public-keys"@, opt_str(c.ssh_public_keys));
    let m12 = put_opt(m11, "pool"@, opt_str(c.pool));
    let m13 = put_opt(m12, "description"@, opt_str(c.description));
    let m14 = put_opt(m13, "tags"@, opt_str(c.tags));
    assert(lxc_params(c) == m14.union_prefer_right(texts(c.extra@))) by {
        reveal(lxc_params);
    }
    lemma_put_opt_same(m9, "password"@, opt_str(c.password));
    lemma_put_opt_other(m0, "hostname"@, opt_str(c.hostname), "password"@);
    lemma_put_opt_other(m1, "cores"@, opt_decimal(widen(c.cores)), "password"@);
    lemma_put_opt_other(m2, "memory"@, opt_decimal(c.memory), "password"@);
    lemma_put_opt_other(m3, "swap"@, opt_decimal(c.swap), "password"@);
    lemma_put_opt_other(m4, "rootfs"@, opt_str(c.rootfs), "password"@);
    lemma_put_opt_other(m5, "net0"@, opt_str(c.net0), "password"@);
    lemma_put_opt_other(m6, "storage"@, opt_str(c.storage), "password"@);
    lemma_put_opt_other(m7, "unprivileged"@, opt_bool(c.unprivileged), "password"@);
    lemma_put_opt_other(m8, "start"@, opt_bool(c.start), "password"@);
    lemma_put_opt_other(m10, "ssh-public-keys"@, opt_str(c.ssh_public_keys), "password"@);
    lemma_put_opt_other(m11, "pool"@, opt_str(c.pool), "password"@);
    lemma_put_opt_other(m12, "description"@, opt_str(c.description), "password"@);
    lemma_put_opt_other(m13, "tags"@, opt_str(c.tags), "password"@);
}

proof fn lemma_lxc_param_ssh_public_keys(c: LxcCreate)
    ensures
        c.ssh_public_keys matches Some(v) ==> (!texts(c.extra@).dom().contains("ssh-public-keys"@) ==> lxc_params(c).dom().contains("ssh-public-keys"@) && lxc_params(c)["ssh-public-keys"@] == v@),
        c.ssh_public_keys is None && !texts(c.extra@).dom().contains("ssh-public-keys"@) ==> !lxc_params(c).dom().contains("ssh-public-keys"@),
{
    lemma_lxc_keys_distinct();
    let m0 = Map::<Seq<char>, Seq<char>>::empty().insert("vmid"@, decimal(c.vmid as nat)).insert("ostemplate"@, c.ostemplate@);
    let m1 = put_opt(m0, "hostname"@, opt_str(c.hostname));
    let m2 = put_opt(m1, "cores"@, opt_decimal(widen(c.cores)));
    let m3 = put_opt(m2, "memory"@, opt_decimal(c.memory));
    let m4 = put_opt(m3, "swap"@, opt_decimal(c.swap));
    let m5 = put_opt(m4, "rootfs"@, opt_str(c.rootfs));
    let m6 = put_opt(m5, "net0"@, opt_str(c.net0));
    let m7 = put_opt(m6, "storage"@, opt_str(c.storage));
    let m8 = put_opt(m7, "unprivileged"@, opt_bool(c.unprivileged));
    let m9 = put_opt(m8, "start"@, opt_bool(c.start));
    let m10 = put_opt(m9, "password"@, opt_str(c.password));
    let m11 = put_opt(m10, "ssh-public-keys"@, opt_str(c.ssh_public_keys));
    let m12 = put_opt(m11, "pool"@, opt_str(c.pool));
    let m13 = put_opt(m12, "description"@, opt_str(c.description));
    let m14 = put_opt(m13, "tags"@, opt_str(c.tags));
    assert(lxc_params(c) == m14.union_prefer_right(texts(c.extra@))) by {
        reveal(lxc_params);
    }
    lemma_put_opt_same(m10, "ssh-public-keys"@, opt_str(c.ssh_public_keys));
    lemma_put_opt_other(m0, "hostname"@, opt_str(c.hostname), "ssh-public-keys"@);
    lemma_put_opt_other(m1, "cores"@, opt_decimal(widen(c.cores)), "ssh-public-keys"@);
    lemma_put_opt_other(m2, "memory"@, opt_decimal(c.memory), "ssh-public-keys"@);
    lemma_put_opt_other(m3, "swap"@, opt_decimal(c.swap), "ssh-public-keys"@);
    lemma_put_opt_other(m4, "rootfs"@, opt_str(c.rootfs), "ssh-public-keys"@);
    lemma_put_opt_other(m5, "net0"@, opt_str(c.net0), "ssh-public-keys"@);
    lemma_put_opt_other(m6, "storage"@, opt_str(c.storage), "ssh-public-keys"@);
    lemma_put_opt_other(m7, "unprivileged"@, opt_bool(c.unprivileged), "ssh-public-keys"@);
    lemma_put_opt_other(m8, "start"@, opt_bool(c.start), "ssh-public-keys"@);
    lemma_put_opt_other(m9, "password"@, opt_str(c.password), "ssh-public-keys"@);
    lemma_put_opt_other(m11, "pool"@, opt_str(c.pool), "ssh-public-keys"@);
    lemma_put_opt_other(m12, "description"@, opt_str(c.description), "ssh-public-keys"@);
    lemma_put_opt_other(m13, "tags"@, opt_str(c.tags), "ssh-public-keys"@);
}

proof fn lemma_lxc_param_pool(c: LxcCreate)
    ensures
        c.pool matches Some(v) ==> (!texts(c.extra@).dom().contains("pool"@) ==> lxc_params(c).dom().contains("pool"@) && lxc_params(c)["pool"@] == v@),
        c.pool is None && !texts(c.extra@).dom().contains("pool"@) ==> !lxc_params(c).dom().contains("pool"@),
{
    lemma_lxc_keys_distinct();
    let m0 = Map::<Seq<char>, Seq<char>>::empty().insert("vmid"@, decimal(c.vmid as nat)).insert("ostemplate"@, c.ostemplate@);
    let m1 = put_opt(m0, "hostname"@, opt_str(c.hostname));
    let m2 = put_opt(m1, "cores"@, opt_decimal(widen(c.cores)));
    let m3 = put_opt(m2, "memory"@, opt_decimal(c.memory));
    let m4 = put_opt(m3, "swap"@, opt_decimal(c.swap));
    let m5 = put_opt(m4, "rootfs"@, opt_str(c.rootfs));
    let m6 = put_opt(m5, "net0"@, opt_str(c.net0));
    let m7 = put_opt(m6, "storage"@, opt_str(c.storage));
    let m8 = put_opt(m7, "unprivileged"@, opt_bool(c.unprivileged));
    let m9 = put_opt(m8, "start"@, opt_bool(c.start));
    let m10 = put_opt(m9, "password"@, opt_str(c.password));
    let m11 = put_opt(m10, "ssh-public-keys"@, opt_str(c.ssh_public_keys));
    let m12 = put_opt(m11, "pool"@, opt_str(c.pool));
    let m13 = put_opt(m12, "description"@, opt_str(c.description));
    let m14 = put_opt(m13, "tags"@, opt_str(c.tags));
    assert(lxc_params(c) == m14.union_prefer_right(texts(c.extra@))) by {
        reveal(lxc_params);
    }
    lemma_put_opt_same(m11, "pool"@, opt_str(c.pool));
    lemma_put_opt_other(m0, "hostname"@, opt_str(c.hostname), "pool"@);
    lemma_put_opt_other(m1, "cores"@, opt_decimal(widen(c.cores)), "pool"@);
    lemma_put_opt_other(m2, "memory"@, opt_decimal(c.memory), "pool"@);
    lemma_put_opt_other(m3, "swap"@, opt_decimal(c.swap), "pool"@);
    lemma_put_opt_other(m4, "rootfs"@, opt_str(c.rootfs), "pool"@);
    lemma_put_opt_other(m5, "net0"@, opt_str(c.net0), "pool"@);
    lemma_put_opt_other(m6, "storage"@, opt_str(c.storage), "pool"@);
    lemma_put_opt_other(m7, "unprivileged"@, opt_bool(c.unprivileged), "pool"@);
    lemma_put_opt_other(m8, "start"@, opt_bool(c.start), "pool"@);
    lemma_put_opt_other(m9, "password"@, opt_str(c.password), "pool"@);
    lemma_put_opt_other(m10, "ssh-public-keys"@, opt_str(c.ssh_public_keys), "pool"@);
    lemma_put_opt_other(m12, "description"@, opt_str(c.description), "pool"@);
    lemma_put_opt_other(m13, "tags"@, opt_str(c.tags), "pool"@);
}

proof fn lemma_lxc_param_description(c: LxcCreate)
    ensures
        c.description matches Some(v) ==> (!texts(c.extra@).dom().contains("description"@) ==> lxc_params(c).dom().contains("description"@) && lxc_params(c)["description"@] == v@),
        c.description is None && !texts(c.extra@).dom().contains("description"@) ==> !lxc_params(c).dom().contains("description"@),
{
    lemma_lxc_keys_distinct();
    let m0 = Map::<Seq<char>, Seq<char>>::empty().insert("vmid"@, decimal(c.vmid as nat)).insert("ostemplate"@, c.ostemplate@);
    let m1 = put_opt(m0, "hostname"@, opt_str(c.hostname));
    let m2 = put_opt(m1, "cores"@, opt_decimal(widen(c.cores)));
    let m3 = put_opt(m2, "memory"@, opt_decimal(c.memory));
    let m4 = put_opt(m3, "swap"@, opt_decimal(c.swap));
    let m5 = put_opt(m4, "rootfs"@, opt_str(c.rootfs));
    let m6 = put_opt(m5, "net0"@, opt_str(c.net0));
    let m7 = put_opt(m6, "storage"@, opt_str(c.storage));
    let m8 = put_opt(m7, "unprivileged"@, opt_bool(c.unprivileged));
    let m9 = put_opt(m8, "start"@, opt_bool(c.start));
    let m10 = put_opt(m9, "password"@, opt_str(c.password));
    let m11 = put_opt(m10, "ssh-public-keys"@, opt_str(c.ssh_public_keys));
    let m12 = put_opt(m11, "pool"@, opt_str(c.pool));
    let m13 = put_opt(m12, "description"@, opt_str(c.description));
    let m14 = put_opt(m13, "tags"@, opt_str(c.tags));
    assert(lxc_params(c) == m14.union_prefer_right(texts(c.extra@))) by {
        reveal(lxc_params);
    }
    lemma_put_opt_same(m12, "description"@, opt_str(c.description));
    lemma_put_opt_other(m0, "hostname"@, opt_str(c.hostname), "description"@);
    lemma_put_opt_other(m1, "cores"@, opt_decimal(widen(c.cores)), "description"@);
    lemma_put_opt_other(m2, "memory"@, opt_decimal(c.memory), "description"@);
    lemma_put_opt_other(m3, "swap"@, opt_decimal(c.swap), "description"@);
    lemma_put_opt_other(m4, "rootfs"@, opt_str(c.rootfs), "description"@);
    lemma_put_opt_other(m5, "net0"@, opt_str(c.net0), "description"@);
    lemma_put_opt_other(m6, "storage"@, opt_str(c.storage), "description"@);
    lemma_put_opt_other(m7, "unprivileged"@, opt_bool(c.unprivileged), "description"@);
    lemma_put_opt_other(m8, "start"@, opt_bool(c.start), "description"@);
    lemma_put_opt_other(m9, "password"@, opt_str(c.password), "description"@);
    lemma_put_opt_other(m10, "ssh-public-keys"@, opt_str(c.ssh_public_keys), "description"@);
    lemma_put_opt_other(m11, "pool"@, opt_str(c.pool), "description"@);
    lemma_put_opt_other(m13, "tags"@, opt_str(c.tags), "description"@);
}

proof fn lemma_lxc_param_tags(c: LxcCreate)
    ensures
        c.tags matches Some(v) ==> (!texts(c.extra@).dom().contains("tags"@) ==> lxc_params(c).dom().contains("tags"@) && lxc_params(c)["tags"@] == v@),
        c.tags is None && !texts(c.extra@).dom().contains("tags"@) ==> !lxc_params(c).dom().contains("tags"@),
{
    lemma_lxc_keys_distinct();
    let m0 = Map::<Seq<char>, Seq<char>>::empty().insert("vmid"@, decimal(c.vmid as nat)).insert("ostemplate"@, c.ostemplate@);
    let m1 = put_opt(m0, "hostname"@, opt_str(c.hostname));
    let m2 = put_opt(m1, "cores"@, opt_decimal(widen(c.cores)));
    let m3 = put_opt(m2, "memory"@, opt_decimal(c.memory));
    let m4 = put_opt(m3, "swap"@, opt_decimal(c.swap));
    let m5 = put_opt(m4, "rootfs"@, opt_str(c.rootfs));
    let m6 = put_opt(m5, "net0"@, opt_str(c.net0));
    let m7 = put_opt(m6, "storage"@, opt_str(c.storage));
    let m8 = put_opt(m7, "unprivileged"@, opt_bool(c.unprivileged));
    let m9 = put_opt(m8, "start"@, opt_bool(c.start));
    let m10 = put_opt(m9, "password"@, opt_str(c.password));
    let m11 = put_opt(m10, "ssh-public-keys"@, opt_str(c.ssh_public_keys));
    let m12 = put_opt(m11, "pool"@, opt_str(c.pool));
    let m13 = put_opt(m12, "description"@, opt_str(c.description));
    let m14 = put_opt(m13, "tags"@, opt_str(c.tags));
    assert(lxc_params(c) == m14.union_prefer_right(texts(c.extra@))) by {
        reveal(lxc_params);
    }
    lemma_put_opt_same(m13, "tags"@, opt_str(c.tags));
    lemma_put_opt_other(m0, "hostname"@, opt_str(c.hostname), "tags"@);
    lemma_put_opt_other(m1, "cores"@, opt_decimal(widen(c.cores)), "tags"@);
    lemma_put_opt_other(m2, "memory"@, opt_decimal(c.memory), "tags"@);
    lemma_put_opt_other(m3, "swap"@, opt_decimal(c.swap), "tags"@);
    lemma_put_opt_other(m4, "rootfs"@, opt_str(c.rootfs), "tags"@);
    lemma_put_opt_other(m5, "net0"@, opt_str(c.net0), "tags"@);
    lemma_put_opt_other(m6, "storage"@, opt_str(c.storage), "tags"@);
    lemma_put_opt_other(m7, "unprivileged"@, opt_bool(c.unprivileged), "tags"@);
    lemma_put_opt_other(m8, "start"@, opt_bool(c.start), "tags"@);
    lemma_put_opt_other(m9, "password"@, opt_str(c.password), "tags"@);
    lemma_put_opt_other(m10, "ssh-public-keys"@, opt_str(c.ssh_public_keys), "tags"@);
    lemma_put_opt_other(m11, "pool"@, opt_str(c.pool), "tags"@);
    lemma_put_opt_other(m12, "description"@, opt_str(c.description), "tags"@);
}

proof fn lemma_lxc_param_extra(c: LxcCreate)
    ensures
        forall|k: Seq<char>| #[trigger] texts(c.extra@).dom().contains(k) ==> lxc_params(c).dom().contains(k) && lxc_params(c)[k] == texts(c.extra@)[k],
        forall|k: Seq<char>| #[trigger] lxc_params(c).dom().contains(k) ==> texts(c.extra@).dom().contains(k) || k == "vmid"@ || k == "ostemplate"@ || k == "hostname"@ || k == "cores"@ || k == "memory"@ || k == "swap"@ || k == "rootfs"@ || k == "net0"@ || k == "storage"@ || k == "unprivileged"@ || k == "start"@ || k == "password"@ || k == "ssh-public-keys"@ || k == "pool"@ || k == "description"@ || k == "tags"@,
{
    let m0 = Map::<Seq<char>, Seq<char>>::empty().insert("vmid"@, decimal(c.vmid as nat)).insert("ostemplate"@, c.ostemplate@);
    let m1 = put_opt(m0, "hostname"@, opt_str(c.hostname));
    let m2 = put_opt(m1, "cores"@, opt_decimal(widen(c.cores)));
    let m3 = put_opt(m2, "memory"@, opt_decimal(c.memory));
    let m4 = put_opt(m3, "swap"@, opt_decimal(c.swap));
    let m5 = put_opt(m4, "rootfs"@, opt_str(c.rootfs));
    let m6 = put_opt(m5, "net0"@, opt_str(c.net0));
    let m7 = put_opt(m6, "storage"@, opt_str(c.storage));
    let m8 = put_opt(m7, "unprivileged"@, opt_bool(c.unprivileged));
    let m9 = put_opt(m8, "start"@, opt_bool(c.start));
    let m10 = put_opt(m9, "password"@, opt_str(c.password));
    let m11 = put_opt(m10, "ssh-public-keys"@, opt_str(c.ssh_public_keys));
    let m12 = put_opt(m11, "pool"@, opt_str(c.pool));
    let m13 = put_opt(m12, "description"@, opt_str(c.description));
    let m14 = put_opt(m13, "tags"@, opt_str(c.tags));
    assert(lxc_params(c) == m14.union_prefer_right(texts(c.extra@))) by {
        reveal(lxc_params);
    }
    assert forall|k: Seq<char>| #[trigger] lxc_params(c).dom().contains(k) implies texts(c.extra@).dom().contains(k) || k == "vmid"@ || k == "ostemplate"@ || k == "hostname"@ || k == "cores"@ || k == "memory"@ || k == "swap"@ || k == "rootfs"@ || k == "net0"@ || k == "storage"@ || k == "unprivileged"@ || k == "start"@ || k == "password"@ || k == "ssh-public-keys"@ || k == "pool"@ || k == "description"@ || k == "tags"@ by {
        lemma_put_opt_dom(m0, "hostname"@, opt_str(c.hostname), k);
        lemma_put_opt_dom(m1, "cores"@, opt_decimal(widen(c.cores)), k);
        lemma_put_opt_dom(m2, "memory"@, opt_decimal(c.memory), k);
        lemma_put_opt_dom(m3, "swap"@, opt_decimal(c.swap), k);
        lemma_put_opt_dom(m4, "rootfs"@, opt_str(c.rootfs), k);
        lemma_put_opt_dom(m5, "net0"@, opt_str(c.net0), k);
        lemma_put_opt_dom(m6, "storage"@, opt_str(c.storage), k);
        lemma_put_opt_dom(m7, "unprivileged"@, opt_bool(c.unprivileged), k);
        lemma_put_opt_dom(m8, "start"@, opt_bool(c.start), k);
        lemma_put_opt_dom(m9, "password"@, opt_str(c.password), k);
        lemma_put_opt_dom(m10, "ssh-public-keys"@, opt_str(c.ssh_public_keys), k);
        lemma_put_opt_dom(m11, "pool"@, opt_str(c.pool), k);
        lemma_put_opt_dom(m12, "description"@, opt_str(c.description), k);
        lemma_put_opt_dom(m13, "tags"@, opt_str(c.tags), k);
    }
}

/// Every setting of a container creation reaches the form under its Proxmox
/// name: `vmid` and `ostemplate` always, each optional setting exactly when
/// it is present (numbers in decimal, booleans as `1`/`0`), unless an `extra`
/// entry of the same name overrides it; every `extra` entry is sent as given,
/// and nothing else is sent.
pub proof fn lemma_lxc_params_carry_settings(c: LxcCreate)
    ensures
        !texts(c.extra@).dom().contains("vmid"@) ==> lxc_params(c).dom().contains("vmid"@) && lxc_params(c)["vmid"@] == decimal(c.vmid as nat),
        !texts(c.extra@).dom().contains("ostemplate"@) ==> lxc_params(c).dom().contains("ostemplate"@) && lxc_params(c)["ostemplate"@] == c.ostemplate@,
        c.hostname matches Some(v) ==> (!texts(c.extra@).dom().contains("hostname"@) ==> lxc_params(c).dom().contains("hostname"@) && lxc_params(c)["hostname"@] == v@),
        c.hostname is None && !texts(c.extra@).dom().contains("hostname"@) ==> !lxc_params(c).dom().contains("hostname"@),
        c.cores matches Some(v) ==> (!texts(c.extra@).dom().contains("cores"@) ==> lxc_params(c).dom().contains("cores"@) && lxc_params(c)["cores"@] == decimal(v as nat)),
        c.cores is None && !texts(c.extra@).dom().contains("cores"@) ==> !lxc_params(c).dom().contains("cores"@),
        c.memory matches Some(v) ==> (!texts(c.extra@).dom().contains("memory"@) ==> lxc_params(c).dom().contains("memory"@) && lxc_params(c)["memory"@] == decimal(v as nat)),
        c.memory is None && !texts(c.extra@).dom().contains("memory"@) ==> !lxc_params(c).dom().contains("memory"@),
        c.swap matches Some(v) ==> (!texts(c.extra@).dom().contains("swap"@) ==> lxc_params(c).dom().contains("swap"@) && lxc_params(c)["swap"@] == decimal(v as nat)),
        c.swap is None && !texts(c.extra@).dom().contains("swap"@) ==> !lxc_params(c).dom().contains("swap"@),
        c.rootfs matches Some(v) ==> (!texts(c.extra@).dom().contains("rootfs"@) ==> lxc_params(c).dom().contains("rootfs"@) && lxc_params(c)["rootfs"@] == v@),
        c.rootfs is None && !texts(c.extra@).dom().contains("rootfs"@) ==> !lxc_params(c).dom().contains("rootfs"@),
        c.net0 matches Some(v) ==> (!texts(c.extra@).dom().contains("net0"@) ==> lxc_params(c).dom().contains("net0"@) && lxc_params(c)["net0"@] == v@),
        c.net0 is None && !texts(c.extra@).dom().contains("net0"@) ==> !lxc_params(c).dom().contains("net0"@),
        c.storage matches Some(v) ==> (!texts(c.extra@).dom().contains("storage"@) ==> lxc_params(c).dom().contains("storage"@) && lxc_params(c)["storage"@] == v@),
        c.storage is None && !texts(c.extra@).dom().contains("storage"@) ==> !lxc_params(c).dom().contains("storage"@),
        c.unprivileged matches Some(v) ==> (!texts(c.extra@).dom().contains("unprivileged"@) ==> lxc_params(c).dom().contains("unprivileged"@) && lxc_params(c)["unprivileged"@] == (if v { "1"@ } else { "0"@ })),
        c.unprivileged is None && !texts(c.extra@).dom().contains("unprivileged"@) ==> !lxc_params(c).dom().contains("unprivileged"@),
        c.start matches Some(v) ==> (!texts(c.extra@).dom().contains("start"@) ==> lxc_params(c).dom().contains("start"@) && lxc_params(c)["start"@] == (if v { "1"@ } else { "0"@ })),
        c.start is None && !texts(c.extra@).dom().contains("start"@) ==> !lxc_params(c).dom().contains("start"@),
        c.password matches Some(v) ==> (!texts(c.extra@).dom().contains("password"@) ==> lxc_params(c).dom().contains("password"@) && lxc_params(c)["password"@] == v@),
        c.password is None && !texts(c.extra@).dom().contains("password"@) ==> !lxc_params(c).dom().contains("password"@),
        c.ssh_public_keys matches Some(v) ==> (!texts(c.extra@).dom().contains("ssh-public-keys"@) ==> lxc_params(c).dom().contains("ssh-public-keys"@) && lxc_params(c)["ssh-public-keys"@] == v@),
        c.ssh_public_keys is None && !texts(c.extra@).dom().contains("ssh-public-keys"@) ==> !lxc_params(c).dom().contains("ssh-public-keys"@),
        c.pool matches Some(v) ==> (!texts(c.extra@).dom().contains("pool"@) ==> lxc_params(c).dom().contains("pool"@) && lxc_params(c)["pool"@] == v@),
        c.pool is None && !texts(c.extra@).dom().contains("pool"@) ==> !lxc_params(c).dom().contains("pool"@),
        c.description matches Some(v) ==> (!texts(c.extra@).dom().contains("description"@) ==> lxc_params(c).dom().contains("description"@) && lxc_params(c)["description"@] == v@),
        c.description is None && !texts(c.extra@).dom().contains("description"@) ==> !lxc_params(c).dom().contains("description"@),
        c.tags matches Some(v) ==> (!texts(c.extra@).dom().contains("tags"@) ==> lxc_params(c).dom().contains("tags"@) && lxc_params(c)["tags"@] == v@),
        c.tags is None && !texts(c.extra@).dom().contains("tags"@) ==> !lxc_params(c).dom().contains("tags"@),
        forall|k: Seq<char>| #[trigger] texts(c.extra@).dom().contains(k) ==> lxc_params(c).dom().contains(k) && lxc_params(c)[k] == texts(c.extra@)[k],
        forall|k: Seq<char>| #[trigger] lxc_params(c).dom().contains(k) ==> texts(c.extra@).dom().contains(k) || k == "vmid"@ || k == "ostemplate"@ || k == "hostname"@ || k == "cores"@ || k == "memory"@ || k == "swap"@ || k == "rootfs"@ || k == "net0"@ || k == "storage"@ || k == "unprivileged"@ || k == "start"@ || k == "password"@ || k == "ssh-public-keys"@ || k == "pool"@ || k == "description"@ || k == "tags"@,
{
    lemma_lxc_param_vmid(c);
    lemma_lxc_param_ostemplate(c);
    lemma_lxc_param_hostname(c);
    lemma_lxc_param_cores(c);
    lemma_lxc_param_memory(c);
    lemma_lxc_param_swap(c);
    lemma_lxc_param_rootfs(c);
    lemma_lxc_param_net0(c);
    lemma_lxc_param_storage(c);
    lemma_lxc_param_unprivileged(c);
    lemma_lxc_param_start(c);
    lemma_lxc_param_password(c);
    lemma_lxc_param_ssh_public_keys(c);
    lemma_lxc_param_pool(c);
    lemma_lxc_param_description(c);
    lemma_lxc_param_tags(c);
    lemma_lxc_param_extra(c);
}

} // verus!
