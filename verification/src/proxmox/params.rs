//! Form parameters for guest creation.

use vstd::prelude::*;
use crate::string_map::{lemma_texts_insert, texts, StringMap};
use crate::text::{decimal, owned, u64_to_decimal};

verus! {

/// `m` with `k` set to `v` when `v` is present.
#[verifier::opaque]
pub open spec fn put_opt(m: Map<Seq<char>, Seq<char>>, k: Seq<char>, v: Option<Seq<char>>) -> Map<
    Seq<char>,
    Seq<char>,
> {
    match v {
        Some(x) => m.insert(k, x),
        None => m,
    }
}

/// Setting `k` leaves every other key as it was.
pub proof fn lemma_put_opt_other(
    m: Map<Seq<char>, Seq<char>>,
    k: Seq<char>,
    v: Option<Seq<char>>,
    q: Seq<char>,
)
    requires
        q != k,
    ensures
        put_opt(m, k, v).dom().contains(q) == m.dom().contains(q),
        m.dom().contains(q) ==> put_opt(m, k, v)[q] == m[q],
{
    reveal(put_opt);
}

/// A present value is stored under `k`; an absent one leaves `k` as it was.
pub proof fn lemma_put_opt_same(m: Map<Seq<char>, Seq<char>>, k: Seq<char>, v: Option<Seq<char>>)
    ensures
        v matches Some(x) ==> put_opt(m, k, v).dom().contains(k) && put_opt(m, k, v)[k] == x,
        v is None ==> put_opt(m, k, v) == m,
{
    reveal(put_opt);
}

/// Setting `k` adds no key but `k`.
pub proof fn lemma_put_opt_dom(m: Map<Seq<char>, Seq<char>>, k: Seq<char>, v: Option<Seq<char>>, q: Seq<char>)
    ensures
        put_opt(m, k, v).dom().contains(q) ==> m.dom().contains(q) || q == k,
{
    reveal(put_opt);
}

/// Decimal rendering of an optional integer.
pub open spec fn opt_decimal(v: Option<u64>) -> Option<Seq<char>> {
    match v {
        Some(n) => Some(decimal(n as nat)),
        None => None,
    }
}

/// Proxmox's form encoding of a boolean.
pub open spec fn bool_text(b: bool) -> Seq<char> {
    if b {
        "1"@
    } else {
        "0"@
    }
}

/// Form encoding of an optional boolean.
pub open spec fn opt_bool(v: Option<bool>) -> Option<Seq<char>> {
    match v {
        Some(b) => Some(bool_text(b)),
        None => None,
    }
}

/// Widen an optional `u32`.
pub open spec fn widen(v: Option<u32>) -> Option<u64> {
    match v {
        Some(n) => Some(n as u64),
        None => None,
    }
}

/// Set `key` to `value` when `value` is present.
pub fn insert_opt(map: &mut StringMap<String>, key: &str, value: Option<&String>)
    ensures
        texts(final(map)@) == put_opt(
            texts(old(map)@),
            key@,
            match value {
                Some(s) => Some(s@),
                None => None,
            },
        ),
{
    proof {
        reveal(put_opt);
    }
    if let Some(value) = value {
        let v = value.clone();
        proof {
            lemma_texts_insert(map@, key@, v);
        }
        map.insert(owned(key), v);
    }
}

/// Set `key` to the decimal form of `value` when present.
pub fn insert_opt_u64(map: &mut StringMap<String>, key: &str, value: Option<u64>)
    ensures
        texts(final(map)@) == put_opt(texts(old(map)@), key@, opt_decimal(value)),
{
    proof {
        reveal(put_opt);
    }
    if let Some(v) = value {
        let t = u64_to_decimal(v);
        proof {
            lemma_texts_insert(map@, key@, t);
        }
        map.insert(owned(key), t);
    }
}

/// `"1"` for true, `"0"` for false.
pub fn bool_param(value: bool) -> (s: String)
    ensures
        s@ == bool_text(value),
{
    if value {
        owned("1")
    } else {
        owned("0")
    }
}

/// Set `key` to the form encoding of `value` when present.
pub fn insert_opt_bool(map: &mut StringMap<String>, key: &str, value: Option<bool>)
    ensures
        texts(final(map)@) == put_opt(texts(old(map)@), key@, opt_bool(value)),
{
    proof {
        reveal(put_opt);
    }
    if let Some(b) = value {
        let t = bool_param(b);
        proof {
            lemma_texts_insert(map@, key@, t);
        }
        map.insert(owned(key), t);
    }
}

/// Widen an optional `u32`.
pub fn widen_u32(v: Option<u32>) -> (r: Option<u64>)
    ensures
        r == widen(v),
{
    match v {
        Some(n) => Some(n as u64),
        None => None,
    }
}

} // verus!
