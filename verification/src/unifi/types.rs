//! The UniFi controller response envelope.
//!
//! Every controller REST endpoint wraps its payload in
//! `{ "meta": { "rc": "ok" }, "data": [ … ] }`. A logical failure is reported
//! either with a non-2xx status or with `meta.rc == "error"` and a `meta.msg`
//! UniFi error code.

use vstd::prelude::*;
use crate::text::str_eq;

verus! {

/// Result metadata returned alongside every payload.
#[derive(Debug, Clone, Default, PartialEq, Eq)]
pub struct Meta {
    /// Result code: `"ok"` on success, `"error"` otherwise.
    pub rc: String,
    /// UniFi error code (e.g. `api.err.NoSiteContext`) when `rc != "ok"`.
    pub msg: Option<String>,
}

/// Whether metadata reports success.
pub open spec fn meta_ok(m: Meta) -> bool {
    m.rc@ == "ok"@
}

impl Meta {
    /// Whether the controller reported success.
    pub fn is_ok(&self) -> (b: bool)
        ensures
            b == meta_ok(*self),
    {
        str_eq(self.rc.as_str(), "ok")
    }
}

/// The standard UniFi controller response envelope.
#[derive(Debug, Clone)]
pub struct UnifiResponse<T> {
    pub meta: Meta,
    pub data: Vec<T>,
}

} // verus!

verus! {

/// The body of a manager command that addresses one MAC address.
#[derive(Debug, Clone, PartialEq, Eq)]
pub struct MacCommand {
    /// The command name, e.g. `restart` or `block-sta`.
    pub cmd: String,
    pub mac: String,
}

} // verus!
