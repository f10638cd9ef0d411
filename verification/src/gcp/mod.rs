//! GCP "ensure" resources: their inputs and outputs, and how the observed
//! provider state becomes the resource's state.
//!
//! Each resource observes the provider (list disks/instances in a zone,
//! probe a bucket, list a service account's keys), reports the matching
//! object as its current state, and creates it when missing.

pub mod bucket;
pub mod disk;
pub mod instance;
pub mod service_account_key;

pub use bucket::{EnsureBucketInput, EnsureBucketOutput, ENSURE_BUCKET};
pub use disk::{EnsureDiskInput, EnsureDiskOutput, ENSURE_DISK};
pub use instance::{EnsureInstanceInput, EnsureInstanceOutput, ENSURE_INSTANCE};
pub use service_account_key::{
    EnsureServiceAccountKeyInput, EnsureServiceAccountKeyOutput, ENSURE_SERVICE_ACCOUNT_KEY,
};

use vstd::prelude::*;

verus! {

/// Vault field holding the service-account JSON when none is named.
pub const FIELD_SERVICE_ACCOUNT_JSON: &'static str = "service_account_json";

} // verus!
