//! Ensure a GCS bucket exists.

use vstd::prelude::*;

verus! {

/// Method name of the bucket resource.
pub const ENSURE_BUCKET: &'static str = "gcp.ensure_bucket";

/// Desired bucket.
#[derive(Clone, Debug, Default, PartialEq, Eq)]
pub struct EnsureBucketInput {
    pub bucket_name: String,
    pub location: String,
}

/// Observed or created bucket.
#[derive(Clone, Debug, Default, PartialEq, Eq)]
pub struct EnsureBucketOutput {
    pub bucket_name: String,
    pub location: String,
}

/// A bucket as the Storage API reports it on creation.
#[derive(Clone, Debug, Default, PartialEq, Eq)]
pub struct Bucket {
    pub name: String,
    pub location: String,
}

/// The current state of the desired bucket, given whether it exists: an
/// existing bucket is reported with the spec's name and location.
pub fn observe(exists: bool, spec: &EnsureBucketInput) -> (r: Option<EnsureBucketOutput>)
    ensures
        exists ==> r == Some(EnsureBucketOutput { bucket_name: spec.bucket_name, location: spec.location }),
        !exists ==> r is None,
{
    if exists {
        Some(
            EnsureBucketOutput {
                bucket_name: spec.bucket_name.clone(),
                location: spec.location.clone(),
            },
        )
    } else {
        None
    }
}

/// The resource state of a created bucket.
pub fn created(bucket: Bucket) -> (o: EnsureBucketOutput)
    ensures
        o == (EnsureBucketOutput { bucket_name: bucket.name, location: bucket.location }),
{
    EnsureBucketOutput { bucket_name: bucket.name, location: bucket.location }
}

} // verus!
