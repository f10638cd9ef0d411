//! Ensure a service-account key exists.

use vstd::prelude::*;

verus! {

/// Method name of the service-account key resource.
pub const ENSURE_SERVICE_ACCOUNT_KEY: &'static str = "gcp.ensure_service_account_key";

/// Desired key: one for the given service account.
#[derive(Clone, Debug, Default, PartialEq, Eq)]
pub struct EnsureServiceAccountKeyInput {
    pub service_account_email: String,
}

/// Observed or created key.
#[derive(Clone, Debug, PartialEq, Eq)]
pub struct EnsureServiceAccountKeyOutput {
    pub service_account_email: String,
    pub key_name: String,
    pub private_key_data: Option<String>,
}

/// A service-account key as the IAM API reports it.
#[derive(Clone, Debug, Default, PartialEq, Eq)]
pub struct CreatedServiceAccountKey {
    pub service_account_email: String,
    pub key_name: String,
    pub private_key_data: Option<String>,
}

/// The current state of the desired key: the first listed key, reported for
/// the spec's account and without key material (a listing never returns it).
pub fn observe(keys: &Vec<CreatedServiceAccountKey>, spec: &EnsureServiceAccountKeyInput) -> (r: Option<
    EnsureServiceAccountKeyOutput,
>)
    ensures
        keys@.len() == 0 ==> r is None,
        keys@.len() > 0 ==> r == Some(
            EnsureServiceAccountKeyOutput {
                service_account_email: spec.service_account_email,
                key_name: keys@[0].key_name,
                private_key_data: None,
            },
        ),
{
    if keys.len() == 0 {
        None
    } else {
        Some(
            EnsureServiceAccountKeyOutput {
                service_account_email: spec.service_account_email.clone(),
                key_name: keys[0].key_name.clone(),
                private_key_data: None,
            },
        )
    }
}

/// The key creation settles on: the first existing key when there is one
/// (`None` means a new key must be created).
pub fn existing_key(keys: &Vec<CreatedServiceAccountKey>) -> (r: Option<CreatedServiceAccountKey>)
    ensures
        keys@.len() == 0 ==> r is None,
        keys@.len() > 0 ==> r == Some(keys@[0]),
{
    if keys.len() == 0 {
        None
    } else {
        let k = &keys[0];
        Some(
            CreatedServiceAccountKey {
                service_account_email: k.service_account_email.clone(),
                key_name: k.key_name.clone(),
                private_key_data: match &k.private_key_data {
                    Some(d) => Some(d.clone()),
                    None => None,
                },
            },
        )
    }
}

/// The resource state of a key.
pub fn to_output(key: CreatedServiceAccountKey) -> (o: EnsureServiceAccountKeyOutput)
    ensures
        o == (EnsureServiceAccountKeyOutput {
            service_account_email: key.service_account_email,
            key_name: key.key_name,
            private_key_data: key.private_key_data,
        }),
{
    EnsureServiceAccountKeyOutput {
        service_account_email: key.service_account_email,
        key_name: key.key_name,
        private_key_data: key.private_key_data,
    }
}

} // verus!
