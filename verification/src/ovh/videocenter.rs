//! OVHcloud API v2 **videocenter** types (`/v2/videocenter`).
//!
//! Data types of these endpoints; field and value names follow the API,
//! with the JSON name noted where it differs.

use vstd::prelude::*;

verus! {

/// `common.ResourceStatusEnum`
#[derive(Debug, Clone, Copy, PartialEq, Eq)]
pub enum CommonResourceStatus {
    /// `CREATING`
    Creating,
    /// `DELETING`
    Deleting,
    /// `ERROR`
    Error,
    /// `OUT_OF_SYNC`
    OutOfSync,
    /// `READY`
    Ready,
    /// `SUSPENDED`
    Suspended,
    /// `UNKNOWN`
    UnknownValue,
    /// `UPDATING`
    Updating,
    /// Any value not listed here.
    Other,
}

/// `iam.resource.TagFilter.OperatorEnum`
#[derive(Debug, Clone, Copy, PartialEq, Eq)]
pub enum IamResourceTagFilterOperator {
    /// `EQ`
    Eq,
    /// `EXISTS`
    Exists,
    /// `ILIKE`
    Ilike,
    /// `LIKE`
    Like,
    /// `NEQ`
    Neq,
    /// `NEXISTS`
    Nexists,
    /// Any value not listed here.
    Other,
}

/// `iam.resource.TagFilter`
#[derive(Debug, Clone)]
pub struct ResourceTagFilter {
    pub operator: Option<IamResourceTagFilterOperator>,
    pub value: Option<String>,
}

/// `videocenter.AuthTokenRequest`
#[derive(Debug, Clone)]
pub struct AuthTokenRequest {
    pub language: String,
}

/// `videocenter.AuthTokenResponse`
#[derive(Debug, Clone)]
pub struct AuthTokenResponse {
    pub token: Option<String>,
}

/// `videocenter.ServiceCurrentStateVodCount`
#[derive(Debug, Clone)]
pub struct ServiceCurrentStateVodCount {
    pub allocated: Option<i64>,
    pub hostable: Option<i64>,
}

} // verus!
