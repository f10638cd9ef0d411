//! OVHcloud API v2 **vrackServices** types (`/v2/vrackServices`).
//!
//! Data types of these endpoints; field and value names follow the API,
//! with the JSON name noted where it differs.

use vstd::prelude::*;

verus! {

/// `common.CurrentTaskStatusEnum`
#[derive(Debug, Clone, Copy, PartialEq, Eq)]
pub enum CommonCurrentTaskStatus {
    /// `ERROR`
    Error,
    /// `PENDING`
    Pending,
    /// `RUNNING`
    Running,
    /// `SCHEDULED`
    Scheduled,
    /// `WAITING_USER_INPUT`
    WaitingUserInput,
    /// Any value not listed here.
    Other,
}

/// `common.TaskError`
#[derive(Debug, Clone)]
pub struct TaskError {
    pub message: Option<String>,
}

/// `common.CurrentTask`
#[derive(Debug, Clone)]
pub struct CurrentTask {
    pub errors: Option<Vec<TaskError>>,
    pub id: Option<String>,
    pub link: Option<String>,
    pub status: Option<CommonCurrentTaskStatus>,
    /// JSON field `type`.
    pub kind: Option<String>,
}

/// `common.TaskStatusEnum`
#[derive(Debug, Clone, Copy, PartialEq, Eq)]
pub enum CommonTaskStatus {
    /// `DONE`
    Done,
    /// `ERROR`
    Error,
    /// `PENDING`
    Pending,
    /// `RUNNING`
    Running,
    /// `SCHEDULED`
    Scheduled,
    /// `WAITING_USER_INPUT`
    WaitingUserInput,
    /// Any value not listed here.
    Other,
}

/// `common.TaskProgress`
#[derive(Debug, Clone)]
pub struct TaskProgress {
    pub name: Option<String>,
    pub status: Option<CommonTaskStatus>,
}

/// `common.Task`
#[derive(Debug, Clone)]
pub struct Task {
    pub created_at: Option<String>,
    pub errors: Option<Vec<TaskError>>,
    pub finished_at: Option<String>,
    pub id: Option<String>,
    pub link: Option<String>,
    pub message: Option<String>,
    pub progress: Option<Vec<TaskProgress>>,
    pub started_at: Option<String>,
    pub status: Option<CommonTaskStatus>,
    /// JSON field `type`.
    pub kind: Option<String>,
    pub updated_at: Option<String>,
}

/// `iam.resource.TagFilter.OperatorEnum`
#[derive(Debug, Clone, Copy, PartialEq, Eq)]
pub enum IamResourceTagFilterOperator {
    /// `EQ`
    Eq,
    /// `EXISTS`
    Exists,
    /// `ILIKE`
    Ilike,
    /// `LIKE`
    Like,
    /// `NEQ`
    Neq,
    /// `NEXISTS`
    Nexists,
    /// Any value not listed here.
    Other,
}

/// `iam.resource.TagFilter`
#[derive(Debug, Clone)]
pub struct ResourceTagFilter {
    pub operator: Option<IamResourceTagFilterOperator>,
    pub value: Option<String>,
}

/// `vrackServices.EligibleManagedService`
#[derive(Debug, Clone)]
pub struct EligibleManagedService {
    pub managed_service_type: Option<String>,
    pub managed_service_urns: Option<Vec<String>>,
}

/// `vrackServices.ProductStatusEnum`
#[derive(Debug, Clone, Copy, PartialEq, Eq)]
pub enum VrackServicesProductStatus {
    /// `ACTIVE`
    Active,
    /// `DRAFT`
    Draft,
    /// `SUSPENDED`
    Suspended,
    /// Any value not listed here.
    Other,
}

/// `vrackServices.Region`
#[derive(Debug, Clone)]
pub struct Region {
    pub name: Option<String>,
}

/// `vrackServices.ResourceStatusEnum`
#[derive(Debug, Clone, Copy, PartialEq, Eq)]
pub enum VrackServicesResourceStatus {
    /// `CREATING`
    Creating,
    /// `DELETING`
    Deleting,
    /// `ERROR`
    Error,
    /// `READY`
    Ready,
    /// `UPDATING`
    Updating,
    /// Any value not listed here.
    Other,
}

/// `vrackServices.TargetServiceEndpoint`
#[derive(Debug, Clone)]
pub struct TargetServiceEndpoint {
    pub managed_service_urn: String,
}

} // verus!
