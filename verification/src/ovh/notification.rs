//! OVHcloud API v2 **notification** types (`/v2/notification`).
//!
//! Data types of these endpoints; field and value names follow the API,
//! with the JSON name noted where it differs.

use vstd::prelude::*;

verus! {

/// `common.CurrentTaskStatusEnum`
#[derive(Debug, Clone, Copy, PartialEq, Eq)]
pub enum CommonCurrentTaskStatus {
    /// `ERROR`
    Error,
    /// `PENDING`
    Pending,
    /// `RUNNING`
    Running,
    /// `SCHEDULED`
    Scheduled,
    /// `WAITING_USER_INPUT`
    WaitingUserInput,
    /// Any value not listed here.
    Other,
}

/// `common.TaskError`
#[derive(Debug, Clone)]
pub struct TaskError {
    pub message: Option<String>,
}

/// `common.CurrentTask`
#[derive(Debug, Clone)]
pub struct CurrentTask {
    pub errors: Option<Vec<TaskError>>,
    pub id: Option<String>,
    pub link: Option<String>,
    pub status: Option<CommonCurrentTaskStatus>,
    /// JSON field `type`.
    pub kind: Option<String>,
}

/// `common.TaskStatusEnum`
#[derive(Debug, Clone, Copy, PartialEq, Eq)]
pub enum CommonTaskStatus {
    /// `DONE`
    Done,
    /// `ERROR`
    Error,
    /// `PENDING`
    Pending,
    /// `RUNNING`
    Running,
    /// `SCHEDULED`
    Scheduled,
    /// `WAITING_USER_INPUT`
    WaitingUserInput,
    /// Any value not listed here.
    Other,
}

/// `common.TaskProgress`
#[derive(Debug, Clone)]
pub struct TaskProgress {
    pub name: Option<String>,
    pub status: Option<CommonTaskStatus>,
}

/// `common.Task`
#[derive(Debug, Clone)]
pub struct Task {
    pub created_at: Option<String>,
    pub errors: Option<Vec<TaskError>>,
    pub finished_at: Option<String>,
    pub id: Option<String>,
    pub link: Option<String>,
    pub message: Option<String>,
    pub progress: Option<Vec<TaskProgress>>,
    pub started_at: Option<String>,
    pub status: Option<CommonTaskStatus>,
    /// JSON field `type`.
    pub kind: Option<String>,
    pub updated_at: Option<String>,
}

/// `notification.SortOrderEnum`
#[derive(Debug, Clone, Copy, PartialEq, Eq)]
pub enum NotificationSortOrder {
    /// `ASC`
    Asc,
    /// `DESC`
    Desc,
    /// Any value not listed here.
    Other,
}

/// `notification.contactMean.StatusEnum`
#[derive(Debug, Clone, Copy, PartialEq, Eq)]
pub enum NotificationContactMeanStatus {
    /// `DISABLED`
    Disabled,
    /// `ERROR`
    Error,
    /// `TO_VALIDATE`
    ToValidate,
    /// `VALID`
    Valid,
    /// Any value not listed here.
    Other,
}

/// `notification.contactMean.TypeEnum`
#[derive(Debug, Clone, Copy, PartialEq, Eq)]
pub enum NotificationContactMeanType {
    /// `EMAIL`
    Email,
    /// Any value not listed here.
    Other,
}

/// `notification.contactMean.ContactMean`
#[derive(Debug, Clone)]
pub struct ContactMeanContactMean {
    pub created_at: Option<String>,
    pub current_tasks: Option<Vec<CurrentTask>>,
    pub default: Option<bool>,
    pub description: Option<String>,
    pub email: Option<String>,
    pub error: Option<String>,
    pub id: Option<String>,
    pub status: Option<NotificationContactMeanStatus>,
    /// JSON field `type`.
    pub kind: Option<NotificationContactMeanType>,
}

/// `notification.contactMean.ContactMeanTypeEnum`
#[derive(Debug, Clone, Copy, PartialEq, Eq)]
pub enum NotificationContactMeanContactMeanType {
    /// `EMAIL`
    Email,
    /// Any value not listed here.
    Other,
}

/// `notification.contactMean.PostInput`
#[derive(Debug, Clone)]
pub struct ContactMeanPostInput {
    pub description: Option<String>,
    pub email: Option<String>,
    /// JSON field `type`.
    pub kind: NotificationContactMeanType,
}

/// `notification.contactMean.TaskInputs`
#[derive(Debug, Clone)]
pub struct ContactMeanTaskInputs {
    pub otp: Option<String>,
    pub resend_otp: Option<String>,
}

/// `notification.contactMean.ValidateInput`
#[derive(Debug, Clone)]
pub struct ContactMeanValidateInput {
    pub otp: String,
}

/// `notification.history.ContactStatusEnum`
#[derive(Debug, Clone, Copy, PartialEq, Eq)]
pub enum NotificationHistoryContactStatus {
    /// `BOUNCED`
    Bounced,
    /// `DELIVERED`
    Delivered,
    /// `DROPPED`
    Dropped,
    /// `QUEUED`
    Queued,
    /// `SENT`
    Sent,
    /// Any value not listed here.
    Other,
}

/// `notification.history.Contact`
#[derive(Debug, Clone)]
pub struct HistoryContact {
    pub error: Option<String>,
    pub id: Option<String>,
    pub sent_at: Option<String>,
    pub status: Option<NotificationHistoryContactStatus>,
    pub to: Option<String>,
    /// JSON field `type`.
    pub kind: Option<NotificationContactMeanContactMeanType>,
}

/// `notification.history.NotificationPriorityEnum`
#[derive(Debug, Clone, Copy, PartialEq, Eq)]
pub enum NotificationHistoryNotificationPriority {
    /// `HIGH`
    High,
    /// `LOW`
    Low,
    /// `MEDIUM`
    Medium,
    /// Any value not listed here.
    Other,
}

/// `notification.reference.ReferenceCategory`
#[derive(Debug, Clone)]
pub struct ReferenceReferenceCategory {
    pub description: Option<String>,
    pub name: Option<String>,
}

/// `notification.reference.ReferencePriority`
#[derive(Debug, Clone)]
pub struct ReferenceReferencePriority {
    pub description: Option<String>,
    pub name: Option<NotificationHistoryNotificationPriority>,
}

/// `notification.reference.Reference`
#[derive(Debug, Clone)]
pub struct ReferenceReference {
    pub categories: Option<Vec<ReferenceReferenceCategory>>,
    pub priorities: Option<Vec<ReferenceReferencePriority>>,
}

/// `notification.routing.RuleCondition`
#[derive(Debug, Clone)]
pub struct RoutingRuleCondition {
    pub category: Option<Vec<String>>,
    pub priority: Option<Vec<String>>,
}

/// `notification.routing.RuleContactMean`
#[derive(Debug, Clone)]
pub struct RoutingRuleContactMean {
    pub email: Option<String>,
    pub error: Option<String>,
    pub id: String,
    pub status: Option<NotificationContactMeanStatus>,
    /// JSON field `type`.
    pub kind: Option<NotificationContactMeanType>,
}

/// `notification.routing.Rule`
#[derive(Debug, Clone)]
pub struct RoutingRule {
    pub condition: RoutingRuleCondition,
    pub contact_means: Vec<RoutingRuleContactMean>,
    pub continue_: bool,
}

/// `notification.routing.PostInput`
#[derive(Debug, Clone)]
pub struct RoutingPostInput {
    pub active: bool,
    pub name: String,
    pub rules: Vec<RoutingRule>,
}

/// `notification.routing.Routing`
#[derive(Debug, Clone)]
pub struct RoutingRouting {
    pub active: Option<bool>,
    pub created_at: Option<String>,
    pub id: Option<String>,
    pub name: Option<String>,
    pub rules: Option<Vec<RoutingRule>>,
}

} // verus!
