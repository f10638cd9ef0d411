//! OVHcloud API v2 **iam** types (`/v2/iam`).
//!
//! Data types of these endpoints; field and value names follow the API,
//! with the JSON name noted where it differs.

use vstd::prelude::*;

verus! {

/// `dbaas.logs.LogKind`
#[derive(Debug, Clone)]
pub struct LogsLogKind {
    pub additional_returned_fields: Option<Vec<String>>,
    pub created_at: Option<String>,
    pub display_name: Option<String>,
    pub kind_id: Option<String>,
    pub name: Option<String>,
    pub updated_at: Option<String>,
}

/// `dbaas.logs.LogSubscriptionResource`
#[derive(Debug, Clone)]
pub struct LogsLogSubscriptionResource {
    pub name: Option<String>,
    /// JSON field `type`.
    pub kind: Option<String>,
}

/// `dbaas.logs.LogSubscription`
#[derive(Debug, Clone)]
pub struct LogsLogSubscription {
    pub created_at: Option<String>,
    pub kind: Option<String>,
    pub resource: Option<LogsLogSubscriptionResource>,
    pub service_name: Option<String>,
    pub stream_id: Option<String>,
    pub subscription_id: Option<String>,
    pub updated_at: Option<String>,
}

/// `dbaas.logs.LogSubscriptionCreation`
#[derive(Debug, Clone)]
pub struct LogsLogSubscriptionCreation {
    pub kind: String,
    pub stream_id: String,
}

/// `dbaas.logs.LogSubscriptionResponse`
#[derive(Debug, Clone)]
pub struct LogsLogSubscriptionResponse {
    pub operation_id: Option<String>,
    pub service_name: Option<String>,
}

/// `dbaas.logs.LogUrlCreation`
#[derive(Debug, Clone)]
pub struct LogsLogUrlCreation {
    pub kind: String,
}

/// `dbaas.logs.TemporaryLogsLink`
#[derive(Debug, Clone)]
pub struct LogsTemporaryLogsLink {
    pub expiration_date: Option<String>,
    pub url: Option<String>,
}

/// `iam.AuthorizeBatchRequest`
#[derive(Debug, Clone)]
pub struct AuthorizeBatchRequest {
    pub actions: Vec<String>,
    pub resource_urns: Vec<String>,
}

/// `iam.AuthorizeBatchResponse`
#[derive(Debug, Clone)]
pub struct AuthorizeBatchResponse {
    pub authorized_actions: Option<Vec<String>>,
    pub resource_urn: Option<String>,
    pub unauthorized_actions: Option<Vec<String>>,
}

/// `iam.AuthorizeRequest`
#[derive(Debug, Clone)]
pub struct AuthorizeRequest {
    pub actions: Vec<String>,
}

/// `iam.AuthorizeResponse`
#[derive(Debug, Clone)]
pub struct AuthorizeResponse {
    pub authorized_actions: Option<Vec<String>>,
    pub unauthorized_actions: Option<Vec<String>>,
}

/// `iam.policy.Action`
#[derive(Debug, Clone)]
pub struct PolicyAction {
    pub action: String,
}

/// `iam.policy.Permissions`
#[derive(Debug, Clone)]
pub struct PolicyPermissions {
    pub allow: Option<Vec<PolicyAction>>,
    pub deny: Option<Vec<PolicyAction>>,
    pub except: Option<Vec<PolicyAction>>,
}

/// `iam.PermissionsGroup`
#[derive(Debug, Clone)]
pub struct PermissionsGroup {
    pub created_at: Option<String>,
    pub description: String,
    pub id: Option<String>,
    pub name: String,
    pub owner: Option<String>,
    pub permissions: PolicyPermissions,
    pub updated_at: Option<String>,
    pub urn: Option<String>,
}

/// `iam.policy.Condition.OperatorEnum`
#[derive(Debug, Clone, Copy, PartialEq, Eq)]
pub enum IamPolicyConditionOperator {
    /// `AND`
    And,
    /// `MATCH`
    Match,
    /// `NOT`
    Not,
    /// `OR`
    Or,
    /// Any value not listed here.
    Other,
}

/// `iam.policy.PermissionsGroup`
#[derive(Debug, Clone)]
pub struct PolicyPermissionsGroup {
    pub name: Option<String>,
    pub owner: Option<String>,
    pub permissions: Option<PolicyPermissions>,
    pub urn: Option<String>,
}

/// `iam.policy.Group`
#[derive(Debug, Clone)]
pub struct PolicyGroup {
    pub id: Option<String>,
    pub name: Option<String>,
    pub read_only: Option<bool>,
}

/// `iam.policy.conditions.CombinatorOperatorContract`
#[derive(Debug, Clone)]
pub struct PolicyConditionsCombinatorOperatorContract {
    pub conditions: Option<bool>,
    pub max_conditions: Option<String>,
    pub min_conditions: Option<String>,
    pub values: Option<bool>,
}

/// `iam.policy.conditions.CombinatorOperator`
#[derive(Debug, Clone)]
pub struct PolicyConditionsCombinatorOperator {
    pub contract: Option<PolicyConditionsCombinatorOperatorContract>,
    pub description: Option<String>,
    pub operator_name: Option<IamPolicyConditionOperator>,
}

/// `iam.policy.conditions.ComparatorOperatorFunctionDefinition`
#[derive(Debug, Clone)]
pub struct PolicyConditionsComparatorOperatorFunctionDefinition {
    pub function_name: Option<String>,
    pub max_args: Option<String>,
    pub min_args: Option<String>,
}

/// `iam.policy.conditions.ComparatorOperator`
#[derive(Debug, Clone)]
pub struct PolicyConditionsComparatorOperator {
    pub description: Option<String>,
    pub example: Option<String>,
    pub function_definitions: Option<Vec<PolicyConditionsComparatorOperatorFunctionDefinition>>,
    pub key: Option<String>,
    pub matching_values_format: Option<String>,
    pub parameter_type: Option<String>,
    pub template: Option<String>,
}

/// `iam.policy.conditions.Schema`
#[derive(Debug, Clone)]
pub struct PolicyConditionsSchema {
    pub combinator: Option<Vec<PolicyConditionsCombinatorOperator>>,
    pub comparator: Option<Vec<PolicyConditionsComparatorOperator>>,
}

/// `iam.reference.Action`
#[derive(Debug, Clone)]
pub struct ReferenceAction {
    pub action: Option<String>,
    pub categories: Option<Vec<String>>,
    pub description: Option<String>,
    pub has_query_parameters: Option<bool>,
    pub resource_type: Option<String>,
}

/// `iam.resource.AddTag`
#[derive(Debug, Clone)]
pub struct ResourceAddTag {
    pub key: String,
    pub value: String,
}

/// `iam.resource.TagFilter.OperatorEnum`
#[derive(Debug, Clone, Copy, PartialEq, Eq)]
pub enum IamResourceTagFilterOperator {
    /// `EQ`
    Eq,
    /// `EXISTS`
    Exists,
    /// `ILIKE`
    Ilike,
    /// `LIKE`
    Like,
    /// `NEQ`
    Neq,
    /// `NEXISTS`
    Nexists,
    /// Any value not listed here.
    Other,
}

/// `iam.resource.TagFilter`
#[derive(Debug, Clone)]
pub struct ResourceTagFilter {
    pub operator: Option<IamResourceTagFilterOperator>,
    pub value: Option<String>,
}

} // verus!
