//! OVHcloud API v2 **zimbra** types (`/v2/zimbra`).
//!
//! Data types of these endpoints; field and value names follow the API,
//! with the JSON name noted where it differs.

use vstd::prelude::*;

verus! {

/// `common.CurrentTaskStatusEnum`
#[derive(Debug, Clone, Copy, PartialEq, Eq)]
pub enum CommonCurrentTaskStatus {
    /// `ERROR`
    Error,
    /// `PENDING`
    Pending,
    /// `RUNNING`
    Running,
    /// `SCHEDULED`
    Scheduled,
    /// `WAITING_USER_INPUT`
    WaitingUserInput,
    /// Any value not listed here.
    Other,
}

/// `common.TaskError`
#[derive(Debug, Clone)]
pub struct TaskError {
    pub message: Option<String>,
}

/// `common.CurrentTask`
#[derive(Debug, Clone)]
pub struct CurrentTask {
    pub errors: Option<Vec<TaskError>>,
    pub id: Option<String>,
    pub link: Option<String>,
    pub status: Option<CommonCurrentTaskStatus>,
    /// JSON field `type`.
    pub kind: Option<String>,
}

/// `common.EventTypeEnum`
#[derive(Debug, Clone, Copy, PartialEq, Eq)]
pub enum CommonEventType {
    /// `TARGET_SPEC_UPDATE`
    TargetSpecUpdate,
    /// `TASK_ERROR`
    TaskError,
    /// `TASK_START`
    TaskStart,
    /// `TASK_SUCCESS`
    TaskSuccess,
    /// Any value not listed here.
    Other,
}

/// `common.Event`
#[derive(Debug, Clone)]
pub struct Event {
    pub created_at: Option<String>,
    pub kind: Option<String>,
    pub link: Option<String>,
    pub message: Option<String>,
    /// JSON field `type`.
    pub event_type: Option<CommonEventType>,
}

/// `common.ResourceStatusEnum`
#[derive(Debug, Clone, Copy, PartialEq, Eq)]
pub enum CommonResourceStatus {
    /// `CREATING`
    Creating,
    /// `DELETING`
    Deleting,
    /// `ERROR`
    Error,
    /// `OUT_OF_SYNC`
    OutOfSync,
    /// `READY`
    Ready,
    /// `SUSPENDED`
    Suspended,
    /// `UNKNOWN`
    UnknownValue,
    /// `UPDATING`
    Updating,
    /// Any value not listed here.
    Other,
}

/// `common.TaskStatusEnum`
#[derive(Debug, Clone, Copy, PartialEq, Eq)]
pub enum CommonTaskStatus {
    /// `DONE`
    Done,
    /// `ERROR`
    Error,
    /// `PENDING`
    Pending,
    /// `RUNNING`
    Running,
    /// `SCHEDULED`
    Scheduled,
    /// `WAITING_USER_INPUT`
    WaitingUserInput,
    /// Any value not listed here.
    Other,
}

/// `common.TaskProgress`
#[derive(Debug, Clone)]
pub struct TaskProgress {
    pub name: Option<String>,
    pub status: Option<CommonTaskStatus>,
}

/// `common.Task`
#[derive(Debug, Clone)]
pub struct Task {
    pub created_at: Option<String>,
    pub errors: Option<Vec<TaskError>>,
    pub finished_at: Option<String>,
    pub id: Option<String>,
    pub link: Option<String>,
    pub message: Option<String>,
    pub progress: Option<Vec<TaskProgress>>,
    pub started_at: Option<String>,
    pub status: Option<CommonTaskStatus>,
    /// JSON field `type`.
    pub kind: Option<String>,
    pub updated_at: Option<String>,
}

/// `iam.resource.TagFilter.OperatorEnum`
#[derive(Debug, Clone, Copy, PartialEq, Eq)]
pub enum IamResourceTagFilterOperator {
    /// `EQ`
    Eq,
    /// `EXISTS`
    Exists,
    /// `ILIKE`
    Ilike,
    /// `LIKE`
    Like,
    /// `NEQ`
    Neq,
    /// `NEXISTS`
    Nexists,
    /// Any value not listed here.
    Other,
}

/// `iam.resource.TagFilter`
#[derive(Debug, Clone)]
pub struct ResourceTagFilter {
    pub operator: Option<IamResourceTagFilterOperator>,
    pub value: Option<String>,
}

/// `zimbra.AccountStatusEnum`
#[derive(Debug, Clone, Copy, PartialEq, Eq)]
pub enum ZimbraAccountStatus {
    /// `BILLINGLOCKED`
    Billinglocked,
    /// `BLOCKEDFORSPAM`
    Blockedforspam,
    /// Any value not listed here.
    Other,
}

/// `zimbra.AccountDetailedStatus`
#[derive(Debug, Clone)]
pub struct AccountDetailedStatus {
    pub details: Option<String>,
    pub link: Option<String>,
    pub status: Option<ZimbraAccountStatus>,
}

/// `zimbra.ContactInformation`
#[derive(Debug, Clone)]
pub struct ContactInformation {
    pub city: Option<String>,
    pub company: Option<String>,
    pub country: Option<String>,
    pub fax_number: Option<String>,
    pub mobile_number: Option<String>,
    pub office: Option<String>,
    pub phone_number: Option<String>,
    pub postcode: Option<String>,
    pub profession: Option<String>,
    pub service: Option<String>,
    pub street: Option<String>,
}

/// `zimbra.OfferEnum`
#[derive(Debug, Clone, Copy, PartialEq, Eq)]
pub enum ZimbraOffer {
    /// `PRO`
    Pro,
    /// `STARTER`
    Starter,
    /// Any value not listed here.
    Other,
}

/// `zimbra.AccountTargetSpec`
#[derive(Debug, Clone)]
pub struct AccountTargetSpec {
    pub contact_information: Option<ContactInformation>,
    pub description: Option<String>,
    pub display_name: Option<String>,
    pub email: Option<String>,
    pub first_name: Option<String>,
    pub hide_in_gal: Option<bool>,
    pub last_name: Option<String>,
    pub quota_refreshed_at: Option<String>,
}

/// `zimbra.AliasSource`
#[derive(Debug, Clone)]
pub struct AliasSource {
    pub domain_id: Option<String>,
    pub name: Option<String>,
    pub organization_id: Option<String>,
    pub organization_label: Option<String>,
}

/// `zimbra.AliasTypeEnum`
#[derive(Debug, Clone, Copy, PartialEq, Eq)]
pub enum ZimbraAliasType {
    /// `ACCOUNT`
    Account,
    /// `MAILING_LIST`
    MailingList,
    /// Any value not listed here.
    Other,
}

/// `zimbra.AliasTarget`
#[derive(Debug, Clone)]
pub struct AliasTarget {
    pub domain_id: Option<String>,
    pub id: Option<String>,
    /// JSON field `type`.
    pub kind: Option<ZimbraAliasType>,
}

/// `zimbra.Alias`
#[derive(Debug, Clone)]
pub struct Alias {
    pub alias: Option<AliasSource>,
    pub target: Option<AliasTarget>,
}

/// `zimbra.AliasBase`
#[derive(Debug, Clone)]
pub struct AliasBase {
    pub alias: String,
    pub target_id: String,
}

/// `zimbra.AliasPostPayload`
#[derive(Debug, Clone)]
pub struct AliasPostPayload {
    pub target_spec: AliasBase,
}

/// `zimbra.AliasResponse`
#[derive(Debug, Clone)]
pub struct AliasResponse {
    pub checksum: Option<String>,
    pub current_state: Option<Alias>,
    pub current_tasks: Option<Vec<CurrentTask>>,
    pub id: Option<String>,
    pub resource_status: Option<CommonResourceStatus>,
    pub target_spec: Option<AliasBase>,
}

/// `zimbra.BillingStatusEnum`
#[derive(Debug, Clone, Copy, PartialEq, Eq)]
pub enum ZimbraBillingStatus {
    /// `CREATING`
    Creating,
    /// `DELETED`
    Deleted,
    /// `DELETING`
    Deleting,
    /// `OK`
    StatusOk,
    /// `REOPENING`
    Reopening,
    /// `SUSPENDED`
    Suspended,
    /// `SUSPENDING`
    Suspending,
    /// `UPDATING`
    Updating,
    /// Any value not listed here.
    Other,
}

/// `zimbra.CName`
#[derive(Debug, Clone)]
pub struct CName {
    pub name: Option<String>,
    pub value: Option<String>,
}

/// `zimbra.DKIMSelectors`
#[derive(Debug, Clone)]
pub struct DKIMSelectors {
    pub cnames: Option<Vec<CName>>,
}

/// `zimbra.DNSOwnership`
#[derive(Debug, Clone)]
pub struct DNSOwnership {
    pub cname: Option<String>,
}

/// `zimbra.DomainStatusEnum`
#[derive(Debug, Clone, Copy, PartialEq, Eq)]
pub enum ZimbraDomainStatus {
    /// `READY`
    Ready,
    /// Any value not listed here.
    Other,
}

/// `zimbra.MXRecord`
#[derive(Debug, Clone)]
pub struct MXRecord {
    pub priority: Option<i64>,
    pub target: Option<String>,
}

/// `zimbra.ExpectedDNSConfig`
#[derive(Debug, Clone)]
pub struct ExpectedDNSConfig {
    pub autodiscover: Option<String>,
    pub dkim: Option<DKIMSelectors>,
    pub mx: Option<Vec<MXRecord>>,
    pub ownership: Option<DNSOwnership>,
    pub spf: Option<String>,
}

/// `zimbra.OfferStatistics`
#[derive(Debug, Clone)]
pub struct OfferStatistics {
    pub available_accounts_count: Option<i64>,
    pub configured_accounts_count: Option<i64>,
    pub offer: Option<ZimbraOffer>,
}

/// `zimbra.DomainCurrentState`
#[derive(Debug, Clone)]
pub struct DomainCurrentState {
    pub accounts_statistics: Option<Vec<OfferStatistics>>,
    pub created_at: Option<String>,
    pub expected_dnsconfig: Option<ExpectedDNSConfig>,
    pub name: Option<String>,
    pub organization_id: Option<String>,
    pub organization_label: Option<String>,
    pub status: Option<ZimbraDomainStatus>,
    pub updated_at: Option<String>,
}

/// `zimbra.DomainDiagnosisErrorCodeEnum`
#[derive(Debug, Clone, Copy, PartialEq, Eq)]
pub enum ZimbraDomainDiagnosisErrorCode {
    /// `BAD_CONFIGURATION`
    BadConfiguration,
    /// `DOMAIN_IN_TRANSIENT_STATE`
    DomainInTransientState,
    /// `DOMAIN_NOT_FOUND`
    DomainNotFound,
    /// `DOMAIN_NOT_VALIDATED`
    DomainNotValidated,
    /// `INTERNAL_ERROR`
    InternalError,
    /// Any value not listed here.
    Other,
}

/// `zimbra.DomainDiagnosisError`
#[derive(Debug, Clone)]
pub struct DomainDiagnosisError {
    pub code: Option<ZimbraDomainDiagnosisErrorCode>,
    pub message: Option<String>,
}

/// `zimbra.DomainDiagnosisPostPayload`
#[derive(Debug, Clone)]
pub struct DomainDiagnosisPostPayload {
    pub domains: Vec<String>,
}

/// `zimbra.DomainDiagnosisRecommendations`
#[derive(Debug, Clone)]
pub struct DomainDiagnosisRecommendations {
    pub expected_dnsconfig: Option<ExpectedDNSConfig>,
}

/// `zimbra.DomainDiagnosisTestAutodiscoverErrorCodeEnum`
#[derive(Debug, Clone, Copy, PartialEq, Eq)]
pub enum ZimbraDomainDiagnosisTestAutodiscoverErrorCode {
    /// `INCORRECT_SRV_RECORD`
    IncorrectSrvRecord,
    /// `INTERNAL_ERROR`
    InternalError,
    /// `MULTIPLE_SRV_RECORDS`
    MultipleSrvRecords,
    /// `NO_SRV_RECORD`
    NoSrvRecord,
    /// `TASK_FAILED`
    TaskFailed,
    /// `TASK_RUNNING`
    TaskRunning,
    /// Any value not listed here.
    Other,
}

/// `zimbra.DomainDiagnosisTestAutodiscoverError`
#[derive(Debug, Clone)]
pub struct DomainDiagnosisTestAutodiscoverError {
    pub code: Option<ZimbraDomainDiagnosisTestAutodiscoverErrorCode>,
    pub message: Option<String>,
}

/// `zimbra.DomainDiagnosisTestStatusEnum`
#[derive(Debug, Clone, Copy, PartialEq, Eq)]
pub enum ZimbraDomainDiagnosisTestStatus {
    /// `ERROR`
    Error,
    /// `OK`
    StatusOk,
    /// `WARNING`
    Warning,
    /// Any value not listed here.
    Other,
}

/// `zimbra.DomainDiagnosisTestAutodiscoverResult`
#[derive(Debug, Clone)]
pub struct DomainDiagnosisTestAutodiscoverResult {
    pub errors: Option<Vec<DomainDiagnosisTestAutodiscoverError>>,
    pub records_found: Option<Vec<String>>,
    pub status: Option<ZimbraDomainDiagnosisTestStatus>,
}

/// `zimbra.DomainDiagnosisTestDKIMErrorCodeEnum`
#[derive(Debug, Clone, Copy, PartialEq, Eq)]
pub enum ZimbraDomainDiagnosisTestDKIMErrorCode {
    /// `DKIM_DISABLED`
    DkimDisabled,
    /// `INCORRECT_CNAME_RECORD`
    IncorrectCnameRecord,
    /// `INTERNAL_ERROR`
    InternalError,
    /// `MISSING_ONE_SELECTOR`
    MissingOneSelector,
    /// `OVH_NOT_INCLUDED`
    OvhNotIncluded,
    /// `TASK_FAILED`
    TaskFailed,
    /// `TASK_RUNNING`
    TaskRunning,
    /// Any value not listed here.
    Other,
}

/// `zimbra.DomainDiagnosisTestDKIMError`
#[derive(Debug, Clone)]
pub struct DomainDiagnosisTestDKIMError {
    pub code: Option<ZimbraDomainDiagnosisTestDKIMErrorCode>,
    pub message: Option<String>,
}

/// `zimbra.DomainDiagnosisTestDKIMResult`
#[derive(Debug, Clone)]
pub struct DomainDiagnosisTestDKIMResult {
    pub errors: Option<Vec<DomainDiagnosisTestDKIMError>>,
    pub records_found: Option<Vec<CName>>,
    pub status: Option<ZimbraDomainDiagnosisTestStatus>,
}

/// `zimbra.DomainDiagnosisTestMXErrorCodeEnum`
#[derive(Debug, Clone, Copy, PartialEq, Eq)]
pub enum ZimbraDomainDiagnosisTestMXErrorCode {
    /// `EXTERNAL_MX_RECORD`
    ExternalMxRecord,
    /// `INTERNAL_ERROR`
    InternalError,
    /// `MISSING_OVH_SERVER`
    MissingOvhServer,
    /// `NO_MX_RECORD`
    NoMxRecord,
    /// `OVH_MX_LOW_PRIORITY`
    OvhMxLowPriority,
    /// Any value not listed here.
    Other,
}

/// `zimbra.DomainDiagnosisTestMXError`
#[derive(Debug, Clone)]
pub struct DomainDiagnosisTestMXError {
    pub code: Option<ZimbraDomainDiagnosisTestMXErrorCode>,
    pub message: Option<String>,
}

/// `zimbra.DomainDiagnosisTestMXResult`
#[derive(Debug, Clone)]
pub struct DomainDiagnosisTestMXResult {
    pub errors: Option<Vec<DomainDiagnosisTestMXError>>,
    pub records_found: Option<Vec<MXRecord>>,
    pub status: Option<ZimbraDomainDiagnosisTestStatus>,
}

/// `zimbra.DomainDiagnosisTestSPFErrorCodeEnum`
#[derive(Debug, Clone, Copy, PartialEq, Eq)]
pub enum ZimbraDomainDiagnosisTestSPFErrorCode {
    /// `DANGEROUS_SPF_POLICY`
    DangerousSpfPolicy,
    /// `INTERNAL_ERROR`
    InternalError,
    /// `INVALID_SPF_RECORD`
    InvalidSpfRecord,
    /// `MISSING_OVH_SERVER`
    MissingOvhServer,
    /// `MISSING_SPF_POLICY`
    MissingSpfPolicy,
    /// `MULTIPLE_SPF_RECORDS`
    MultipleSpfRecords,
    /// `NOT_RECOMMENDED_SPF_POLICY`
    NotRecommendedSpfPolicy,
    /// `NO_SPF_RECORD`
    NoSpfRecord,
    /// Any value not listed here.
    Other,
}

/// `zimbra.DomainDiagnosisTestSPFError`
#[derive(Debug, Clone)]
pub struct DomainDiagnosisTestSPFError {
    pub code: Option<ZimbraDomainDiagnosisTestSPFErrorCode>,
    pub message: Option<String>,
}

/// `zimbra.DomainDiagnosisTestSPFResult`
#[derive(Debug, Clone)]
pub struct DomainDiagnosisTestSPFResult {
    pub errors: Option<Vec<DomainDiagnosisTestSPFError>>,
    pub records_found: Option<Vec<String>>,
    pub status: Option<ZimbraDomainDiagnosisTestStatus>,
}

/// `zimbra.DomainDiagnosisResult`
#[derive(Debug, Clone)]
pub struct DomainDiagnosisResult {
    pub autodiscover: Option<DomainDiagnosisTestAutodiscoverResult>,
    pub dkim: Option<DomainDiagnosisTestDKIMResult>,
    pub mx: Option<DomainDiagnosisTestMXResult>,
    pub spf: Option<DomainDiagnosisTestSPFResult>,
}

/// `zimbra.DomainDiagnosisStatusEnum`
#[derive(Debug, Clone, Copy, PartialEq, Eq)]
pub enum ZimbraDomainDiagnosisStatus {
    /// `ERROR`
    Error,
    /// `OK`
    StatusOk,
    /// `PARTIAL`
    Partial,
    /// Any value not listed here.
    Other,
}

/// `zimbra.DomainDiagnosisResponse`
#[derive(Debug, Clone)]
pub struct DomainDiagnosisResponse {
    pub domain_id: Option<String>,
    pub domain_name: Option<String>,
    pub error: Option<DomainDiagnosisError>,
    pub is_external: Option<bool>,
    pub recommendations: Option<DomainDiagnosisRecommendations>,
    pub result: Option<DomainDiagnosisResult>,
    pub status: Option<ZimbraDomainDiagnosisStatus>,
}

/// `zimbra.DomainPostTargetSpec`
#[derive(Debug, Clone)]
pub struct DomainPostTargetSpec {
    pub auto_configure_autodiscover: Option<bool>,
    pub auto_configure_dkim: bool,
    pub auto_configure_mx: bool,
    pub auto_configure_spf: bool,
    pub name: String,
    pub organization_id: String,
}

/// `zimbra.DomainPostPayload`
#[derive(Debug, Clone)]
pub struct DomainPostPayload {
    pub target_spec: DomainPostTargetSpec,
}

/// `zimbra.DomainPutTargetSpec`
#[derive(Debug, Clone)]
pub struct DomainPutTargetSpec {
    pub dkim_enabled: Option<bool>,
    pub organization_id: Option<String>,
}

/// `zimbra.DomainPutPayload`
#[derive(Debug, Clone)]
pub struct DomainPutPayload {
    pub checksum: Option<String>,
    pub target_spec: DomainPutTargetSpec,
}

/// `zimbra.DomainResponseTargetSpec`
#[derive(Debug, Clone)]
pub struct DomainResponseTargetSpec {
    pub dkim_enabled: Option<bool>,
    pub organization_id: Option<String>,
}

/// `zimbra.DomainResponse`
#[derive(Debug, Clone)]
pub struct DomainResponse {
    pub checksum: Option<String>,
    pub current_state: Option<DomainCurrentState>,
    pub current_tasks: Option<Vec<CurrentTask>>,
    pub id: Option<String>,
    pub resource_status: Option<CommonResourceStatus>,
    pub target_spec: Option<DomainResponseTargetSpec>,
}

/// `zimbra.MailingList`
#[derive(Debug, Clone)]
pub struct MailingList {
    pub default_reply_to: Option<String>,
    pub email: Option<String>,
    pub language: Option<String>,
    pub members: Option<Vec<String>>,
    pub moderation_option: Option<String>,
    pub organization_id: Option<String>,
    pub organization_label: Option<String>,
    pub owner: Option<String>,
}

/// `zimbra.MailingListBase`
#[derive(Debug, Clone)]
pub struct MailingListBase {
    pub default_reply_to: Option<String>,
    pub email: Option<String>,
    pub language: Option<String>,
    pub members: Option<Vec<String>>,
    pub moderation_option: Option<String>,
    pub organization_id: Option<String>,
    pub owner: Option<String>,
}

/// `zimbra.MailingListPostPayload`
#[derive(Debug, Clone)]
pub struct MailingListPostPayload {
    pub target_spec: MailingListBase,
}

/// `zimbra.MailingListPutPayload`
#[derive(Debug, Clone)]
pub struct MailingListPutPayload {
    pub checksum: Option<String>,
    pub target_spec: Option<MailingListBase>,
}

/// `zimbra.MailingListResponse`
#[derive(Debug, Clone)]
pub struct MailingListResponse {
    pub checksum: Option<String>,
    pub current_state: Option<MailingList>,
    pub current_tasks: Option<Vec<CurrentTask>>,
    pub id: Option<String>,
    pub resource_status: Option<CommonResourceStatus>,
    pub target_spec: Option<MailingList>,
}

/// `zimbra.OrganizationPostTargetSpec`
#[derive(Debug, Clone)]
pub struct OrganizationPostTargetSpec {
    pub description: Option<String>,
    pub label: String,
    pub name: String,
}

/// `zimbra.OrganizationPostPayload`
#[derive(Debug, Clone)]
pub struct OrganizationPostPayload {
    pub target_spec: OrganizationPostTargetSpec,
}

/// `zimbra.OrganizationPutTargetSpec`
#[derive(Debug, Clone)]
pub struct OrganizationPutTargetSpec {
    pub description: Option<String>,
    pub label: Option<String>,
    pub name: Option<String>,
}

/// `zimbra.OrganizationPutPayload`
#[derive(Debug, Clone)]
pub struct OrganizationPutPayload {
    pub checksum: Option<String>,
    pub target_spec: OrganizationPutTargetSpec,
}

/// `zimbra.PlatformPostTargetSpec`
#[derive(Debug, Clone)]
pub struct PlatformPostTargetSpec {
    pub description: String,
    pub name: String,
}

/// `zimbra.PlatformPostPayload`
#[derive(Debug, Clone)]
pub struct PlatformPostPayload {
    pub target_spec: PlatformPostTargetSpec,
}

/// `zimbra.PlatformPutTargetSpec`
#[derive(Debug, Clone)]
pub struct PlatformPutTargetSpec {
    pub description: Option<String>,
    pub name: Option<String>,
}

/// `zimbra.PlatformPutPayload`
#[derive(Debug, Clone)]
pub struct PlatformPutPayload {
    pub checksum: Option<String>,
    pub target_spec: PlatformPutTargetSpec,
}

/// `zimbra.Project`
#[derive(Debug, Clone)]
pub struct Project {
    pub description: Option<String>,
    pub name: Option<String>,
    pub number_of_platforms: Option<i64>,
    pub total_storage: Option<i64>,
}

/// `zimbra.ProjectResponse`
#[derive(Debug, Clone)]
pub struct ProjectResponse {
    pub checksum: Option<String>,
    pub current_state: Option<Project>,
    pub current_tasks: Option<Vec<CurrentTask>>,
    pub id: Option<String>,
    pub resource_status: Option<CommonResourceStatus>,
    pub target_spec: Option<Project>,
}

/// `zimbra.Redirection`
#[derive(Debug, Clone)]
pub struct Redirection {
    pub created_at: Option<String>,
    pub destination: Option<String>,
    pub domain_id: Option<String>,
    pub organization_id: Option<String>,
    pub organization_label: Option<String>,
    pub source: Option<String>,
    pub updated_at: Option<String>,
}

/// `zimbra.RedirectionBase`
#[derive(Debug, Clone)]
pub struct RedirectionBase {
    pub destination: String,
    pub source: String,
}

/// `zimbra.RedirectionPostPayload`
#[derive(Debug, Clone)]
pub struct RedirectionPostPayload {
    pub target_spec: RedirectionBase,
}

/// `zimbra.RedirectionResponse`
#[derive(Debug, Clone)]
pub struct RedirectionResponse {
    pub checksum: Option<String>,
    pub current_state: Option<Redirection>,
    pub current_tasks: Option<Vec<CurrentTask>>,
    pub id: Option<String>,
    pub resource_status: Option<CommonResourceStatus>,
    pub target_spec: Option<RedirectionBase>,
}

/// `zimbra.SlotCurrentState`
#[derive(Debug, Clone)]
pub struct SlotCurrentState {
    pub account_id: Option<String>,
    pub billing_status: Option<ZimbraBillingStatus>,
    pub created_at: Option<String>,
    pub domain_promotion_link: Option<String>,
    pub email: Option<String>,
    pub offer: Option<ZimbraOffer>,
    pub platform_id: Option<String>,
}

/// `zimbra.SlotResponse`
#[derive(Debug, Clone)]
pub struct SlotResponse {
    pub checksum: Option<String>,
    pub current_state: Option<SlotCurrentState>,
    pub current_tasks: Option<Vec<CurrentTask>>,
    pub id: Option<String>,
    pub resource_status: Option<CommonResourceStatus>,
}

} // verus!
