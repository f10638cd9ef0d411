//! OVHcloud API v2 **managedCMS** types (`/v2/managedCMS`).
//!
//! Data types of these endpoints; field and value names follow the API,
//! with the JSON name noted where it differs.

use vstd::prelude::*;

verus! {

/// `common.CurrentTaskStatusEnum`
#[derive(Debug, Clone, Copy, PartialEq, Eq)]
pub enum CommonCurrentTaskStatus {
    /// `ERROR`
    Error,
    /// `PENDING`
    Pending,
    /// `RUNNING`
    Running,
    /// `SCHEDULED`
    Scheduled,
    /// `WAITING_USER_INPUT`
    WaitingUserInput,
    /// Any value not listed here.
    Other,
}

/// `common.TaskError`
#[derive(Debug, Clone)]
pub struct TaskError {
    pub message: Option<String>,
}

/// `common.CurrentTask`
#[derive(Debug, Clone)]
pub struct CurrentTask {
    pub errors: Option<Vec<TaskError>>,
    pub id: Option<String>,
    pub link: Option<String>,
    pub status: Option<CommonCurrentTaskStatus>,
    /// JSON field `type`.
    pub kind: Option<String>,
}

/// `common.ResourceStatusEnum`
#[derive(Debug, Clone, Copy, PartialEq, Eq)]
pub enum CommonResourceStatus {
    /// `CREATING`
    Creating,
    /// `DELETING`
    Deleting,
    /// `ERROR`
    Error,
    /// `OUT_OF_SYNC`
    OutOfSync,
    /// `READY`
    Ready,
    /// `SUSPENDED`
    Suspended,
    /// `UNKNOWN`
    UnknownValue,
    /// `UPDATING`
    Updating,
    /// Any value not listed here.
    Other,
}

/// `common.TaskStatusEnum`
#[derive(Debug, Clone, Copy, PartialEq, Eq)]
pub enum CommonTaskStatus {
    /// `DONE`
    Done,
    /// `ERROR`
    Error,
    /// `PENDING`
    Pending,
    /// `RUNNING`
    Running,
    /// `SCHEDULED`
    Scheduled,
    /// `WAITING_USER_INPUT`
    WaitingUserInput,
    /// Any value not listed here.
    Other,
}

/// `common.TaskProgress`
#[derive(Debug, Clone)]
pub struct TaskProgress {
    pub name: Option<String>,
    pub status: Option<CommonTaskStatus>,
}

/// `common.Task`
#[derive(Debug, Clone)]
pub struct Task {
    pub created_at: Option<String>,
    pub errors: Option<Vec<TaskError>>,
    pub finished_at: Option<String>,
    pub id: Option<String>,
    pub link: Option<String>,
    pub message: Option<String>,
    pub progress: Option<Vec<TaskProgress>>,
    pub started_at: Option<String>,
    pub status: Option<CommonTaskStatus>,
    /// JSON field `type`.
    pub kind: Option<String>,
    pub updated_at: Option<String>,
}

/// `dbaas.logs.LogKind`
#[derive(Debug, Clone)]
pub struct LogsLogKind {
    pub additional_returned_fields: Option<Vec<String>>,
    pub created_at: Option<String>,
    pub display_name: Option<String>,
    pub kind_id: Option<String>,
    pub name: Option<String>,
    pub updated_at: Option<String>,
}

/// `dbaas.logs.LogSubscriptionResource`
#[derive(Debug, Clone)]
pub struct LogsLogSubscriptionResource {
    pub name: Option<String>,
    /// JSON field `type`.
    pub kind: Option<String>,
}

/// `dbaas.logs.LogSubscription`
#[derive(Debug, Clone)]
pub struct LogsLogSubscription {
    pub created_at: Option<String>,
    pub kind: Option<String>,
    pub resource: Option<LogsLogSubscriptionResource>,
    pub service_name: Option<String>,
    pub stream_id: Option<String>,
    pub subscription_id: Option<String>,
    pub updated_at: Option<String>,
}

/// `dbaas.logs.LogSubscriptionCreation`
#[derive(Debug, Clone)]
pub struct LogsLogSubscriptionCreation {
    pub kind: String,
    pub stream_id: String,
}

/// `dbaas.logs.LogSubscriptionResponse`
#[derive(Debug, Clone)]
pub struct LogsLogSubscriptionResponse {
    pub operation_id: Option<String>,
    pub service_name: Option<String>,
}

/// `dbaas.logs.LogUrlCreation`
#[derive(Debug, Clone)]
pub struct LogsLogUrlCreation {
    pub kind: String,
}

/// `dbaas.logs.TemporaryLogsLink`
#[derive(Debug, Clone)]
pub struct LogsTemporaryLogsLink {
    pub expiration_date: Option<String>,
    pub url: Option<String>,
}

/// `iam.resource.TagFilter.OperatorEnum`
#[derive(Debug, Clone, Copy, PartialEq, Eq)]
pub enum IamResourceTagFilterOperator {
    /// `EQ`
    Eq,
    /// `EXISTS`
    Exists,
    /// `ILIKE`
    Ilike,
    /// `LIKE`
    Like,
    /// `NEQ`
    Neq,
    /// `NEXISTS`
    Nexists,
    /// Any value not listed here.
    Other,
}

/// `iam.resource.TagFilter`
#[derive(Debug, Clone)]
pub struct ResourceTagFilter {
    pub operator: Option<IamResourceTagFilterOperator>,
    pub value: Option<String>,
}

/// `managedCMS.CMSEnum`
#[derive(Debug, Clone, Copy, PartialEq, Eq)]
pub enum ManagedCMSCMS {
    /// `WORDPRESS`
    Wordpress,
    /// Any value not listed here.
    Other,
}

/// `managedCMS.CMSSpecific.WordPress.LanguageEnum`
#[derive(Debug, Clone, Copy, PartialEq, Eq)]
pub enum ManagedCMSCMSSpecificWordPressLanguage {
    /// `de_DE`
    DeDe,
    /// `en_GB`
    EnGb,
    /// `en_US`
    EnUs,
    /// `es_ES`
    EsEs,
    /// `fr_CA`
    FrCa,
    /// `fr_FR`
    FrFr,
    /// `it_IT`
    ItIt,
    /// `pl_PL`
    PlPl,
    /// `pt_PT`
    PtPt,
    /// Any value not listed here.
    Other,
}

/// `managedCMS.CMSSpecific.WordPress.WebsiteCreationTargetSpecCreation`
#[derive(Debug, Clone)]
pub struct CMSSpecificWordPressWebsiteCreationTargetSpecCreation {
    pub language: Option<ManagedCMSCMSSpecificWordPressLanguage>,
}

/// `managedCMS.CMSSpecific.WebsiteCreationTargetSpecCreation`
#[derive(Debug, Clone)]
pub struct CMSSpecificWebsiteCreationTargetSpecCreation {
    pub wordpress: Option<CMSSpecificWordPressWebsiteCreationTargetSpecCreation>,
}

/// `managedCMS.CMSSpecific.WordPress.WebsiteImportPlugin`
#[derive(Debug, Clone)]
pub struct CMSSpecificWordPressWebsiteImportPlugin {
    pub enabled: Option<bool>,
    pub name: Option<String>,
    pub version: Option<String>,
}

/// `managedCMS.CMSSpecific.WordPress.WebsiteImportTheme`
#[derive(Debug, Clone)]
pub struct CMSSpecificWordPressWebsiteImportTheme {
    pub active: Option<bool>,
    pub name: Option<String>,
    pub version: Option<String>,
}

/// `managedCMS.CMSSpecific.WordPress.WebsiteImportCheckResult`
#[derive(Debug, Clone)]
pub struct CMSSpecificWordPressWebsiteImportCheckResult {
    pub plugins: Option<Vec<CMSSpecificWordPressWebsiteImportPlugin>>,
    pub themes: Option<Vec<CMSSpecificWordPressWebsiteImportTheme>>,
}

/// `managedCMS.CMSSpecific.WebsiteImportCheckResult`
#[derive(Debug, Clone)]
pub struct CMSSpecificWebsiteImportCheckResult {
    pub wordpress: Option<CMSSpecificWordPressWebsiteImportCheckResult>,
}

/// `managedCMS.CMSSpecific.WordPress.WebsiteTargetSpecCreation`
#[derive(Debug, Clone)]
pub struct CMSSpecificWordPressWebsiteTargetSpecCreation {
    pub language: Option<ManagedCMSCMSSpecificWordPressLanguage>,
}

/// `managedCMS.CMSSpecific.WebsiteTargetSpecCreation`
#[derive(Debug, Clone)]
pub struct CMSSpecificWebsiteTargetSpecCreation {
    pub wordpress: Option<CMSSpecificWordPressWebsiteTargetSpecCreation>,
}

/// `managedCMS.CMSSpecific.WordPress.WebsiteImportSelection`
#[derive(Debug, Clone)]
pub struct CMSSpecificWordPressWebsiteImportSelection {
    pub comments: Option<bool>,
    pub media: Option<bool>,
    pub pages: Option<bool>,
    pub plugins: Option<Vec<CMSSpecificWordPressWebsiteImportPlugin>>,
    pub posts: Option<bool>,
    pub tags: Option<bool>,
    pub themes: Option<Vec<CMSSpecificWordPressWebsiteImportTheme>>,
    pub users: Option<bool>,
    pub whole_database: Option<bool>,
}

/// `managedCMS.CMSSpecific.WordPress.WebsiteTargetSpecImport`
#[derive(Debug, Clone)]
pub struct CMSSpecificWordPressWebsiteTargetSpecImport {
    pub selection: Option<CMSSpecificWordPressWebsiteImportSelection>,
}

/// `managedCMS.CMSSpecific.WebsiteTargetSpecImport`
#[derive(Debug, Clone)]
pub struct CMSSpecificWebsiteTargetSpecImport {
    pub wordpress: Option<CMSSpecificWordPressWebsiteTargetSpecImport>,
}

/// `managedCMS.Domain`
#[derive(Debug, Clone)]
pub struct Domain {
    pub fqdn: Option<String>,
}

/// `managedCMS.LanguageEnum`
#[derive(Debug, Clone, Copy, PartialEq, Eq)]
pub enum ManagedCMSLanguage {
    /// `de_DE`
    DeDe,
    /// `en_GB`
    EnGb,
    /// `en_US`
    EnUs,
    /// `es_ES`
    EsEs,
    /// `fr_CA`
    FrCa,
    /// `fr_FR`
    FrFr,
    /// `it_IT`
    ItIt,
    /// `pl_PL`
    PlPl,
    /// `pt_PT`
    PtPt,
    /// Any value not listed here.
    Other,
}

/// `managedCMS.Language`
#[derive(Debug, Clone)]
pub struct Language {
    pub code: Option<ManagedCMSLanguage>,
    pub name: Option<String>,
}

/// `managedCMS.PHPVersionEnum`
#[derive(Debug, Clone, Copy, PartialEq, Eq)]
pub enum ManagedCMSPHPVersion {
    /// `7.4`
    V74,
    /// `8.1`
    V81,
    /// `8.2`
    V82,
    /// `8.3`
    V83,
    /// `8.4`
    V84,
    /// `8.5`
    V85,
    /// Any value not listed here.
    Other,
}

/// `managedCMS.ServiceDashboards`
#[derive(Debug, Clone)]
pub struct ServiceDashboards {
    pub wordpress: Option<String>,
}

/// `managedCMS.ServiceDiskQuota`
#[derive(Debug, Clone)]
pub struct ServiceDiskQuota {
    pub additional_quota_bytes: Option<i64>,
    pub plan_quota_bytes: Option<i64>,
    pub total_quota_bytes: Option<i64>,
    pub total_usage_bytes: Option<i64>,
}

/// `managedCMS.VisitsBoost`
#[derive(Debug, Clone)]
pub struct VisitsBoost {
    pub created_at: Option<String>,
    pub current_amount: Option<i64>,
    pub expires_at: Option<String>,
    pub initial_amount: Option<i64>,
}

/// `managedCMS.ServiceVisitsQuota`
#[derive(Debug, Clone)]
pub struct ServiceVisitsQuota {
    pub boosts: Option<Vec<VisitsBoost>>,
    pub plan_quota: Option<i64>,
    pub total_additional_quota: Option<i64>,
    pub total_quota: Option<i64>,
    pub total_usage: Option<i64>,
}

/// `managedCMS.ServiceWebsitesQuota`
#[derive(Debug, Clone)]
pub struct ServiceWebsitesQuota {
    pub additional_quota: Option<i64>,
    pub plan_quota: Option<i64>,
    pub total_quota: Option<i64>,
    pub total_usage: Option<i64>,
}

/// `managedCMS.ServiceQuotas`
#[derive(Debug, Clone)]
pub struct ServiceQuotas {
    pub disk: Option<ServiceDiskQuota>,
    pub visits: Option<ServiceVisitsQuota>,
    pub websites: Option<ServiceWebsitesQuota>,
}

/// `managedCMS.ServiceEditionTargetSpec`
#[derive(Debug, Clone)]
pub struct ServiceEditionTargetSpec {
    pub flush_cdndate: Option<String>,
}

/// `managedCMS.ServiceEditionBody`
#[derive(Debug, Clone)]
pub struct ServiceEditionBody {
    pub target_spec: Option<ServiceEditionTargetSpec>,
}

/// `managedCMS.TaskInputsEnum`
#[derive(Debug, Clone, Copy, PartialEq, Eq)]
pub enum ManagedCMSTaskInputs {
    /// `import.cmsSpecific.wordpress.selection`
    ImportCmsSpecificWordpressSelection,
    /// Any value not listed here.
    Other,
}

/// `managedCMS.UpdateCurrentStateDryRun`
#[derive(Debug, Clone)]
pub struct UpdateCurrentStateDryRun {
    pub date: Option<String>,
    pub result: Option<String>,
    pub url: Option<String>,
}

/// `managedCMS.UpdateStatusEnum`
#[derive(Debug, Clone, Copy, PartialEq, Eq)]
pub enum ManagedCMSUpdateStatus {
    /// `TEST_DOING`
    TestDoing,
    /// `TEST_DONE`
    TestDone,
    /// `TEST_FAILED`
    TestFailed,
    /// `TEST_IMPOSSIBLE`
    TestImpossible,
    /// `UPDATE_DOING`
    UpdateDoing,
    /// `UPDATE_DONE`
    UpdateDone,
    /// Any value not listed here.
    Other,
}

/// `managedCMS.UpdateCurrentState`
#[derive(Debug, Clone)]
pub struct UpdateCurrentState {
    pub cms_version: Option<String>,
    pub dry_run: Option<UpdateCurrentStateDryRun>,
    pub planned_at: Option<String>,
    pub runtime_version: Option<String>,
    pub status: Option<ManagedCMSUpdateStatus>,
}

/// `managedCMS.UpdateTargetSpecDryRun`
#[derive(Debug, Clone)]
pub struct UpdateTargetSpecDryRun {
    pub date: Option<String>,
}

/// `managedCMS.UpdateTargetSpec`
#[derive(Debug, Clone)]
pub struct UpdateTargetSpec {
    pub cms_version: Option<String>,
    pub dry_run: Option<UpdateTargetSpecDryRun>,
    pub planned_at: Option<String>,
    pub runtime_version: Option<String>,
}

/// `managedCMS.WebsiteImportCheckResult`
#[derive(Debug, Clone)]
pub struct WebsiteImportCheckResult {
    pub cms_specific: Option<CMSSpecificWebsiteImportCheckResult>,
}

/// `managedCMS.WebsiteCurrentStateImport`
#[derive(Debug, Clone)]
pub struct WebsiteCurrentStateImport {
    pub check_result: Option<WebsiteImportCheckResult>,
}

/// `managedCMS.WebsiteCurrentState`
#[derive(Debug, Clone)]
pub struct WebsiteCurrentState {
    pub cms: Option<ManagedCMSCMS>,
    pub cms_version: Option<String>,
    pub created_at: Option<String>,
    pub default_fqdn: Option<String>,
    pub disk_usage_bytes: Option<i64>,
    pub domains: Option<Vec<Domain>>,
    pub import: Option<WebsiteCurrentStateImport>,
    pub php_version: Option<ManagedCMSPHPVersion>,
    pub planned_update: Option<UpdateCurrentState>,
    pub primary_fqdn: Option<String>,
    pub service_id: Option<String>,
}

/// `managedCMS.WebsiteTargetSpecCreation`
#[derive(Debug, Clone)]
pub struct WebsiteTargetSpecCreation {
    pub admin_login: Option<String>,
    pub cms: Option<ManagedCMSCMS>,
    pub cms_specific: Option<CMSSpecificWebsiteTargetSpecCreation>,
    pub php_version: Option<ManagedCMSPHPVersion>,
}

/// `managedCMS.WebsiteTargetSpecImport`
#[derive(Debug, Clone)]
pub struct WebsiteTargetSpecImport {
    pub admin_login: Option<String>,
    pub admin_url: Option<String>,
    pub cms: Option<ManagedCMSCMS>,
    pub cms_specific: Option<CMSSpecificWebsiteTargetSpecImport>,
}

/// `managedCMS.WebsiteTargetSpec`
#[derive(Debug, Clone)]
pub struct WebsiteTargetSpec {
    pub creation: Option<WebsiteTargetSpecCreation>,
    pub import: Option<WebsiteTargetSpecImport>,
    pub planned_update: Option<UpdateTargetSpec>,
}

/// `managedCMS.Website`
#[derive(Debug, Clone)]
pub struct Website {
    pub checksum: Option<String>,
    pub current_state: Option<WebsiteCurrentState>,
    pub current_tasks: Option<Vec<CurrentTask>>,
    pub id: Option<String>,
    pub resource_status: Option<CommonResourceStatus>,
    pub target_spec: Option<WebsiteTargetSpec>,
}

/// `managedCMS.WebsiteEditionTargetSpec`
#[derive(Debug, Clone)]
pub struct WebsiteEditionTargetSpec {
    pub domains: Option<Vec<Domain>>,
    pub flush_cdndate: Option<String>,
    pub planned_update: Option<UpdateTargetSpec>,
    pub primary_fqdn: Option<String>,
    pub reset_database_password_date: Option<String>,
}

/// `managedCMS.WebsiteEditionBody`
#[derive(Debug, Clone)]
pub struct WebsiteEditionBody {
    pub target_spec: Option<WebsiteEditionTargetSpec>,
}

} // verus!
