//! OVHcloud API v2 **webhosting** types (`/v2/webhosting`).
//!
//! Data types of these endpoints; field and value names follow the API,
//! with the JSON name noted where it differs.

use vstd::prelude::*;

verus! {

/// `common.CurrentTaskStatusEnum`
#[derive(Debug, Clone, Copy, PartialEq, Eq)]
pub enum CommonCurrentTaskStatus {
    /// `ERROR`
    Error,
    /// `PENDING`
    Pending,
    /// `RUNNING`
    Running,
    /// `SCHEDULED`
    Scheduled,
    /// `WAITING_USER_INPUT`
    WaitingUserInput,
    /// Any value not listed here.
    Other,
}

/// `common.TaskError`
#[derive(Debug, Clone)]
pub struct TaskError {
    pub message: Option<String>,
}

/// `common.CurrentTask`
#[derive(Debug, Clone)]
pub struct CurrentTask {
    pub errors: Option<Vec<TaskError>>,
    pub id: Option<String>,
    pub link: Option<String>,
    pub status: Option<CommonCurrentTaskStatus>,
    /// JSON field `type`.
    pub kind: Option<String>,
}

/// `common.ResourceStatusEnum`
#[derive(Debug, Clone, Copy, PartialEq, Eq)]
pub enum CommonResourceStatus {
    /// `CREATING`
    Creating,
    /// `DELETING`
    Deleting,
    /// `ERROR`
    Error,
    /// `OUT_OF_SYNC`
    OutOfSync,
    /// `READY`
    Ready,
    /// `SUSPENDED`
    Suspended,
    /// `UNKNOWN`
    UnknownValue,
    /// `UPDATING`
    Updating,
    /// Any value not listed here.
    Other,
}

/// `iam.resource.TagFilter.OperatorEnum`
#[derive(Debug, Clone, Copy, PartialEq, Eq)]
pub enum IamResourceTagFilterOperator {
    /// `EQ`
    Eq,
    /// `EXISTS`
    Exists,
    /// `ILIKE`
    Ilike,
    /// `LIKE`
    Like,
    /// `NEQ`
    Neq,
    /// `NEXISTS`
    Nexists,
    /// Any value not listed here.
    Other,
}

/// `iam.resource.TagFilter`
#[derive(Debug, Clone)]
pub struct ResourceTagFilter {
    pub operator: Option<IamResourceTagFilterOperator>,
    pub value: Option<String>,
}

/// `webhosting.AttachedDomainHosting`
#[derive(Debug, Clone)]
pub struct AttachedDomainHosting {
    pub boost_offer: Option<String>,
    pub display_name: Option<String>,
    pub offer: Option<String>,
    pub service_name: Option<String>,
}

/// `webhosting.SslStatusEnum`
#[derive(Debug, Clone, Copy, PartialEq, Eq)]
pub enum WebhostingSslStatus {
    /// `ACTIVE`
    Active,
    /// `NONE`
    NoValue,
    /// Any value not listed here.
    Other,
}

/// `webhosting.AttachedDomainSsl`
#[derive(Debug, Clone)]
pub struct AttachedDomainSsl {
    pub status: Option<WebhostingSslStatus>,
}

/// `webhosting.CdnStatusEnum`
#[derive(Debug, Clone, Copy, PartialEq, Eq)]
pub enum WebhostingCdnStatus {
    /// `ACTIVE`
    Active,
    /// `NONE`
    NoValue,
    /// Any value not listed here.
    Other,
}

/// `webhosting.CdnStatus`
#[derive(Debug, Clone)]
pub struct CdnStatus {
    pub status: WebhostingCdnStatus,
}

/// `webhosting.FirewallStatusEnum`
#[derive(Debug, Clone, Copy, PartialEq, Eq)]
pub enum WebhostingFirewallStatus {
    /// `ACTIVE`
    Active,
    /// `NONE`
    NoValue,
    /// Any value not listed here.
    Other,
}

/// `webhosting.FirewallStatus`
#[derive(Debug, Clone)]
pub struct FirewallStatus {
    pub status: WebhostingFirewallStatus,
}

/// `webhosting.GitStatusEnum`
#[derive(Debug, Clone, Copy, PartialEq, Eq)]
pub enum WebhostingGitStatus {
    /// `CREATED`
    Created,
    /// `CREATING`
    Creating,
    /// `DELETING`
    Deleting,
    /// `DEPLOYING`
    Deploying,
    /// `DISABLED`
    Disabled,
    /// `ERROR`
    Error,
    /// `INITIAL_ERROR`
    InitialError,
    /// Any value not listed here.
    Other,
}

/// `webhosting.Git`
#[derive(Debug, Clone)]
pub struct Git {
    pub status: Option<WebhostingGitStatus>,
    pub vcs_branch: Option<String>,
    pub vcs_url: Option<String>,
}

/// `webhosting.AttachedDomainCurrentState`
#[derive(Debug, Clone)]
pub struct AttachedDomainCurrentState {
    pub cdn: Option<CdnStatus>,
    pub firewall: Option<FirewallStatus>,
    pub fqdn: Option<String>,
    pub git: Option<Git>,
    pub hosting: Option<AttachedDomainHosting>,
    pub is_default: Option<bool>,
    pub own_log: Option<String>,
    pub path: Option<String>,
    pub ssl: Option<AttachedDomainSsl>,
}

/// `webhosting.AttachedDomain`
#[derive(Debug, Clone)]
pub struct AttachedDomain {
    pub checksum: Option<String>,
    pub current_state: Option<AttachedDomainCurrentState>,
    pub current_tasks: Option<Vec<CurrentTask>>,
    pub id: Option<String>,
    pub resource_status: Option<CommonResourceStatus>,
}

/// `webhosting.DatabaseConfiguration`
#[derive(Debug, Clone)]
pub struct DatabaseConfiguration {
    pub database_name: String,
    pub password: String,
    pub port: i64,
    pub server: String,
    pub user: String,
}

/// `webhosting.DomainCurrentState`
#[derive(Debug, Clone)]
pub struct DomainCurrentState {
    pub cdn: Option<CdnStatus>,
    pub firewall: Option<FirewallStatus>,
    pub fqdn: Option<String>,
    pub path: Option<String>,
    pub website_id: Option<String>,
}

/// `webhosting.Domain`
#[derive(Debug, Clone)]
pub struct Domain {
    pub checksum: Option<String>,
    pub current_state: Option<DomainCurrentState>,
    pub current_tasks: Option<Vec<CurrentTask>>,
    pub id: Option<String>,
    pub resource_status: Option<CommonResourceStatus>,
}

/// `webhosting.IpLocationCountryEnum`
#[derive(Debug, Clone, Copy, PartialEq, Eq)]
pub enum WebhostingIpLocationCountry {
    /// `BE`
    Be,
    /// `CA`
    Ca,
    /// `CZ`
    Cz,
    /// `DE`
    De,
    /// `ES`
    Es,
    /// `FI`
    Fi,
    /// `FR`
    Fr,
    /// `IE`
    Ie,
    /// `IT`
    It,
    /// `LT`
    Lt,
    /// `NL`
    Nl,
    /// `PL`
    Pl,
    /// `PT`
    Pt,
    /// `UK`
    Uk,
    /// Any value not listed here.
    Other,
}

/// `webhosting.ModuleNameEnum`
#[derive(Debug, Clone, Copy, PartialEq, Eq)]
pub enum WebhostingModuleName {
    /// `DRUPAL`
    Drupal,
    /// `JOOMLA`
    Joomla,
    /// `PRESTASHOP`
    Prestashop,
    /// `WORDPRESS`
    Wordpress,
    /// Any value not listed here.
    Other,
}

/// `webhosting.Module`
#[derive(Debug, Clone)]
pub struct Module {
    pub name: WebhostingModuleName,
}

/// `webhosting.ModuleLanguageEnum`
#[derive(Debug, Clone, Copy, PartialEq, Eq)]
pub enum WebhostingModuleLanguage {
    /// `cz`
    Cz,
    /// `de`
    De,
    /// `en`
    En,
    /// `es`
    Es,
    /// `fi`
    Fi,
    /// `fr`
    Fr,
    /// `it`
    It,
    /// `lt`
    Lt,
    /// `nl`
    Nl,
    /// `pl`
    Pl,
    /// `pt`
    Pt,
    /// Any value not listed here.
    Other,
}

/// `webhosting.ModuleAdminConfiguration`
#[derive(Debug, Clone)]
pub struct ModuleAdminConfiguration {
    pub admin_login: String,
    pub admin_password: String,
    pub domain: String,
    pub install_path: Option<String>,
    pub language: WebhostingModuleLanguage,
}

/// `webhosting.ModuleStatus`
#[derive(Debug, Clone)]
pub struct ModuleStatus {
    pub enabled: Option<bool>,
}

/// `webhosting.SSLCertificateTypeEnum`
#[derive(Debug, Clone, Copy, PartialEq, Eq)]
pub enum WebhostingSSLCertificateType {
    /// `COMODO`
    Comodo,
    /// `CUSTOM`
    Custom,
    /// `LETSENCRYPT`
    Letsencrypt,
    /// `SECTIGO`
    Sectigo,
    /// Any value not listed here.
    Other,
}

/// `webhosting.SSLStateEnum`
#[derive(Debug, Clone, Copy, PartialEq, Eq)]
pub enum WebhostingSSLState {
    /// `ACTIVE`
    Active,
    /// `CREATING`
    Creating,
    /// `DELETING`
    Deleting,
    /// `EXPIRED`
    Expired,
    /// `IMPORTING`
    Importing,
    /// `REGENERATING`
    Regenerating,
    /// Any value not listed here.
    Other,
}

/// `webhosting.SSLCurrentState`
#[derive(Debug, Clone)]
pub struct SSLCurrentState {
    pub additional_domains: Option<Vec<String>>,
    pub certificate_type: Option<WebhostingSSLCertificateType>,
    pub created_at: Option<String>,
    pub expired_at: Option<String>,
    pub main_domain: Option<String>,
    pub state: Option<WebhostingSSLState>,
}

/// `webhosting.SSL`
#[derive(Debug, Clone)]
pub struct SSL {
    pub checksum: Option<String>,
    pub current_state: Option<SSLCurrentState>,
    pub current_tasks: Option<Vec<CurrentTask>>,
    pub id: Option<String>,
    pub resource_status: Option<CommonResourceStatus>,
}

/// `webhosting.UserSSHStateEnum`
#[derive(Debug, Clone, Copy, PartialEq, Eq)]
pub enum WebhostingUserSSHState {
    /// `ACTIVE`
    Active,
    /// `NONE`
    NoValue,
    /// `SFTP_ONLY`
    SftpOnly,
    /// Any value not listed here.
    Other,
}

/// `webhosting.UserStateEnum`
#[derive(Debug, Clone, Copy, PartialEq, Eq)]
pub enum WebhostingUserState {
    /// `OFF`
    Off,
    /// `RW`
    Rw,
    /// Any value not listed here.
    Other,
}

/// `webhosting.UserCurrentState`
#[derive(Debug, Clone)]
pub struct UserCurrentState {
    pub home: Option<String>,
    pub login: Option<String>,
    pub ssh_state: Option<WebhostingUserSSHState>,
    pub state: Option<WebhostingUserState>,
}

/// `webhosting.UserTargetSpec`
#[derive(Debug, Clone)]
pub struct UserTargetSpec {
    pub home: Option<String>,
    pub ssh_state: Option<WebhostingUserSSHState>,
    pub state: Option<WebhostingUserState>,
}

/// `webhosting.UserPatchTargetSpec`
#[derive(Debug, Clone)]
pub struct UserPatchTargetSpec {
    pub home: Option<String>,
    pub password: Option<String>,
    pub ssh_state: Option<WebhostingUserSSHState>,
    pub state: Option<WebhostingUserState>,
}

/// `webhosting.UserPatchPayload`
#[derive(Debug, Clone)]
pub struct UserPatchPayload {
    pub target_spec: Option<UserPatchTargetSpec>,
}

/// `webhosting.UserPostTargetSpec`
#[derive(Debug, Clone)]
pub struct UserPostTargetSpec {
    pub home: String,
    pub login: String,
    pub password: String,
    pub ssh_state: WebhostingUserSSHState,
}

/// `webhosting.UserPostPayload`
#[derive(Debug, Clone)]
pub struct UserPostPayload {
    pub target_spec: UserPostTargetSpec,
}

/// `webhosting.UserPutTargetSpec`
#[derive(Debug, Clone)]
pub struct UserPutTargetSpec {
    pub home: String,
    pub password: String,
    pub ssh_state: WebhostingUserSSHState,
    pub state: WebhostingUserState,
}

/// `webhosting.UserPutPayload`
#[derive(Debug, Clone)]
pub struct UserPutPayload {
    pub target_spec: UserPutTargetSpec,
}

/// `webhosting.WebCurrentState`
#[derive(Debug, Clone)]
pub struct WebCurrentState {
    pub name: Option<String>,
}

/// `webhosting.Web`
#[derive(Debug, Clone)]
pub struct Web {
    pub checksum: Option<String>,
    pub current_state: Option<WebCurrentState>,
    pub current_tasks: Option<Vec<CurrentTask>>,
    pub id: Option<String>,
    pub resource_status: Option<CommonResourceStatus>,
}

/// `webhosting.WebsiteCurrentState`
#[derive(Debug, Clone)]
pub struct WebsiteCurrentState {
    pub git: Option<Git>,
    pub linked_domains: Option<i64>,
    pub module: Option<ModuleStatus>,
    pub name: Option<String>,
    pub path: Option<String>,
}

/// `webhosting.WebsiteTargetSpec`
#[derive(Debug, Clone)]
pub struct WebsiteTargetSpec {
    pub name: String,
    pub path: Option<String>,
}

/// `webhosting.Website`
#[derive(Debug, Clone)]
pub struct Website {
    pub checksum: Option<String>,
    pub current_state: Option<WebsiteCurrentState>,
    pub current_tasks: Option<Vec<CurrentTask>>,
    pub id: Option<String>,
    pub resource_status: Option<CommonResourceStatus>,
    pub target_spec: Option<WebsiteTargetSpec>,
}

/// `webhosting.WebsitePostTargetSpec`
#[derive(Debug, Clone)]
pub struct WebsitePostTargetSpec {
    pub admin_configuration: Option<ModuleAdminConfiguration>,
    pub bypass_dnsconfiguration: Option<bool>,
    pub cdn: Option<CdnStatus>,
    pub database_configuration: Option<DatabaseConfiguration>,
    pub firewall: Option<FirewallStatus>,
    pub fqdn: String,
    pub ip_location: Option<WebhostingIpLocationCountry>,
    pub module: Option<Module>,
    pub name: String,
    pub path: Option<String>,
}

/// `webhosting.WebsitePostPayload`
#[derive(Debug, Clone)]
pub struct WebsitePostPayload {
    pub target_spec: WebsitePostTargetSpec,
}

/// `webhosting.WebsitePutPayload`
#[derive(Debug, Clone)]
pub struct WebsitePutPayload {
    pub target_spec: WebsiteTargetSpec,
}

} // verus!
