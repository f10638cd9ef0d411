//! OVHcloud API v2 **vmwareCloudDirector** types (`/v2/vmwareCloudDirector`).
//!
//! Data types of these endpoints; field and value names follow the API,
//! with the JSON name noted where it differs.

use vstd::prelude::*;

verus! {

/// `common.CurrentTaskStatusEnum`
#[derive(Debug, Clone, Copy, PartialEq, Eq)]
pub enum CommonCurrentTaskStatus {
    /// `ERROR`
    Error,
    /// `PENDING`
    Pending,
    /// `RUNNING`
    Running,
    /// `SCHEDULED`
    Scheduled,
    /// `WAITING_USER_INPUT`
    WaitingUserInput,
    /// Any value not listed here.
    Other,
}

/// `common.TaskError`
#[derive(Debug, Clone)]
pub struct TaskError {
    pub message: Option<String>,
}

/// `common.CurrentTask`
#[derive(Debug, Clone)]
pub struct CurrentTask {
    pub errors: Option<Vec<TaskError>>,
    pub id: Option<String>,
    pub link: Option<String>,
    pub status: Option<CommonCurrentTaskStatus>,
    /// JSON field `type`.
    pub kind: Option<String>,
}

/// `common.EventTypeEnum`
#[derive(Debug, Clone, Copy, PartialEq, Eq)]
pub enum CommonEventType {
    /// `TARGET_SPEC_UPDATE`
    TargetSpecUpdate,
    /// `TASK_ERROR`
    TaskError,
    /// `TASK_START`
    TaskStart,
    /// `TASK_SUCCESS`
    TaskSuccess,
    /// Any value not listed here.
    Other,
}

/// `common.Event`
#[derive(Debug, Clone)]
pub struct Event {
    pub created_at: Option<String>,
    pub kind: Option<String>,
    pub link: Option<String>,
    pub message: Option<String>,
    /// JSON field `type`.
    pub event_type: Option<CommonEventType>,
}

/// `common.ResourceStatusEnum`
#[derive(Debug, Clone, Copy, PartialEq, Eq)]
pub enum CommonResourceStatus {
    /// `CREATING`
    Creating,
    /// `DELETING`
    Deleting,
    /// `ERROR`
    Error,
    /// `OUT_OF_SYNC`
    OutOfSync,
    /// `READY`
    Ready,
    /// `SUSPENDED`
    Suspended,
    /// `UNKNOWN`
    UnknownValue,
    /// `UPDATING`
    Updating,
    /// Any value not listed here.
    Other,
}

/// `common.TaskStatusEnum`
#[derive(Debug, Clone, Copy, PartialEq, Eq)]
pub enum CommonTaskStatus {
    /// `DONE`
    Done,
    /// `ERROR`
    Error,
    /// `PENDING`
    Pending,
    /// `RUNNING`
    Running,
    /// `SCHEDULED`
    Scheduled,
    /// `WAITING_USER_INPUT`
    WaitingUserInput,
    /// Any value not listed here.
    Other,
}

/// `common.TaskProgress`
#[derive(Debug, Clone)]
pub struct TaskProgress {
    pub name: Option<String>,
    pub status: Option<CommonTaskStatus>,
}

/// `common.Task`
#[derive(Debug, Clone)]
pub struct Task {
    pub created_at: Option<String>,
    pub errors: Option<Vec<TaskError>>,
    pub finished_at: Option<String>,
    pub id: Option<String>,
    pub link: Option<String>,
    pub message: Option<String>,
    pub progress: Option<Vec<TaskProgress>>,
    pub started_at: Option<String>,
    pub status: Option<CommonTaskStatus>,
    /// JSON field `type`.
    pub kind: Option<String>,
    pub updated_at: Option<String>,
}

/// `iam.resource.TagFilter.OperatorEnum`
#[derive(Debug, Clone, Copy, PartialEq, Eq)]
pub enum IamResourceTagFilterOperator {
    /// `EQ`
    Eq,
    /// `EXISTS`
    Exists,
    /// `ILIKE`
    Ilike,
    /// `LIKE`
    Like,
    /// `NEQ`
    Neq,
    /// `NEXISTS`
    Nexists,
    /// Any value not listed here.
    Other,
}

/// `iam.resource.TagFilter`
#[derive(Debug, Clone)]
pub struct ResourceTagFilter {
    pub operator: Option<IamResourceTagFilterOperator>,
    pub value: Option<String>,
}

/// `vmwareCloudDirector.AZNameEnum`
#[derive(Debug, Clone, Copy, PartialEq, Eq)]
pub enum VmwareCloudDirectorAZName {
    /// `ca-east-bhs-a`
    CaEastBhsA,
    /// `eu-central-waw-a`
    EuCentralWawA,
    /// `eu-west-eri-a`
    EuWestEriA,
    /// `eu-west-lim-a`
    EuWestLimA,
    /// `eu-west-rbx-a`
    EuWestRbxA,
    /// `eu-west-sbg-a`
    EuWestSbgA,
    /// Any value not listed here.
    Other,
}

/// `vmwareCloudDirector.BackupOfferNameEnum`
#[derive(Debug, Clone, Copy, PartialEq, Eq)]
pub enum VmwareCloudDirectorBackupOfferName {
    /// `BRONZE`
    Bronze,
    /// `GOLD`
    Gold,
    /// `SILVER`
    Silver,
    /// Any value not listed here.
    Other,
}

/// `vmwareCloudDirector.BackupResourceStatusEnum`
#[derive(Debug, Clone, Copy, PartialEq, Eq)]
pub enum VmwareCloudDirectorBackupResourceStatus {
    /// `CREATING`
    Creating,
    /// `DISABLED`
    Disabled,
    /// `DISABLING`
    Disabling,
    /// `READY`
    Ready,
    /// `REMOVED`
    Removed,
    /// `REMOVING`
    Removing,
    /// `UPDATING`
    Updating,
    /// Any value not listed here.
    Other,
}

/// `vmwareCloudDirector.BillingTypeEnum`
#[derive(Debug, Clone, Copy, PartialEq, Eq)]
pub enum VmwareCloudDirectorBillingType {
    /// `DEMO`
    Demo,
    /// `MONTHLY`
    Monthly,
    /// Any value not listed here.
    Other,
}

/// `vmwareCloudDirector.CommercialRangeEnum`
#[derive(Debug, Clone, Copy, PartialEq, Eq)]
pub enum VmwareCloudDirectorCommercialRange {
    /// `NSX`
    Nsx,
    /// `STANDARD`
    Standard,
    /// `VSAN-NSX`
    VsanNsx,
    /// Any value not listed here.
    Other,
}

/// `vmwareCloudDirector.compute.CurrentState`
#[derive(Debug, Clone)]
pub struct ComputeCurrentState {
    pub billing_type: Option<VmwareCloudDirectorBillingType>,
    pub memory_quota: Option<i64>,
    pub name: Option<String>,
    pub profile: Option<String>,
    pub v_cpucount: Option<i64>,
}

/// `vmwareCloudDirector.Compute`
#[derive(Debug, Clone)]
pub struct Compute {
    pub current_state: Option<ComputeCurrentState>,
    pub current_tasks: Option<Vec<CurrentTask>>,
    pub id: Option<String>,
    pub resource_status: Option<CommonResourceStatus>,
    pub updated_at: Option<String>,
}

/// `vmwareCloudDirector.networkAcl.Rule`
#[derive(Debug, Clone)]
pub struct NetworkAclRule {
    pub name: String,
    pub network: String,
}

/// `vmwareCloudDirector.networkAcl.CurrentState`
#[derive(Debug, Clone)]
pub struct NetworkAclCurrentState {
    pub networks: Option<Vec<NetworkAclRule>>,
}

/// `vmwareCloudDirector.networkAcl.TargetSpec`
#[derive(Debug, Clone)]
pub struct NetworkAclTargetSpec {
    pub networks: Vec<NetworkAclRule>,
}

/// `vmwareCloudDirector.NetworkAcl`
#[derive(Debug, Clone)]
pub struct NetworkAcl {
    pub current_state: Option<NetworkAclCurrentState>,
    pub current_tasks: Option<Vec<CurrentTask>>,
    pub id: Option<String>,
    pub resource_status: Option<CommonResourceStatus>,
    pub target_spec: Option<NetworkAclTargetSpec>,
    pub updated_at: Option<String>,
}

/// `vmwareCloudDirector.orderableResource.Storage`
#[derive(Debug, Clone)]
pub struct OrderableResourceStorage {
    pub capacity: Option<i64>,
    pub name: Option<String>,
    pub performance_class: Option<i64>,
    pub profile: Option<String>,
    /// JSON field `type`.
    pub kind: Option<String>,
}

/// `vmwareCloudDirector.RegionNameEnum`
#[derive(Debug, Clone, Copy, PartialEq, Eq)]
pub enum VmwareCloudDirectorRegionName {
    /// `ap-south-mum`
    ApSouthMum,
    /// `ap-southeast-sgp`
    ApSoutheastSgp,
    /// `ap-southeast-syd`
    ApSoutheastSyd,
    /// `ca-east-bhs`
    CaEastBhs,
    /// `ca-east-tor`
    CaEastTor,
    /// `eu-central-waw`
    EuCentralWaw,
    /// `eu-west-eri`
    EuWestEri,
    /// `eu-west-gra`
    EuWestGra,
    /// `eu-west-lim`
    EuWestLim,
    /// `eu-west-par`
    EuWestPar,
    /// `eu-west-rbx`
    EuWestRbx,
    /// `eu-west-sbg`
    EuWestSbg,
    /// `us-east-vin`
    UsEastVin,
    /// `us-west-hil`
    UsWestHil,
    /// Any value not listed here.
    Other,
}

/// `vmwareCloudDirector.organization.TargetSpec`
#[derive(Debug, Clone)]
pub struct OrganizationTargetSpec {
    pub description: Option<String>,
    pub full_name: String,
}

/// `vmwareCloudDirector.RegionLocationEnum`
#[derive(Debug, Clone, Copy, PartialEq, Eq)]
pub enum VmwareCloudDirectorRegionLocation {
    /// `Asia Pacific (Australia - Sydney)`
    AsiaPacificAustraliaSydney,
    /// `Asia Pacific (Singapore -Singapore)`
    AsiaPacificSingaporeSingapore,
    /// `Europe (France - Gravelines)`
    EuropeFranceGravelines,
    /// `Europe (France - Paris)`
    EuropeFranceParis,
    /// `Europe (France - Roubaix)`
    EuropeFranceRoubaix,
    /// `Europe (France - Strasbourg)`
    EuropeFranceStrasbourg,
    /// `Europe (Germany - Limburg)`
    EuropeGermanyLimburg,
    /// `Europe (Poland - Warsaw)`
    EuropePolandWarsaw,
    /// `Europe (United Kingdom - Erith)`
    EuropeUnitedKingdomErith,
    /// `North America (Canada - East - Beauharnois)`
    NorthAmericaCanadaEastBeauharnois,
    /// `North America (US - East - Vinthill)`
    NorthAmericaUsEastVinthill,
    /// `North America (US - West - Hillsboro)`
    NorthAmericaUsWestHillsboro,
    /// Any value not listed here.
    Other,
}

/// `vmwareCloudDirector.Region`
#[derive(Debug, Clone)]
pub struct Region {
    pub location: Option<VmwareCloudDirectorRegionLocation>,
    pub region: Option<VmwareCloudDirectorRegionName>,
}

/// `vmwareCloudDirector.storage.CurrentState`
#[derive(Debug, Clone)]
pub struct StorageCurrentState {
    pub billing_type: Option<VmwareCloudDirectorBillingType>,
    pub capacity: Option<i64>,
    pub name: Option<String>,
    pub profile: Option<String>,
    /// JSON field `type`.
    pub kind: Option<String>,
}

/// `vmwareCloudDirector.Storage`
#[derive(Debug, Clone)]
pub struct Storage {
    pub current_state: Option<StorageCurrentState>,
    pub current_tasks: Option<Vec<CurrentTask>>,
    pub id: Option<String>,
    pub resource_status: Option<CommonResourceStatus>,
    pub updated_at: Option<String>,
}

/// `vmwareCloudDirector.VrackSegmentModeEnum`
#[derive(Debug, Clone, Copy, PartialEq, Eq)]
pub enum VmwareCloudDirectorVrackSegmentMode {
    /// `NSX_EDGE_GATEWAY`
    NsxEdgeGateway,
    /// `TAGGED`
    Tagged,
    /// `TRUNK`
    Trunk,
    /// `UNTAGGED`
    Untagged,
    /// Any value not listed here.
    Other,
}

/// `vmwareCloudDirector.VrackSegmentTypeEnum`
#[derive(Debug, Clone, Copy, PartialEq, Eq)]
pub enum VmwareCloudDirectorVrackSegmentType {
    /// `DEFAULT`
    Default,
    /// `MIGRATED`
    Migrated,
    /// Any value not listed here.
    Other,
}

/// `vmwareCloudDirector.vrackSegment.CurrentState`
#[derive(Debug, Clone)]
pub struct VrackSegmentCurrentState {
    pub mode: Option<VmwareCloudDirectorVrackSegmentMode>,
    pub networks: Option<Vec<String>>,
    /// JSON field `type`.
    pub kind: Option<VmwareCloudDirectorVrackSegmentType>,
    pub vlan_id: Option<String>,
}

/// `vmwareCloudDirector.vrackSegment.TargetSpec`
#[derive(Debug, Clone)]
pub struct VrackSegmentTargetSpec {
    pub mode: VmwareCloudDirectorVrackSegmentMode,
    pub networks: Vec<String>,
    pub vlan_id: String,
}

/// `vmwareCloudDirector.VrackSegment`
#[derive(Debug, Clone)]
pub struct VrackSegment {
    pub current_state: Option<VrackSegmentCurrentState>,
    pub current_tasks: Option<Vec<CurrentTask>>,
    pub id: Option<String>,
    pub resource_status: Option<CommonResourceStatus>,
    pub target_spec: Option<VrackSegmentTargetSpec>,
    pub updated_at: Option<String>,
}

/// `vmwareCloudDirector.backup.TargetOffer`
#[derive(Debug, Clone)]
pub struct BackupTargetOffer {
    pub name: VmwareCloudDirectorBackupOfferName,
    pub quota_in_tb: i64,
}

/// `vmwareCloudDirector.backup.TargetSpec`
#[derive(Debug, Clone)]
pub struct BackupTargetSpec {
    pub offers: Vec<BackupTargetOffer>,
}

/// `vmwareCloudDirector.backup.backupDetails.Update`
#[derive(Debug, Clone)]
pub struct BackupBackupDetailsUpdate {
    pub target_spec: BackupTargetSpec,
}

/// `vmwareCloudDirector.networkAcl.Update`
#[derive(Debug, Clone)]
pub struct NetworkAclUpdate {
    pub target_spec: NetworkAclTargetSpec,
}

/// `vmwareCloudDirector.organization.Update`
#[derive(Debug, Clone)]
pub struct OrganizationUpdate {
    pub target_spec: OrganizationTargetSpec,
}

/// `vmwareCloudDirector.vrackSegment.Update`
#[derive(Debug, Clone)]
pub struct VrackSegmentUpdate {
    pub target_spec: VrackSegmentTargetSpec,
}

} // verus!
