//! OVHcloud API v2 **publicCloud** types (`/v2/publicCloud`).
//!
//! Data types of these endpoints; field and value names follow the API,
//! with the JSON name noted where it differs.

use vstd::prelude::*;

verus! {

/// `common.CurrentTaskStatusEnum`
#[derive(Debug, Clone, Copy, PartialEq, Eq)]
pub enum CommonCurrentTaskStatus {
    /// `ERROR`
    Error,
    /// `PENDING`
    Pending,
    /// `RUNNING`
    Running,
    /// `SCHEDULED`
    Scheduled,
    /// `WAITING_USER_INPUT`
    WaitingUserInput,
    /// Any value not listed here.
    Other,
}

/// `common.TaskError`
#[derive(Debug, Clone)]
pub struct TaskError {
    pub message: Option<String>,
}

/// `common.CurrentTask`
#[derive(Debug, Clone)]
pub struct CurrentTask {
    pub errors: Option<Vec<TaskError>>,
    pub id: Option<String>,
    pub link: Option<String>,
    pub status: Option<CommonCurrentTaskStatus>,
    /// JSON field `type`.
    pub kind: Option<String>,
}

/// `common.EventTypeEnum`
#[derive(Debug, Clone, Copy, PartialEq, Eq)]
pub enum CommonEventType {
    /// `TARGET_SPEC_UPDATE`
    TargetSpecUpdate,
    /// `TASK_ERROR`
    TaskError,
    /// `TASK_START`
    TaskStart,
    /// `TASK_SUCCESS`
    TaskSuccess,
    /// Any value not listed here.
    Other,
}

/// `common.Event`
#[derive(Debug, Clone)]
pub struct Event {
    pub created_at: Option<String>,
    pub kind: Option<String>,
    pub link: Option<String>,
    pub message: Option<String>,
    /// JSON field `type`.
    pub event_type: Option<CommonEventType>,
}

/// `common.ResourceStatusEnum`
#[derive(Debug, Clone, Copy, PartialEq, Eq)]
pub enum CommonResourceStatus {
    /// `CREATING`
    Creating,
    /// `DELETING`
    Deleting,
    /// `ERROR`
    Error,
    /// `OUT_OF_SYNC`
    OutOfSync,
    /// `READY`
    Ready,
    /// `SUSPENDED`
    Suspended,
    /// `UNKNOWN`
    UnknownValue,
    /// `UPDATING`
    Updating,
    /// Any value not listed here.
    Other,
}

/// `common.TaskStatusEnum`
#[derive(Debug, Clone, Copy, PartialEq, Eq)]
pub enum CommonTaskStatus {
    /// `DONE`
    Done,
    /// `ERROR`
    Error,
    /// `PENDING`
    Pending,
    /// `RUNNING`
    Running,
    /// `SCHEDULED`
    Scheduled,
    /// `WAITING_USER_INPUT`
    WaitingUserInput,
    /// Any value not listed here.
    Other,
}

/// `common.TaskProgress`
#[derive(Debug, Clone)]
pub struct TaskProgress {
    pub name: Option<String>,
    pub status: Option<CommonTaskStatus>,
}

/// `common.Task`
#[derive(Debug, Clone)]
pub struct Task {
    pub created_at: Option<String>,
    pub errors: Option<Vec<TaskError>>,
    pub finished_at: Option<String>,
    pub id: Option<String>,
    pub link: Option<String>,
    pub message: Option<String>,
    pub progress: Option<Vec<TaskProgress>>,
    pub started_at: Option<String>,
    pub status: Option<CommonTaskStatus>,
    /// JSON field `type`.
    pub kind: Option<String>,
    pub updated_at: Option<String>,
}

/// `iam.resource.TagFilter.OperatorEnum`
#[derive(Debug, Clone, Copy, PartialEq, Eq)]
pub enum IamResourceTagFilterOperator {
    /// `EQ`
    Eq,
    /// `EXISTS`
    Exists,
    /// `ILIKE`
    Ilike,
    /// `LIKE`
    Like,
    /// `NEQ`
    Neq,
    /// `NEXISTS`
    Nexists,
    /// Any value not listed here.
    Other,
}

/// `iam.resource.TagFilter`
#[derive(Debug, Clone)]
pub struct ResourceTagFilter {
    pub operator: Option<IamResourceTagFilterOperator>,
    pub value: Option<String>,
}

/// `publicCloud.common.Location`
#[derive(Debug, Clone)]
pub struct CommonLocation {
    pub availability_zone: Option<String>,
    pub region: String,
}

/// `publicCloud.blockStorage.BackupCurrentState`
#[derive(Debug, Clone)]
pub struct BlockStorageBackupCurrentState {
    pub description: Option<String>,
    pub location: Option<CommonLocation>,
    pub name: Option<String>,
    pub size: Option<i64>,
    pub volume_id: Option<String>,
}

/// `publicCloud.blockStorage.BackupTargetSpec`
#[derive(Debug, Clone)]
pub struct BlockStorageBackupTargetSpec {
    pub description: Option<String>,
    pub location: CommonLocation,
    pub name: String,
    pub volume_id: String,
}

/// `publicCloud.blockStorage.Backup`
#[derive(Debug, Clone)]
pub struct BlockStorageBackup {
    pub checksum: Option<String>,
    pub created_at: Option<String>,
    pub current_state: Option<BlockStorageBackupCurrentState>,
    pub current_tasks: Option<Vec<CurrentTask>>,
    pub id: Option<String>,
    pub resource_status: Option<CommonResourceStatus>,
    pub target_spec: Option<BlockStorageBackupTargetSpec>,
    pub updated_at: Option<String>,
}

/// `publicCloud.blockStorage.BackupCreation`
#[derive(Debug, Clone)]
pub struct BlockStorageBackupCreation {
    pub target_spec: BlockStorageBackupTargetSpec,
}

/// `publicCloud.blockStorage.BackupUpdateTargetSpec`
#[derive(Debug, Clone)]
pub struct BlockStorageBackupUpdateTargetSpec {
    pub description: Option<String>,
    pub name: Option<String>,
}

/// `publicCloud.blockStorage.BackupUpdate`
#[derive(Debug, Clone)]
pub struct BlockStorageBackupUpdate {
    pub checksum: String,
    pub target_spec: BlockStorageBackupUpdateTargetSpec,
}

/// `publicCloud.blockStorage.BlockAttachedInstance`
#[derive(Debug, Clone)]
pub struct BlockStorageBlockAttachedInstance {
    pub id: Option<String>,
}

/// `publicCloud.blockStorage.BlockEncryption`
#[derive(Debug, Clone)]
pub struct BlockStorageBlockEncryption {
    pub enabled: bool,
}

/// `publicCloud.blockStorage.BlockLocation`
#[derive(Debug, Clone)]
pub struct BlockStorageBlockLocation {
    pub availability_zone: Option<String>,
    pub region: String,
}

/// `publicCloud.blockStorage.VolumeStatusEnum`
#[derive(Debug, Clone, Copy, PartialEq, Eq)]
pub enum PublicCloudBlockStorageVolumeStatus {
    /// `ATTACHING`
    Attaching,
    /// `AVAILABLE`
    Available,
    /// `CREATING`
    Creating,
    /// `DELETING`
    Deleting,
    /// `DETACHING`
    Detaching,
    /// `DOWNLOADING`
    Downloading,
    /// `ERROR`
    Error,
    /// `ERROR_BACKING_UP`
    ErrorBackingUp,
    /// `ERROR_DELETING`
    ErrorDeleting,
    /// `ERROR_EXTENDING`
    ErrorExtending,
    /// `ERROR_RESTORING`
    ErrorRestoring,
    /// `EXTENDING`
    Extending,
    /// `IN_USE`
    InUse,
    /// `RETYPING`
    Retyping,
    /// Any value not listed here.
    Other,
}

/// `publicCloud.blockStorage.VolumeTypeEnum`
#[derive(Debug, Clone, Copy, PartialEq, Eq)]
pub enum PublicCloudBlockStorageVolumeType {
    /// `CLASSIC`
    Classic,
    /// `HIGH_SPEED`
    HighSpeed,
    /// `HIGH_SPEED_GEN2`
    HighSpeedGen2,
    /// Any value not listed here.
    Other,
}

/// `publicCloud.blockStorage.BlockCurrentState`
#[derive(Debug, Clone)]
pub struct BlockStorageBlockCurrentState {
    pub attached_instances: Option<Vec<BlockStorageBlockAttachedInstance>>,
    pub bootable: Option<bool>,
    pub description: Option<String>,
    pub encryption: Option<BlockStorageBlockEncryption>,
    pub location: Option<BlockStorageBlockLocation>,
    pub locked: Option<bool>,
    pub name: Option<String>,
    pub size: Option<i64>,
    pub status: Option<PublicCloudBlockStorageVolumeStatus>,
    pub volume_type: Option<PublicCloudBlockStorageVolumeType>,
}

/// `publicCloud.blockStorage.BlockCreateFrom`
#[derive(Debug, Clone)]
pub struct BlockStorageBlockCreateFrom {
    pub backup_id: Option<String>,
    pub image_id: Option<String>,
    pub snapshot_id: Option<String>,
}

/// `publicCloud.blockStorage.BlockTargetSpec`
#[derive(Debug, Clone)]
pub struct BlockStorageBlockTargetSpec {
    pub create_from: Option<BlockStorageBlockCreateFrom>,
    pub encryption: Option<BlockStorageBlockEncryption>,
    pub location: BlockStorageBlockLocation,
    pub name: String,
    pub size: i64,
    pub volume_type: Option<PublicCloudBlockStorageVolumeType>,
}

/// `publicCloud.blockStorage.Block`
#[derive(Debug, Clone)]
pub struct BlockStorageBlock {
    pub checksum: Option<String>,
    pub created_at: Option<String>,
    pub current_state: Option<BlockStorageBlockCurrentState>,
    pub current_tasks: Option<Vec<CurrentTask>>,
    pub id: Option<String>,
    pub resource_status: Option<CommonResourceStatus>,
    pub target_spec: Option<BlockStorageBlockTargetSpec>,
    pub updated_at: Option<String>,
}

/// `publicCloud.blockStorage.BlockCreation`
#[derive(Debug, Clone)]
pub struct BlockStorageBlockCreation {
    pub target_spec: BlockStorageBlockTargetSpec,
}

/// `publicCloud.blockStorage.BlockUpdateTargetSpec`
#[derive(Debug, Clone)]
pub struct BlockStorageBlockUpdateTargetSpec {
    pub name: String,
    pub size: i64,
    pub volume_type: Option<PublicCloudBlockStorageVolumeType>,
}

/// `publicCloud.blockStorage.BlockUpdate`
#[derive(Debug, Clone)]
pub struct BlockStorageBlockUpdate {
    pub checksum: String,
    pub target_spec: BlockStorageBlockUpdateTargetSpec,
}

/// `publicCloud.blockStorage.SnapshotCurrentState`
#[derive(Debug, Clone)]
pub struct BlockStorageSnapshotCurrentState {
    pub description: Option<String>,
    pub location: Option<CommonLocation>,
    pub name: Option<String>,
    pub size: Option<i64>,
    pub volume_id: Option<String>,
}

/// `publicCloud.blockStorage.SnapshotTargetSpec`
#[derive(Debug, Clone)]
pub struct BlockStorageSnapshotTargetSpec {
    pub description: Option<String>,
    pub location: CommonLocation,
    pub name: String,
    pub volume_id: String,
}

/// `publicCloud.blockStorage.Snapshot`
#[derive(Debug, Clone)]
pub struct BlockStorageSnapshot {
    pub checksum: Option<String>,
    pub created_at: Option<String>,
    pub current_state: Option<BlockStorageSnapshotCurrentState>,
    pub current_tasks: Option<Vec<CurrentTask>>,
    pub id: Option<String>,
    pub resource_status: Option<CommonResourceStatus>,
    pub target_spec: Option<BlockStorageSnapshotTargetSpec>,
    pub updated_at: Option<String>,
}

/// `publicCloud.blockStorage.SnapshotCreation`
#[derive(Debug, Clone)]
pub struct BlockStorageSnapshotCreation {
    pub target_spec: BlockStorageSnapshotTargetSpec,
}

/// `publicCloud.blockStorage.SnapshotUpdateTargetSpec`
#[derive(Debug, Clone)]
pub struct BlockStorageSnapshotUpdateTargetSpec {
    pub description: Option<String>,
    pub name: String,
}

/// `publicCloud.blockStorage.SnapshotUpdate`
#[derive(Debug, Clone)]
pub struct BlockStorageSnapshotUpdate {
    pub checksum: String,
    pub target_spec: BlockStorageSnapshotUpdateTargetSpec,
}

/// `publicCloud.floatingIp.FloatingIPLocation`
#[derive(Debug, Clone)]
pub struct FloatingIpFloatingIPLocation {
    pub availability_zone: Option<String>,
    pub region: String,
}

/// `publicCloud.floatingIp.FloatingIPNetwork`
#[derive(Debug, Clone)]
pub struct FloatingIpFloatingIPNetwork {
    pub id: Option<String>,
}

/// `publicCloud.floatingIp.FloatingIPStatusEnum`
#[derive(Debug, Clone, Copy, PartialEq, Eq)]
pub enum PublicCloudFloatingIpFloatingIPStatus {
    /// `ACTIVE`
    Active,
    /// `DOWN`
    Down,
    /// `ERROR`
    Error,
    /// Any value not listed here.
    Other,
}

/// `publicCloud.floatingIp.FloatingIPTargetSpec`
#[derive(Debug, Clone)]
pub struct FloatingIpFloatingIPTargetSpec {
    pub description: Option<String>,
    pub location: FloatingIpFloatingIPLocation,
}

/// `publicCloud.floatingIp.FloatingIPCreation`
#[derive(Debug, Clone)]
pub struct FloatingIpFloatingIPCreation {
    pub target_spec: FloatingIpFloatingIPTargetSpec,
}

/// `publicCloud.floatingIp.FloatingIPUpdateTargetSpec`
#[derive(Debug, Clone)]
pub struct FloatingIpFloatingIPUpdateTargetSpec {
    pub description: String,
}

/// `publicCloud.floatingIp.FloatingIPUpdate`
#[derive(Debug, Clone)]
pub struct FloatingIpFloatingIPUpdate {
    pub checksum: String,
    pub target_spec: FloatingIpFloatingIPUpdateTargetSpec,
}

/// `publicCloud.gateway.ExternalGatewayModelEnum`
#[derive(Debug, Clone, Copy, PartialEq, Eq)]
pub enum PublicCloudGatewayExternalGatewayModel {
    /// `2XL`
    V2Xl,
    /// `3XL`
    V3Xl,
    /// `L`
    L,
    /// `M`
    M,
    /// `S`
    S,
    /// `XL`
    Xl,
    /// Any value not listed here.
    Other,
}

/// `publicCloud.gateway.ExternalGateway`
#[derive(Debug, Clone)]
pub struct GatewayExternalGateway {
    pub enabled: bool,
    pub model: Option<PublicCloudGatewayExternalGatewayModel>,
}

/// `publicCloud.gateway.GatewayLocation`
#[derive(Debug, Clone)]
pub struct GatewayGatewayLocation {
    pub availability_zone: Option<String>,
    pub region: String,
}

/// `publicCloud.gateway.GatewayStatusEnum`
#[derive(Debug, Clone, Copy, PartialEq, Eq)]
pub enum PublicCloudGatewayGatewayStatus {
    /// `ACTIVE`
    Active,
    /// `BUILD`
    Build,
    /// `DOWN`
    Down,
    /// `ERROR`
    Error,
    /// Any value not listed here.
    Other,
}

/// `publicCloud.gateway.GatewaySubnet`
#[derive(Debug, Clone)]
pub struct GatewayGatewaySubnet {
    pub id: String,
}

/// `publicCloud.gateway.GatewayTargetSpec`
#[derive(Debug, Clone)]
pub struct GatewayGatewayTargetSpec {
    pub description: Option<String>,
    pub external_gateway: GatewayExternalGateway,
    pub location: GatewayGatewayLocation,
    pub name: String,
    pub subnets: Option<Vec<GatewayGatewaySubnet>>,
}

/// `publicCloud.gateway.GatewayCreation`
#[derive(Debug, Clone)]
pub struct GatewayGatewayCreation {
    pub target_spec: GatewayGatewayTargetSpec,
}

/// `publicCloud.gateway.GatewayUpdateTargetSpec`
#[derive(Debug, Clone)]
pub struct GatewayGatewayUpdateTargetSpec {
    pub description: Option<String>,
    pub external_gateway: GatewayExternalGateway,
    pub name: String,
    pub subnets: Option<Vec<GatewayGatewaySubnet>>,
}

/// `publicCloud.gateway.GatewayUpdate`
#[derive(Debug, Clone)]
pub struct GatewayGatewayUpdate {
    pub checksum: String,
    pub target_spec: GatewayGatewayUpdateTargetSpec,
}

/// `publicCloud.instance.AutobackupDistant`
#[derive(Debug, Clone)]
pub struct InstanceAutobackupDistant {
    pub image_name: String,
    pub region: String,
}

/// `publicCloud.instance.AutobackupExecutionStateEnum`
#[derive(Debug, Clone, Copy, PartialEq, Eq)]
pub enum PublicCloudInstanceAutobackupExecutionState {
    /// `ERROR`
    Error,
    /// `IDLE`
    Idle,
    /// `RUNNING`
    Running,
    /// `SUCCESS`
    Success,
    /// Any value not listed here.
    Other,
}

/// `publicCloud.instance.AutobackupExecution`
#[derive(Debug, Clone)]
pub struct InstanceAutobackupExecution {
    pub error_message: Option<String>,
    pub id: Option<String>,
    pub started_at: Option<String>,
    pub state: Option<PublicCloudInstanceAutobackupExecutionState>,
    pub updated_at: Option<String>,
}

/// `publicCloud.instance.AutobackupInstanceRef`
#[derive(Debug, Clone)]
pub struct InstanceAutobackupInstanceRef {
    pub id: String,
}

/// `publicCloud.instance.AutobackupCurrentState`
#[derive(Debug, Clone)]
pub struct InstanceAutobackupCurrentState {
    pub cron: Option<String>,
    pub distant: Option<InstanceAutobackupDistant>,
    pub image_name: Option<String>,
    pub instance: Option<InstanceAutobackupInstanceRef>,
    pub last_executions: Option<Vec<InstanceAutobackupExecution>>,
    pub location: Option<CommonLocation>,
    pub name: Option<String>,
    pub next_execution_time: Option<String>,
    pub rotation: Option<i64>,
    pub workflow_name: Option<String>,
}

/// `publicCloud.instance.AutobackupTargetSpec`
#[derive(Debug, Clone)]
pub struct InstanceAutobackupTargetSpec {
    pub cron: String,
    pub distant: Option<InstanceAutobackupDistant>,
    pub image_name: String,
    pub instance: InstanceAutobackupInstanceRef,
    pub location: CommonLocation,
    pub name: String,
    pub rotation: i64,
}

/// `publicCloud.instance.Autobackup`
#[derive(Debug, Clone)]
pub struct InstanceAutobackup {
    pub checksum: Option<String>,
    pub created_at: Option<String>,
    pub current_state: Option<InstanceAutobackupCurrentState>,
    pub current_tasks: Option<Vec<CurrentTask>>,
    pub id: Option<String>,
    pub resource_status: Option<CommonResourceStatus>,
    pub target_spec: Option<InstanceAutobackupTargetSpec>,
    pub updated_at: Option<String>,
}

/// `publicCloud.instance.AutobackupCreation`
#[derive(Debug, Clone)]
pub struct InstanceAutobackupCreation {
    pub target_spec: InstanceAutobackupTargetSpec,
}

/// `publicCloud.instance.BackupInstanceRef`
#[derive(Debug, Clone)]
pub struct InstanceBackupInstanceRef {
    pub id: String,
}

/// `publicCloud.instance.ImageStatusEnum`
#[derive(Debug, Clone, Copy, PartialEq, Eq)]
pub enum PublicCloudInstanceImageStatus {
    /// `ACTIVE`
    Active,
    /// `DEACTIVATED`
    Deactivated,
    /// `DELETED`
    Deleted,
    /// `IMPORTING`
    Importing,
    /// `KILLED`
    Killed,
    /// `PENDING_DELETE`
    PendingDelete,
    /// `QUEUED`
    Queued,
    /// `SAVING`
    Saving,
    /// Any value not listed here.
    Other,
}

/// `publicCloud.instance.ImageVisibilityEnum`
#[derive(Debug, Clone, Copy, PartialEq, Eq)]
pub enum PublicCloudInstanceImageVisibility {
    /// `COMMUNITY`
    Community,
    /// `PRIVATE`
    Private,
    /// `PUBLIC`
    Public,
    /// `SHARED`
    Shared,
    /// Any value not listed here.
    Other,
}

/// `publicCloud.instance.BackupCurrentState`
#[derive(Debug, Clone)]
pub struct InstanceBackupCurrentState {
    pub instance: Option<InstanceBackupInstanceRef>,
    pub location: Option<CommonLocation>,
    pub min_disk: Option<i64>,
    pub min_ram: Option<i64>,
    pub name: Option<String>,
    pub size: Option<i64>,
    pub status: Option<PublicCloudInstanceImageStatus>,
    pub visibility: Option<PublicCloudInstanceImageVisibility>,
}

/// `publicCloud.instance.BackupTargetSpec`
#[derive(Debug, Clone)]
pub struct InstanceBackupTargetSpec {
    pub instance: InstanceBackupInstanceRef,
    pub location: CommonLocation,
    pub name: String,
}

/// `publicCloud.instance.Backup`
#[derive(Debug, Clone)]
pub struct InstanceBackup {
    pub checksum: Option<String>,
    pub created_at: Option<String>,
    pub current_state: Option<InstanceBackupCurrentState>,
    pub current_tasks: Option<Vec<CurrentTask>>,
    pub id: Option<String>,
    pub resource_status: Option<CommonResourceStatus>,
    pub target_spec: Option<InstanceBackupTargetSpec>,
    pub updated_at: Option<String>,
}

/// `publicCloud.instance.BackupCreation`
#[derive(Debug, Clone)]
pub struct InstanceBackupCreation {
    pub target_spec: InstanceBackupTargetSpec,
}

/// `publicCloud.instance.ConsoleOutput`
#[derive(Debug, Clone)]
pub struct InstanceConsoleOutput {
    pub output: Option<String>,
}

/// `publicCloud.instance.InstanceFlavor`
#[derive(Debug, Clone)]
pub struct InstanceInstanceFlavor {
    pub disk: Option<i64>,
    pub id: Option<String>,
    pub name: Option<String>,
    pub ram: Option<i64>,
    pub vcpus: Option<i64>,
}

/// `publicCloud.instance.InstanceGroupRef`
#[derive(Debug, Clone)]
pub struct InstanceInstanceGroupRef {
    pub id: String,
}

/// `publicCloud.instance.InstanceImage`
#[derive(Debug, Clone)]
pub struct InstanceInstanceImage {
    pub deprecated: Option<bool>,
    pub id: Option<String>,
    pub name: Option<String>,
    pub size: Option<i64>,
    pub status: Option<PublicCloudInstanceImageStatus>,
}

/// `publicCloud.instance.InstanceLocation`
#[derive(Debug, Clone)]
pub struct InstanceInstanceLocation {
    pub availability_zone: Option<String>,
    pub region: String,
}

/// `publicCloud.instance.InstanceVolume`
#[derive(Debug, Clone)]
pub struct InstanceInstanceVolume {
    pub id: Option<String>,
    pub name: Option<String>,
    pub size: Option<i64>,
}

/// `publicCloud.instance.PowerStateEnum`
#[derive(Debug, Clone, Copy, PartialEq, Eq)]
pub enum PublicCloudInstancePowerState {
    /// `ACTIVE`
    Active,
    /// `RESCUE`
    Rescue,
    /// `SHELVED`
    Shelved,
    /// `SHUTOFF`
    Shutoff,
    /// Any value not listed here.
    Other,
}

/// `publicCloud.securityGroup.SecurityGroupRef`
#[derive(Debug, Clone)]
pub struct SecurityGroupSecurityGroupRef {
    pub id: String,
}

/// `publicCloud.instance.InstanceFlavorRef`
#[derive(Debug, Clone)]
pub struct InstanceInstanceFlavorRef {
    pub id: String,
}

/// `publicCloud.instance.InstanceImageRef`
#[derive(Debug, Clone)]
pub struct InstanceInstanceImageRef {
    pub id: String,
}

/// `publicCloud.instance.InstanceNetworkRef`
#[derive(Debug, Clone)]
pub struct InstanceInstanceNetworkRef {
    pub floating_ip_id: Option<String>,
    pub id: Option<String>,
    pub public: bool,
    pub subnet_id: Option<String>,
}

/// `publicCloud.instance.InstanceVolumeRef`
#[derive(Debug, Clone)]
pub struct InstanceInstanceVolumeRef {
    pub id: String,
}

/// `publicCloud.instance.InstanceTargetSpec`
#[derive(Debug, Clone)]
pub struct InstanceInstanceTargetSpec {
    pub flavor: InstanceInstanceFlavorRef,
    pub group: Option<InstanceInstanceGroupRef>,
    pub image: InstanceInstanceImageRef,
    pub location: InstanceInstanceLocation,
    pub name: String,
    pub networks: Option<Vec<InstanceInstanceNetworkRef>>,
    pub power_state: Option<PublicCloudInstancePowerState>,
    pub security_groups: Option<Vec<SecurityGroupSecurityGroupRef>>,
    pub ssh_key_name: Option<String>,
    pub volumes: Option<Vec<InstanceInstanceVolumeRef>>,
}

/// `publicCloud.instance.InstanceActionParameters`
#[derive(Debug, Clone)]
pub struct InstanceInstanceActionParameters {
    pub hard: Option<bool>,
    pub image_id: Option<String>,
}

/// `publicCloud.instance.InstanceActionTypeEnum`
#[derive(Debug, Clone, Copy, PartialEq, Eq)]
pub enum PublicCloudInstanceInstanceActionType {
    /// `LOCK`
    Lock,
    /// `REBOOT`
    Reboot,
    /// `RESCUE`
    Rescue,
    /// `UNLOCK`
    Unlock,
    /// `UNRESCUE`
    Unrescue,
    /// Any value not listed here.
    Other,
}

/// `publicCloud.instance.InstanceActionRequest`
#[derive(Debug, Clone)]
pub struct InstanceInstanceActionRequest {
    pub checksum: String,
    pub parameters: Option<InstanceInstanceActionParameters>,
    /// JSON field `type`.
    pub kind: PublicCloudInstanceInstanceActionType,
}

/// `publicCloud.instance.InstanceCreation`
#[derive(Debug, Clone)]
pub struct InstanceInstanceCreation {
    pub target_spec: InstanceInstanceTargetSpec,
}

/// `publicCloud.instance.InstanceUpdateTargetSpec`
#[derive(Debug, Clone)]
pub struct InstanceInstanceUpdateTargetSpec {
    pub flavor: InstanceInstanceFlavorRef,
    pub image: InstanceInstanceImageRef,
    pub name: String,
    pub networks: Option<Vec<InstanceInstanceNetworkRef>>,
    pub power_state: Option<PublicCloudInstancePowerState>,
    pub security_groups: Option<Vec<SecurityGroupSecurityGroupRef>>,
    pub volumes: Option<Vec<InstanceInstanceVolumeRef>>,
}

/// `publicCloud.instance.InstanceUpdate`
#[derive(Debug, Clone)]
pub struct InstanceInstanceUpdate {
    pub checksum: String,
    pub target_spec: InstanceInstanceUpdateTargetSpec,
}

/// `publicCloud.instance.RemoteConsoleProtocolEnum`
#[derive(Debug, Clone, Copy, PartialEq, Eq)]
pub enum PublicCloudInstanceRemoteConsoleProtocol {
    /// `SERIAL`
    Serial,
    /// `SPICE`
    Spice,
    /// `VNC`
    Vnc,
    /// Any value not listed here.
    Other,
}

/// `publicCloud.instance.RemoteConsoleTypeEnum`
#[derive(Debug, Clone, Copy, PartialEq, Eq)]
pub enum PublicCloudInstanceRemoteConsoleType {
    /// `NOVNC`
    Novnc,
    /// `SERIAL`
    Serial,
    /// `SPICE_HTML5`
    SpiceHtml5,
    /// `XVPVNC`
    Xvpvnc,
    /// Any value not listed here.
    Other,
}

/// `publicCloud.instance.RemoteConsole`
#[derive(Debug, Clone)]
pub struct InstanceRemoteConsole {
    pub protocol: Option<PublicCloudInstanceRemoteConsoleProtocol>,
    /// JSON field `type`.
    pub kind: Option<PublicCloudInstanceRemoteConsoleType>,
    pub url: Option<String>,
}

/// `publicCloud.instance.RemoteConsoleRequest`
#[derive(Debug, Clone)]
pub struct InstanceRemoteConsoleRequest {
    pub protocol: PublicCloudInstanceRemoteConsoleProtocol,
    /// JSON field `type`.
    pub kind: PublicCloudInstanceRemoteConsoleType,
}

/// `publicCloud.instanceGroup.InstanceGroupMemberRef`
#[derive(Debug, Clone)]
pub struct InstanceGroupInstanceGroupMemberRef {
    pub id: Option<String>,
}

/// `publicCloud.instanceGroup.PolicyEnum`
#[derive(Debug, Clone, Copy, PartialEq, Eq)]
pub enum PublicCloudInstanceGroupPolicy {
    /// `AFFINITY`
    Affinity,
    /// `ANTI_AFFINITY`
    AntiAffinity,
    /// Any value not listed here.
    Other,
}

/// `publicCloud.instanceGroup.InstanceGroupCurrentState`
#[derive(Debug, Clone)]
pub struct InstanceGroupInstanceGroupCurrentState {
    pub location: Option<CommonLocation>,
    pub members: Option<Vec<InstanceGroupInstanceGroupMemberRef>>,
    pub name: Option<String>,
    pub policy: Option<PublicCloudInstanceGroupPolicy>,
}

/// `publicCloud.instanceGroup.InstanceGroupTargetSpec`
#[derive(Debug, Clone)]
pub struct InstanceGroupInstanceGroupTargetSpec {
    pub location: CommonLocation,
    pub name: String,
    pub policy: PublicCloudInstanceGroupPolicy,
}

/// `publicCloud.instanceGroup.InstanceGroup`
#[derive(Debug, Clone)]
pub struct InstanceGroupInstanceGroup {
    pub checksum: Option<String>,
    pub created_at: Option<String>,
    pub current_state: Option<InstanceGroupInstanceGroupCurrentState>,
    pub current_tasks: Option<Vec<CurrentTask>>,
    pub id: Option<String>,
    pub resource_status: Option<CommonResourceStatus>,
    pub target_spec: Option<InstanceGroupInstanceGroupTargetSpec>,
    pub updated_at: Option<String>,
}

/// `publicCloud.instanceGroup.InstanceGroupCreation`
#[derive(Debug, Clone)]
pub struct InstanceGroupInstanceGroupCreation {
    pub target_spec: InstanceGroupInstanceGroupTargetSpec,
}

/// `publicCloud.keyManager.AlgorithmEnum`
#[derive(Debug, Clone, Copy, PartialEq, Eq)]
pub enum PublicCloudKeyManagerAlgorithm {
    /// `AES`
    Aes,
    /// `DH`
    Dh,
    /// `DSA`
    Dsa,
    /// `EC`
    Ec,
    /// `RSA`
    Rsa,
    /// Any value not listed here.
    Other,
}

/// `publicCloud.keyManager.BitLengthEnum`
#[derive(Debug, Clone, Copy, PartialEq, Eq)]
pub enum PublicCloudKeyManagerBitLength {
    /// `128`
    V128,
    /// `256`
    V256,
    /// `512`
    V512,
    /// `1024`
    V1024,
    /// `2048`
    V2048,
    /// `4096`
    V4096,
    /// Any value not listed here.
    Other,
}

/// `publicCloud.keyManager.ConsumerResourceTypeEnum`
#[derive(Debug, Clone, Copy, PartialEq, Eq)]
pub enum PublicCloudKeyManagerConsumerResourceType {
    /// `IMAGE`
    Image,
    /// `INSTANCE`
    Instance,
    /// `LOADBALANCER`
    Loadbalancer,
    /// Any value not listed here.
    Other,
}

/// `publicCloud.keyManager.ConsumerServiceEnum`
#[derive(Debug, Clone, Copy, PartialEq, Eq)]
pub enum PublicCloudKeyManagerConsumerService {
    /// `COMPUTE`
    Compute,
    /// `IMAGE`
    Image,
    /// `LOADBALANCER`
    Loadbalancer,
    /// `NETWORK`
    Network,
    /// Any value not listed here.
    Other,
}

/// `publicCloud.keyManager.ContainerSecretRefSecret`
#[derive(Debug, Clone)]
pub struct KeyManagerContainerSecretRefSecret {
    pub id: String,
}

/// `publicCloud.keyManager.ContainerSecretRef`
#[derive(Debug, Clone)]
pub struct KeyManagerContainerSecretRef {
    pub name: String,
    pub secret: KeyManagerContainerSecretRefSecret,
}

/// `publicCloud.keyManager.ContainerStatusEnum`
#[derive(Debug, Clone, Copy, PartialEq, Eq)]
pub enum PublicCloudKeyManagerContainerStatus {
    /// `ACTIVE`
    Active,
    /// `ERROR`
    Error,
    /// Any value not listed here.
    Other,
}

/// `publicCloud.keyManager.ContainerTypeEnum`
#[derive(Debug, Clone, Copy, PartialEq, Eq)]
pub enum PublicCloudKeyManagerContainerType {
    /// `CERTIFICATE`
    Certificate,
    /// `GENERIC`
    Generic,
    /// `RSA`
    Rsa,
    /// Any value not listed here.
    Other,
}

/// `publicCloud.keyManager.ContainerCurrentState`
#[derive(Debug, Clone)]
pub struct KeyManagerContainerCurrentState {
    pub creator_id: Option<String>,
    pub location: Option<CommonLocation>,
    pub name: Option<String>,
    pub secret_refs: Option<Vec<KeyManagerContainerSecretRef>>,
    pub status: Option<PublicCloudKeyManagerContainerStatus>,
    /// JSON field `type`.
    pub kind: Option<PublicCloudKeyManagerContainerType>,
}

/// `publicCloud.keyManager.ContainerTargetSpec`
#[derive(Debug, Clone)]
pub struct KeyManagerContainerTargetSpec {
    pub location: CommonLocation,
    pub name: String,
    pub secret_refs: Option<Vec<KeyManagerContainerSecretRef>>,
    /// JSON field `type`.
    pub kind: PublicCloudKeyManagerContainerType,
}

/// `publicCloud.keyManager.Container`
#[derive(Debug, Clone)]
pub struct KeyManagerContainer {
    pub checksum: Option<String>,
    pub created_at: Option<String>,
    pub current_state: Option<KeyManagerContainerCurrentState>,
    pub current_tasks: Option<Vec<CurrentTask>>,
    pub id: Option<String>,
    pub resource_status: Option<CommonResourceStatus>,
    pub target_spec: Option<KeyManagerContainerTargetSpec>,
    pub updated_at: Option<String>,
}

/// `publicCloud.keyManager.ContainerConsumer`
#[derive(Debug, Clone)]
pub struct KeyManagerContainerConsumer {
    pub id: Option<String>,
    pub resource_id: Option<String>,
    pub resource_type: Option<PublicCloudKeyManagerConsumerResourceType>,
    pub service: Option<PublicCloudKeyManagerConsumerService>,
}

/// `publicCloud.keyManager.ContainerConsumerInput`
#[derive(Debug, Clone)]
pub struct KeyManagerContainerConsumerInput {
    pub resource_id: String,
    pub resource_type: PublicCloudKeyManagerConsumerResourceType,
    pub service: PublicCloudKeyManagerConsumerService,
}

/// `publicCloud.keyManager.ContainerCreation`
#[derive(Debug, Clone)]
pub struct KeyManagerContainerCreation {
    pub target_spec: KeyManagerContainerTargetSpec,
}

/// `publicCloud.keyManager.ContainerUpdateTargetSpec`
#[derive(Debug, Clone)]
pub struct KeyManagerContainerUpdateTargetSpec {
    pub secret_refs: Vec<KeyManagerContainerSecretRef>,
}

/// `publicCloud.keyManager.ContainerUpdate`
#[derive(Debug, Clone)]
pub struct KeyManagerContainerUpdate {
    pub checksum: String,
    pub target_spec: KeyManagerContainerUpdateTargetSpec,
}

/// `publicCloud.keyManager.ModeEnum`
#[derive(Debug, Clone, Copy, PartialEq, Eq)]
pub enum PublicCloudKeyManagerMode {
    /// `CBC`
    Cbc,
    /// `CTR`
    Ctr,
    /// Any value not listed here.
    Other,
}

/// `publicCloud.keyManager.PayloadContentTypeEnum`
#[derive(Debug, Clone, Copy, PartialEq, Eq)]
pub enum PublicCloudKeyManagerPayloadContentType {
    /// `APPLICATION_OCTET_STREAM`
    ApplicationOctetStream,
    /// `APPLICATION_PKCS8`
    ApplicationPkcs8,
    /// `APPLICATION_PKIX_CERT`
    ApplicationPkixCert,
    /// `TEXT_PLAIN`
    TextPlain,
    /// Any value not listed here.
    Other,
}

/// `publicCloud.keyManager.SecretStatusEnum`
#[derive(Debug, Clone, Copy, PartialEq, Eq)]
pub enum PublicCloudKeyManagerSecretStatus {
    /// `ACTIVE`
    Active,
    /// `ERROR`
    Error,
    /// Any value not listed here.
    Other,
}

/// `publicCloud.keyManager.SecretTypeEnum`
#[derive(Debug, Clone, Copy, PartialEq, Eq)]
pub enum PublicCloudKeyManagerSecretType {
    /// `CERTIFICATE`
    Certificate,
    /// `OPAQUE`
    Opaque,
    /// `PASSPHRASE`
    Passphrase,
    /// `PRIVATE`
    Private,
    /// `PUBLIC`
    Public,
    /// `SYMMETRIC`
    Symmetric,
    /// Any value not listed here.
    Other,
}

/// `publicCloud.keyManager.SecretConsumer`
#[derive(Debug, Clone)]
pub struct KeyManagerSecretConsumer {
    pub id: Option<String>,
    pub resource_id: Option<String>,
    pub resource_type: Option<PublicCloudKeyManagerConsumerResourceType>,
    pub service: Option<PublicCloudKeyManagerConsumerService>,
}

/// `publicCloud.keyManager.SecretConsumerInput`
#[derive(Debug, Clone)]
pub struct KeyManagerSecretConsumerInput {
    pub resource_id: String,
    pub resource_type: PublicCloudKeyManagerConsumerResourceType,
    pub service: PublicCloudKeyManagerConsumerService,
}

/// `publicCloud.loadbalancer.HealthMonitorTypeEnum`
#[derive(Debug, Clone, Copy, PartialEq, Eq)]
pub enum PublicCloudLoadbalancerHealthMonitorType {
    /// `HTTP`
    Http,
    /// `HTTPS`
    Https,
    /// `PING`
    Ping,
    /// `SCTP`
    Sctp,
    /// `TCP`
    Tcp,
    /// `TLS_HELLO`
    TlsHello,
    /// `UDP_CONNECT`
    UdpConnect,
    /// Any value not listed here.
    Other,
}

/// `publicCloud.loadbalancer.HealthMonitorCurrentState`
#[derive(Debug, Clone)]
pub struct LoadbalancerHealthMonitorCurrentState {
    pub delay: Option<i64>,
    pub domain_name: Option<String>,
    pub expected_codes: Option<String>,
    pub http_method: Option<String>,
    pub http_version: Option<String>,
    pub id: Option<String>,
    pub max_retries: Option<i64>,
    pub max_retries_down: Option<i64>,
    pub name: Option<String>,
    pub operating_status: Option<String>,
    pub provisioning_status: Option<String>,
    pub timeout: Option<i64>,
    /// JSON field `type`.
    pub kind: Option<PublicCloudLoadbalancerHealthMonitorType>,
    pub url_path: Option<String>,
}

/// `publicCloud.loadbalancer.HealthMonitorHttpMethodEnum`
#[derive(Debug, Clone, Copy, PartialEq, Eq)]
pub enum PublicCloudLoadbalancerHealthMonitorHttpMethod {
    /// `CONNECT`
    Connect,
    /// `DELETE`
    Delete,
    /// `GET`
    Get,
    /// `HEAD`
    Head,
    /// `OPTIONS`
    Options,
    /// `PATCH`
    Patch,
    /// `POST`
    Post,
    /// `PUT`
    Put,
    /// `TRACE`
    Trace,
    /// Any value not listed here.
    Other,
}

/// `publicCloud.loadbalancer.HealthMonitorTargetSpec`
#[derive(Debug, Clone)]
pub struct LoadbalancerHealthMonitorTargetSpec {
    pub delay: i64,
    pub domain_name: Option<String>,
    pub expected_codes: Option<String>,
    pub http_method: Option<PublicCloudLoadbalancerHealthMonitorHttpMethod>,
    pub http_version: Option<String>,
    pub max_retries: i64,
    pub max_retries_down: Option<i64>,
    pub name: Option<String>,
    pub timeout: i64,
    /// JSON field `type`.
    pub kind: PublicCloudLoadbalancerHealthMonitorType,
    pub url_path: Option<String>,
}

/// `publicCloud.loadbalancer.HealthMonitorUpdateTargetSpec`
#[derive(Debug, Clone)]
pub struct LoadbalancerHealthMonitorUpdateTargetSpec {
    pub delay: i64,
    pub domain_name: Option<String>,
    pub expected_codes: Option<String>,
    pub http_method: Option<PublicCloudLoadbalancerHealthMonitorHttpMethod>,
    pub http_version: Option<String>,
    pub max_retries: i64,
    pub max_retries_down: Option<i64>,
    pub name: Option<String>,
    pub timeout: i64,
    pub url_path: Option<String>,
}

/// `publicCloud.loadbalancer.L7PolicyActionEnum`
#[derive(Debug, Clone, Copy, PartialEq, Eq)]
pub enum PublicCloudLoadbalancerL7PolicyAction {
    /// `REDIRECT_PREFIX`
    RedirectPrefix,
    /// `REDIRECT_TO_POOL`
    RedirectToPool,
    /// `REDIRECT_TO_URL`
    RedirectToUrl,
    /// `REJECT`
    Reject,
    /// Any value not listed here.
    Other,
}

/// `publicCloud.loadbalancer.L7PolicyRedirectPoolDetail`
#[derive(Debug, Clone)]
pub struct LoadbalancerL7PolicyRedirectPoolDetail {
    pub id: Option<String>,
}

/// `publicCloud.loadbalancer.LoadbalancerOperatingStatusEnum`
#[derive(Debug, Clone, Copy, PartialEq, Eq)]
pub enum PublicCloudLoadbalancerLoadbalancerOperatingStatus {
    /// `DEGRADED`
    Degraded,
    /// `DRAINING`
    Draining,
    /// `ERROR`
    Error,
    /// `NO_MONITOR`
    NoMonitor,
    /// `OFFLINE`
    Offline,
    /// `ONLINE`
    Online,
    /// Any value not listed here.
    Other,
}

/// `publicCloud.loadbalancer.LoadbalancerProvisioningStatusEnum`
#[derive(Debug, Clone, Copy, PartialEq, Eq)]
pub enum PublicCloudLoadbalancerLoadbalancerProvisioningStatus {
    /// `ACTIVE`
    Active,
    /// `DELETED`
    Deleted,
    /// `ERROR`
    Error,
    /// `PENDING_CREATE`
    PendingCreate,
    /// `PENDING_DELETE`
    PendingDelete,
    /// `PENDING_UPDATE`
    PendingUpdate,
    /// Any value not listed here.
    Other,
}

/// `publicCloud.loadbalancer.L7RuleState`
#[derive(Debug, Clone)]
pub struct LoadbalancerL7RuleState {
    pub compare_type: Option<String>,
    pub id: Option<String>,
    pub invert: Option<bool>,
    pub key: Option<String>,
    pub operating_status: Option<PublicCloudLoadbalancerLoadbalancerOperatingStatus>,
    pub provisioning_status: Option<PublicCloudLoadbalancerLoadbalancerProvisioningStatus>,
    /// JSON field `type`.
    pub kind: Option<String>,
    pub value: Option<String>,
}

/// `publicCloud.loadbalancer.L7PolicyCurrentState`
#[derive(Debug, Clone)]
pub struct LoadbalancerL7PolicyCurrentState {
    pub action: Option<PublicCloudLoadbalancerL7PolicyAction>,
    pub description: Option<String>,
    pub name: Option<String>,
    pub operating_status: Option<PublicCloudLoadbalancerLoadbalancerOperatingStatus>,
    pub position: Option<i64>,
    pub provisioning_status: Option<PublicCloudLoadbalancerLoadbalancerProvisioningStatus>,
    pub redirect_http_code: Option<i64>,
    pub redirect_pool: Option<LoadbalancerL7PolicyRedirectPoolDetail>,
    pub redirect_prefix: Option<String>,
    pub redirect_url: Option<String>,
    pub rules: Option<Vec<LoadbalancerL7RuleState>>,
}

/// `publicCloud.loadbalancer.L7PolicyRedirectPoolRef`
#[derive(Debug, Clone)]
pub struct LoadbalancerL7PolicyRedirectPoolRef {
    pub id: String,
}

/// `publicCloud.loadbalancer.L7RuleCompareTypeEnum`
#[derive(Debug, Clone, Copy, PartialEq, Eq)]
pub enum PublicCloudLoadbalancerL7RuleCompareType {
    /// `CONTAINS`
    Contains,
    /// `ENDS_WITH`
    EndsWith,
    /// `EQUAL_TO`
    EqualTo,
    /// `REGEX`
    Regex,
    /// `STARTS_WITH`
    StartsWith,
    /// Any value not listed here.
    Other,
}

/// `publicCloud.loadbalancer.L7RuleTypeEnum`
#[derive(Debug, Clone, Copy, PartialEq, Eq)]
pub enum PublicCloudLoadbalancerL7RuleType {
    /// `COOKIE`
    Cookie,
    /// `FILE_TYPE`
    FileType,
    /// `HEADER`
    Header,
    /// `HOST_NAME`
    HostName,
    /// `PATH`
    Path,
    /// Any value not listed here.
    Other,
}

/// `publicCloud.loadbalancer.L7RuleSpec`
#[derive(Debug, Clone)]
pub struct LoadbalancerL7RuleSpec {
    pub compare_type: PublicCloudLoadbalancerL7RuleCompareType,
    pub invert: Option<bool>,
    pub key: Option<String>,
    /// JSON field `type`.
    pub kind: PublicCloudLoadbalancerL7RuleType,
    pub value: String,
}

/// `publicCloud.loadbalancer.L7PolicyTargetSpec`
#[derive(Debug, Clone)]
pub struct LoadbalancerL7PolicyTargetSpec {
    pub action: PublicCloudLoadbalancerL7PolicyAction,
    pub description: Option<String>,
    pub name: Option<String>,
    pub position: Option<i64>,
    pub redirect_http_code: Option<i64>,
    pub redirect_pool: Option<LoadbalancerL7PolicyRedirectPoolRef>,
    pub redirect_prefix: Option<String>,
    pub redirect_url: Option<String>,
    pub rules: Option<Vec<LoadbalancerL7RuleSpec>>,
}

/// `publicCloud.loadbalancer.L7Policy`
#[derive(Debug, Clone)]
pub struct LoadbalancerL7Policy {
    pub checksum: Option<String>,
    pub created_at: Option<String>,
    pub current_state: Option<LoadbalancerL7PolicyCurrentState>,
    pub current_tasks: Option<Vec<CurrentTask>>,
    pub id: Option<String>,
    pub resource_status: Option<CommonResourceStatus>,
    pub target_spec: Option<LoadbalancerL7PolicyTargetSpec>,
    pub updated_at: Option<String>,
}

/// `publicCloud.loadbalancer.L7PolicyCreation`
#[derive(Debug, Clone)]
pub struct LoadbalancerL7PolicyCreation {
    pub target_spec: LoadbalancerL7PolicyTargetSpec,
}

/// `publicCloud.loadbalancer.L7PolicyUpdateTargetSpec`
#[derive(Debug, Clone)]
pub struct LoadbalancerL7PolicyUpdateTargetSpec {
    pub action: PublicCloudLoadbalancerL7PolicyAction,
    pub description: Option<String>,
    pub name: Option<String>,
    pub position: Option<i64>,
    pub redirect_http_code: Option<i64>,
    pub redirect_pool: Option<LoadbalancerL7PolicyRedirectPoolRef>,
    pub redirect_prefix: Option<String>,
    pub redirect_url: Option<String>,
    pub rules: Option<Vec<LoadbalancerL7RuleSpec>>,
}

/// `publicCloud.loadbalancer.L7PolicyUpdate`
#[derive(Debug, Clone)]
pub struct LoadbalancerL7PolicyUpdate {
    pub checksum: String,
    pub target_spec: LoadbalancerL7PolicyUpdateTargetSpec,
}

/// `publicCloud.loadbalancer.ListenerDefaultPoolDetail`
#[derive(Debug, Clone)]
pub struct LoadbalancerListenerDefaultPoolDetail {
    pub id: Option<String>,
}

/// `publicCloud.loadbalancer.ListenerInsertHeaders`
#[derive(Debug, Clone)]
pub struct LoadbalancerListenerInsertHeaders {
    pub x_forwarded_for: Option<bool>,
    pub x_forwarded_port: Option<bool>,
    pub x_forwarded_proto: Option<bool>,
    pub x_ssl_client_dn: Option<bool>,
    pub x_ssl_client_has_cert: Option<bool>,
    pub x_ssl_client_verify: Option<bool>,
}

/// `publicCloud.loadbalancer.ListenerProtocolEnum`
#[derive(Debug, Clone, Copy, PartialEq, Eq)]
pub enum PublicCloudLoadbalancerListenerProtocol {
    /// `HTTP`
    Http,
    /// `HTTPS`
    Https,
    /// `SCTP`
    Sctp,
    /// `TCP`
    Tcp,
    /// `TERMINATED_HTTPS`
    TerminatedHttps,
    /// `UDP`
    Udp,
    /// Any value not listed here.
    Other,
}

/// `publicCloud.loadbalancer.ListenerCurrentState`
#[derive(Debug, Clone)]
pub struct LoadbalancerListenerCurrentState {
    pub allowed_cidrs: Option<Vec<String>>,
    pub connection_limit: Option<i64>,
    pub default_pool: Option<LoadbalancerListenerDefaultPoolDetail>,
    pub default_tls_container_ref: Option<String>,
    pub description: Option<String>,
    pub insert_headers: Option<LoadbalancerListenerInsertHeaders>,
    pub name: Option<String>,
    pub operating_status: Option<PublicCloudLoadbalancerLoadbalancerOperatingStatus>,
    pub protocol: Option<PublicCloudLoadbalancerListenerProtocol>,
    pub protocol_port: Option<i64>,
    pub provisioning_status: Option<PublicCloudLoadbalancerLoadbalancerProvisioningStatus>,
    pub sni_container_refs: Option<Vec<String>>,
    pub timeout_client_data: Option<i64>,
    pub timeout_member_connect: Option<i64>,
    pub timeout_member_data: Option<i64>,
    pub timeout_tcp_inspect: Option<i64>,
    pub tls_versions: Option<Vec<String>>,
}

/// `publicCloud.loadbalancer.ListenerDefaultPoolRef`
#[derive(Debug, Clone)]
pub struct LoadbalancerListenerDefaultPoolRef {
    pub id: String,
}

/// `publicCloud.loadbalancer.ListenerTargetSpec`
#[derive(Debug, Clone)]
pub struct LoadbalancerListenerTargetSpec {
    pub allowed_cidrs: Option<Vec<String>>,
    pub connection_limit: Option<i64>,
    pub default_pool: Option<LoadbalancerListenerDefaultPoolRef>,
    pub default_tls_container_ref: Option<String>,
    pub description: Option<String>,
    pub insert_headers: Option<LoadbalancerListenerInsertHeaders>,
    pub name: String,
    pub protocol: PublicCloudLoadbalancerListenerProtocol,
    pub protocol_port: i64,
    pub sni_container_refs: Option<Vec<String>>,
    pub timeout_client_data: Option<i64>,
    pub timeout_member_connect: Option<i64>,
    pub timeout_member_data: Option<i64>,
    pub timeout_tcp_inspect: Option<i64>,
    pub tls_versions: Option<Vec<String>>,
}

/// `publicCloud.loadbalancer.Listener`
#[derive(Debug, Clone)]
pub struct LoadbalancerListener {
    pub checksum: Option<String>,
    pub created_at: Option<String>,
    pub current_state: Option<LoadbalancerListenerCurrentState>,
    pub current_tasks: Option<Vec<CurrentTask>>,
    pub id: Option<String>,
    pub resource_status: Option<CommonResourceStatus>,
    pub target_spec: Option<LoadbalancerListenerTargetSpec>,
    pub updated_at: Option<String>,
}

/// `publicCloud.loadbalancer.ListenerCreation`
#[derive(Debug, Clone)]
pub struct LoadbalancerListenerCreation {
    pub target_spec: LoadbalancerListenerTargetSpec,
}

/// `publicCloud.loadbalancer.ListenerPutTargetSpec`
#[derive(Debug, Clone)]
pub struct LoadbalancerListenerPutTargetSpec {
    pub allowed_cidrs: Option<Vec<String>>,
    pub connection_limit: Option<i64>,
    pub default_pool: Option<LoadbalancerListenerDefaultPoolRef>,
    pub default_tls_container_ref: Option<String>,
    pub description: Option<String>,
    pub insert_headers: Option<LoadbalancerListenerInsertHeaders>,
    pub name: String,
    pub sni_container_refs: Option<Vec<String>>,
    pub timeout_client_data: Option<i64>,
    pub timeout_member_connect: Option<i64>,
    pub timeout_member_data: Option<i64>,
    pub timeout_tcp_inspect: Option<i64>,
    pub tls_versions: Option<Vec<String>>,
}

/// `publicCloud.loadbalancer.ListenerUpdate`
#[derive(Debug, Clone)]
pub struct LoadbalancerListenerUpdate {
    pub checksum: String,
    pub target_spec: LoadbalancerListenerPutTargetSpec,
}

/// `publicCloud.loadbalancer.LoadbalancerFlavorNameEnum`
#[derive(Debug, Clone, Copy, PartialEq, Eq)]
pub enum PublicCloudLoadbalancerLoadbalancerFlavorName {
    /// `LARGE`
    Large,
    /// `MEDIUM`
    Medium,
    /// `SMALL`
    Small,
    /// `XL`
    Xl,
    /// Any value not listed here.
    Other,
}

/// `publicCloud.loadbalancer.LoadbalancerFlavorRef`
#[derive(Debug, Clone)]
pub struct LoadbalancerLoadbalancerFlavorRef {
    pub name: PublicCloudLoadbalancerLoadbalancerFlavorName,
}

/// `publicCloud.loadbalancer.LoadbalancerNetworkRef`
#[derive(Debug, Clone)]
pub struct LoadbalancerLoadbalancerNetworkRef {
    pub id: String,
}

/// `publicCloud.loadbalancer.LoadbalancerSubnetRef`
#[derive(Debug, Clone)]
pub struct LoadbalancerLoadbalancerSubnetRef {
    pub id: String,
}

/// `publicCloud.loadbalancer.LoadbalancerTargetSpec`
#[derive(Debug, Clone)]
pub struct LoadbalancerLoadbalancerTargetSpec {
    pub description: Option<String>,
    pub flavor: LoadbalancerLoadbalancerFlavorRef,
    pub location: CommonLocation,
    pub name: String,
    pub vip_network: LoadbalancerLoadbalancerNetworkRef,
    pub vip_subnet: LoadbalancerLoadbalancerSubnetRef,
}

/// `publicCloud.loadbalancer.LoadbalancerCreation`
#[derive(Debug, Clone)]
pub struct LoadbalancerLoadbalancerCreation {
    pub target_spec: LoadbalancerLoadbalancerTargetSpec,
}

/// `publicCloud.loadbalancer.LoadbalancerPutTargetSpec`
#[derive(Debug, Clone)]
pub struct LoadbalancerLoadbalancerPutTargetSpec {
    pub description: Option<String>,
    pub name: String,
}

/// `publicCloud.loadbalancer.LoadbalancerUpdate`
#[derive(Debug, Clone)]
pub struct LoadbalancerLoadbalancerUpdate {
    pub checksum: String,
    pub target_spec: LoadbalancerLoadbalancerPutTargetSpec,
}

/// `publicCloud.loadbalancer.PoolAlgorithmEnum`
#[derive(Debug, Clone, Copy, PartialEq, Eq)]
pub enum PublicCloudLoadbalancerPoolAlgorithm {
    /// `LEAST_CONNECTIONS`
    LeastConnections,
    /// `ROUND_ROBIN`
    RoundRobin,
    /// `SOURCE_IP`
    SourceIp,
    /// `SOURCE_IP_PORT`
    SourceIpPort,
    /// Any value not listed here.
    Other,
}

/// `publicCloud.loadbalancer.PoolProtocolEnum`
#[derive(Debug, Clone, Copy, PartialEq, Eq)]
pub enum PublicCloudLoadbalancerPoolProtocol {
    /// `HTTP`
    Http,
    /// `HTTPS`
    Https,
    /// `PROXY`
    Proxy,
    /// `PROXYV2`
    Proxyv2,
    /// `SCTP`
    Sctp,
    /// `TCP`
    Tcp,
    /// `UDP`
    Udp,
    /// Any value not listed here.
    Other,
}

/// `publicCloud.loadbalancer.SessionPersistenceTypeEnum`
#[derive(Debug, Clone, Copy, PartialEq, Eq)]
pub enum PublicCloudLoadbalancerSessionPersistenceType {
    /// `APP_COOKIE`
    AppCookie,
    /// `HTTP_COOKIE`
    HttpCookie,
    /// `SOURCE_IP`
    SourceIp,
    /// Any value not listed here.
    Other,
}

/// `publicCloud.loadbalancer.SessionPersistence`
#[derive(Debug, Clone)]
pub struct LoadbalancerSessionPersistence {
    pub cookie_name: Option<String>,
    /// JSON field `type`.
    pub kind: PublicCloudLoadbalancerSessionPersistenceType,
}

/// `publicCloud.loadbalancer.PoolCurrentState`
#[derive(Debug, Clone)]
pub struct LoadbalancerPoolCurrentState {
    pub algorithm: Option<PublicCloudLoadbalancerPoolAlgorithm>,
    pub description: Option<String>,
    pub health_monitor: Option<LoadbalancerHealthMonitorCurrentState>,
    pub name: Option<String>,
    pub operating_status: Option<PublicCloudLoadbalancerLoadbalancerOperatingStatus>,
    pub persistence: Option<LoadbalancerSessionPersistence>,
    pub protocol: Option<PublicCloudLoadbalancerPoolProtocol>,
    pub provisioning_status: Option<PublicCloudLoadbalancerLoadbalancerProvisioningStatus>,
}

/// `publicCloud.loadbalancer.PoolTargetSpec`
#[derive(Debug, Clone)]
pub struct LoadbalancerPoolTargetSpec {
    pub algorithm: PublicCloudLoadbalancerPoolAlgorithm,
    pub description: Option<String>,
    pub health_monitor: Option<LoadbalancerHealthMonitorTargetSpec>,
    pub name: Option<String>,
    pub persistence: Option<LoadbalancerSessionPersistence>,
    pub protocol: PublicCloudLoadbalancerPoolProtocol,
}

/// `publicCloud.loadbalancer.Pool`
#[derive(Debug, Clone)]
pub struct LoadbalancerPool {
    pub checksum: Option<String>,
    pub created_at: Option<String>,
    pub current_state: Option<LoadbalancerPoolCurrentState>,
    pub current_tasks: Option<Vec<CurrentTask>>,
    pub id: Option<String>,
    pub resource_status: Option<CommonResourceStatus>,
    pub target_spec: Option<LoadbalancerPoolTargetSpec>,
    pub updated_at: Option<String>,
}

/// `publicCloud.loadbalancer.PoolCreation`
#[derive(Debug, Clone)]
pub struct LoadbalancerPoolCreation {
    pub target_spec: LoadbalancerPoolTargetSpec,
}

/// `publicCloud.loadbalancer.PoolUpdateTargetSpec`
#[derive(Debug, Clone)]
pub struct LoadbalancerPoolUpdateTargetSpec {
    pub algorithm: PublicCloudLoadbalancerPoolAlgorithm,
    pub description: Option<String>,
    pub health_monitor: Option<LoadbalancerHealthMonitorUpdateTargetSpec>,
    pub name: Option<String>,
    pub persistence: Option<LoadbalancerSessionPersistence>,
}

/// `publicCloud.loadbalancer.PoolUpdate`
#[derive(Debug, Clone)]
pub struct LoadbalancerPoolUpdate {
    pub checksum: String,
    pub target_spec: LoadbalancerPoolUpdateTargetSpec,
}

/// `publicCloud.network.NetworkCurrentState`
#[derive(Debug, Clone)]
pub struct NetworkNetworkCurrentState {
    pub description: Option<String>,
    pub location: Option<CommonLocation>,
    pub name: Option<String>,
}

/// `publicCloud.network.NetworkTargetSpec`
#[derive(Debug, Clone)]
pub struct NetworkNetworkTargetSpec {
    pub description: Option<String>,
    pub location: CommonLocation,
    pub name: String,
}

/// `publicCloud.network.Network`
#[derive(Debug, Clone)]
pub struct NetworkNetwork {
    pub checksum: Option<String>,
    pub created_at: Option<String>,
    pub current_state: Option<NetworkNetworkCurrentState>,
    pub current_tasks: Option<Vec<CurrentTask>>,
    pub id: Option<String>,
    pub resource_status: Option<CommonResourceStatus>,
    pub target_spec: Option<NetworkNetworkTargetSpec>,
    pub updated_at: Option<String>,
}

/// `publicCloud.network.NetworkCreation`
#[derive(Debug, Clone)]
pub struct NetworkNetworkCreation {
    pub target_spec: NetworkNetworkTargetSpec,
}

/// `publicCloud.network.NetworkPutTargetSpec`
#[derive(Debug, Clone)]
pub struct NetworkNetworkPutTargetSpec {
    pub name: String,
}

/// `publicCloud.network.NetworkUpdate`
#[derive(Debug, Clone)]
pub struct NetworkNetworkUpdate {
    pub checksum: String,
    pub target_spec: NetworkNetworkPutTargetSpec,
}

/// `publicCloud.project.ModeEnum`
#[derive(Debug, Clone, Copy, PartialEq, Eq)]
pub enum PublicCloudProjectMode {
    /// `CLASSIC`
    Classic,
    /// `DISCOVERY`
    Discovery,
    /// Any value not listed here.
    Other,
}

/// `publicCloud.project.ProjectCurrentState`
#[derive(Debug, Clone)]
pub struct ProjectProjectCurrentState {
    pub mode: Option<PublicCloudProjectMode>,
    pub name: Option<String>,
}

/// `publicCloud.project.ProjectTargetSpec`
#[derive(Debug, Clone)]
pub struct ProjectProjectTargetSpec {
    pub mode: PublicCloudProjectMode,
    pub name: String,
}

/// `publicCloud.project.ProjectAsync`
#[derive(Debug, Clone)]
pub struct ProjectProjectAsync {
    pub created_at: Option<String>,
    pub current_state: Option<ProjectProjectCurrentState>,
    pub current_tasks: Option<Vec<CurrentTask>>,
    pub id: Option<String>,
    pub name: Option<String>,
    pub resource_status: Option<CommonResourceStatus>,
    pub target_spec: Option<ProjectProjectTargetSpec>,
    pub updated_at: Option<String>,
}

/// `publicCloud.project.ProjectCreation`
#[derive(Debug, Clone)]
pub struct ProjectProjectCreation {
    pub target_spec: ProjectProjectTargetSpec,
}

/// `publicCloud.quota.QuotaProfileCompute`
#[derive(Debug, Clone)]
pub struct QuotaQuotaProfileCompute {
    pub cores: Option<i64>,
    pub instances: Option<i64>,
    pub memory: Option<i64>,
}

/// `publicCloud.quota.QuotaProfileKeyManager`
#[derive(Debug, Clone)]
pub struct QuotaQuotaProfileKeyManager {
    pub containers: Option<i64>,
    pub secrets: Option<i64>,
}

/// `publicCloud.quota.QuotaProfileKeypair`
#[derive(Debug, Clone)]
pub struct QuotaQuotaProfileKeypair {
    pub keypairs: Option<i64>,
}

/// `publicCloud.quota.QuotaProfileLoadbalancer`
#[derive(Debug, Clone)]
pub struct QuotaQuotaProfileLoadbalancer {
    pub health_monitors: Option<i64>,
    pub l7_policies: Option<i64>,
    pub l7_rules: Option<i64>,
    pub listeners: Option<i64>,
    pub loadbalancers: Option<i64>,
    pub members: Option<i64>,
    pub pools: Option<i64>,
}

/// `publicCloud.quota.QuotaProfileNetwork`
#[derive(Debug, Clone)]
pub struct QuotaQuotaProfileNetwork {
    pub floating_ips: Option<i64>,
    pub gateways: Option<i64>,
    pub networks: Option<i64>,
    pub security_group_rules: Option<i64>,
    pub security_groups: Option<i64>,
    pub subnets: Option<i64>,
}

/// `publicCloud.quota.QuotaProfileShare`
#[derive(Debug, Clone)]
pub struct QuotaQuotaProfileShare {
    pub backup_size_total: Option<i64>,
    pub backups: Option<i64>,
    pub shares: Option<i64>,
    pub size_total: Option<i64>,
    pub snapshots: Option<i64>,
}

/// `publicCloud.quota.QuotaProfileVolume`
#[derive(Debug, Clone)]
pub struct QuotaQuotaProfileVolume {
    pub backup_size_total: Option<i64>,
    pub backups: Option<i64>,
    pub size_total: Option<i64>,
    pub snapshots: Option<i64>,
    pub volumes: Option<i64>,
}

/// `publicCloud.quota.QuotaProfile`
#[derive(Debug, Clone)]
pub struct QuotaQuotaProfile {
    pub compute: Option<QuotaQuotaProfileCompute>,
    pub key_manager: Option<QuotaQuotaProfileKeyManager>,
    pub keypair: Option<QuotaQuotaProfileKeypair>,
    pub loadbalancer: Option<QuotaQuotaProfileLoadbalancer>,
    pub name: Option<String>,
    pub network: Option<QuotaQuotaProfileNetwork>,
    pub share: Option<QuotaQuotaProfileShare>,
    pub volume: Option<QuotaQuotaProfileVolume>,
}

/// `publicCloud.quota.QuotaUnitEnum`
#[derive(Debug, Clone, Copy, PartialEq, Eq)]
pub enum PublicCloudQuotaQuotaUnit {
    /// `COUNT`
    Count,
    /// `GB`
    Gb,
    /// `MB`
    Mb,
    /// Any value not listed here.
    Other,
}

/// `publicCloud.quota.QuotaUsage`
#[derive(Debug, Clone)]
pub struct QuotaQuotaUsage {
    pub limit: Option<i64>,
    pub unit: Option<PublicCloudQuotaQuotaUnit>,
    pub used: Option<i64>,
}

/// `publicCloud.quota.QuotaRegionCompute`
#[derive(Debug, Clone)]
pub struct QuotaQuotaRegionCompute {
    pub cores: Option<QuotaQuotaUsage>,
    pub instances: Option<QuotaQuotaUsage>,
    pub memory: Option<QuotaQuotaUsage>,
}

/// `publicCloud.quota.QuotaRegionKeyManager`
#[derive(Debug, Clone)]
pub struct QuotaQuotaRegionKeyManager {
    pub containers: Option<QuotaQuotaUsage>,
    pub secrets: Option<QuotaQuotaUsage>,
}

/// `publicCloud.quota.QuotaRegionKeypair`
#[derive(Debug, Clone)]
pub struct QuotaQuotaRegionKeypair {
    pub keypairs: Option<QuotaQuotaUsage>,
}

/// `publicCloud.quota.QuotaRegionLoadbalancer`
#[derive(Debug, Clone)]
pub struct QuotaQuotaRegionLoadbalancer {
    pub health_monitors: Option<QuotaQuotaUsage>,
    pub l7_policies: Option<QuotaQuotaUsage>,
    pub l7_rules: Option<QuotaQuotaUsage>,
    pub listeners: Option<QuotaQuotaUsage>,
    pub loadbalancers: Option<QuotaQuotaUsage>,
    pub members: Option<QuotaQuotaUsage>,
    pub pools: Option<QuotaQuotaUsage>,
}

/// `publicCloud.quota.QuotaRegionNetwork`
#[derive(Debug, Clone)]
pub struct QuotaQuotaRegionNetwork {
    pub floating_ips: Option<QuotaQuotaUsage>,
    pub gateways: Option<QuotaQuotaUsage>,
    pub networks: Option<QuotaQuotaUsage>,
    pub security_group_rules: Option<QuotaQuotaUsage>,
    pub security_groups: Option<QuotaQuotaUsage>,
    pub subnets: Option<QuotaQuotaUsage>,
}

/// `publicCloud.quota.QuotaLimit`
#[derive(Debug, Clone)]
pub struct QuotaQuotaLimit {
    pub limit: Option<i64>,
    pub unit: Option<PublicCloudQuotaQuotaUnit>,
}

/// `publicCloud.quota.QuotaRegionShare`
#[derive(Debug, Clone)]
pub struct QuotaQuotaRegionShare {
    pub backup_size_total: Option<QuotaQuotaUsage>,
    pub backups: Option<QuotaQuotaUsage>,
    pub per_share_size: Option<QuotaQuotaLimit>,
    pub share_networks: Option<QuotaQuotaUsage>,
    pub shares: Option<QuotaQuotaUsage>,
    pub size_total: Option<QuotaQuotaUsage>,
    pub snapshot_size_total: Option<QuotaQuotaUsage>,
    pub snapshots: Option<QuotaQuotaUsage>,
}

/// `publicCloud.quota.QuotaRegionVolume`
#[derive(Debug, Clone)]
pub struct QuotaQuotaRegionVolume {
    pub backup_size_total: Option<QuotaQuotaUsage>,
    pub backups: Option<QuotaQuotaUsage>,
    pub per_volume_size: Option<QuotaQuotaLimit>,
    pub size_total: Option<QuotaQuotaUsage>,
    pub snapshots: Option<QuotaQuotaUsage>,
    pub volumes: Option<QuotaQuotaUsage>,
}

/// `publicCloud.quota.QuotaUsageDetails`
#[derive(Debug, Clone)]
pub struct QuotaQuotaUsageDetails {
    pub compute: Option<QuotaQuotaRegionCompute>,
    pub key_manager: Option<QuotaQuotaRegionKeyManager>,
    pub keypair: Option<QuotaQuotaRegionKeypair>,
    pub loadbalancer: Option<QuotaQuotaRegionLoadbalancer>,
    pub network: Option<QuotaQuotaRegionNetwork>,
    pub share: Option<QuotaQuotaRegionShare>,
    pub volume: Option<QuotaQuotaRegionVolume>,
}

/// `publicCloud.quota.QuotaRegionCurrentState`
#[derive(Debug, Clone)]
pub struct QuotaQuotaRegionCurrentState {
    pub location: Option<CommonLocation>,
    pub profile: Option<String>,
    pub usage: Option<QuotaQuotaUsageDetails>,
}

/// `publicCloud.quota.QuotaCurrentState`
#[derive(Debug, Clone)]
pub struct QuotaQuotaCurrentState {
    pub available_profiles: Option<Vec<QuotaQuotaProfile>>,
    pub prevent_automatic_quota_upgrade: Option<bool>,
    pub regions: Option<Vec<QuotaQuotaRegionCurrentState>>,
}

/// `publicCloud.quota.QuotaRegionTargetSpec`
#[derive(Debug, Clone)]
pub struct QuotaQuotaRegionTargetSpec {
    pub location: CommonLocation,
    pub profile: String,
}

/// `publicCloud.quota.QuotaTargetSpec`
#[derive(Debug, Clone)]
pub struct QuotaQuotaTargetSpec {
    pub prevent_automatic_quota_upgrade: Option<bool>,
    pub regions: Option<Vec<QuotaQuotaRegionTargetSpec>>,
}

/// `publicCloud.quota.Quota`
#[derive(Debug, Clone)]
pub struct QuotaQuota {
    pub checksum: Option<String>,
    pub created_at: Option<String>,
    pub current_state: Option<QuotaQuotaCurrentState>,
    pub current_tasks: Option<Vec<CurrentTask>>,
    pub id: Option<String>,
    pub resource_status: Option<CommonResourceStatus>,
    pub target_spec: Option<QuotaQuotaTargetSpec>,
    pub updated_at: Option<String>,
}

/// `publicCloud.quota.QuotaUpdateTargetSpec`
#[derive(Debug, Clone)]
pub struct QuotaQuotaUpdateTargetSpec {
    pub prevent_automatic_quota_upgrade: bool,
    pub regions: Vec<QuotaQuotaRegionTargetSpec>,
}

/// `publicCloud.quota.QuotaUpdate`
#[derive(Debug, Clone)]
pub struct QuotaQuotaUpdate {
    pub checksum: String,
    pub target_spec: QuotaQuotaUpdateTargetSpec,
}

/// `publicCloud.rancher.EligibilityReference`
#[derive(Debug, Clone)]
pub struct RancherEligibilityReference {
    pub free_trial: Option<bool>,
}

/// `publicCloud.rancher.IpRestriction`
#[derive(Debug, Clone)]
pub struct RancherIpRestriction {
    pub cidr_block: String,
    pub description: String,
}

/// `publicCloud.rancher.Networking`
#[derive(Debug, Clone)]
pub struct RancherNetworking {
    pub egress_cidr_blocks: Option<Vec<String>>,
}

/// `publicCloud.rancher.PlanCapabilityStatusEnum`
#[derive(Debug, Clone, Copy, PartialEq, Eq)]
pub enum PublicCloudRancherPlanCapabilityStatus {
    /// `AVAILABLE`
    Available,
    /// `CURRENT`
    Current,
    /// `UNAVAILABLE`
    Unavailable,
    /// Any value not listed here.
    Other,
}

/// `publicCloud.rancher.PlanEnum`
#[derive(Debug, Clone, Copy, PartialEq, Eq)]
pub enum PublicCloudRancherPlan {
    /// `OVHCLOUD_EDITION`
    OvhcloudEdition,
    /// `STANDARD`
    Standard,
    /// Any value not listed here.
    Other,
}

/// `publicCloud.rancher.PlanUnavailabilityCauseEnum`
#[derive(Debug, Clone, Copy, PartialEq, Eq)]
pub enum PublicCloudRancherPlanUnavailabilityCause {
    /// `CANNOT_DOWNGRADE_USING_HIGHER_FEATURES`
    CannotDowngradeUsingHigherFeatures,
    /// `CANNOT_SWITCH_PLAN_FOR_ALPHA`
    CannotSwitchPlanForAlpha,
    /// `NOT_IMPLEMENTED`
    NotImplemented,
    /// Any value not listed here.
    Other,
}

/// `publicCloud.rancher.PlanCapability`
#[derive(Debug, Clone)]
pub struct RancherPlanCapability {
    pub cause: Option<PublicCloudRancherPlanUnavailabilityCause>,
    pub message: Option<String>,
    pub name: Option<PublicCloudRancherPlan>,
    pub status: Option<PublicCloudRancherPlanCapabilityStatus>,
}

/// `publicCloud.rancher.PlanReferenceStatusEnum`
#[derive(Debug, Clone, Copy, PartialEq, Eq)]
pub enum PublicCloudRancherPlanReferenceStatus {
    /// `AVAILABLE`
    Available,
    /// `UNAVAILABLE`
    Unavailable,
    /// Any value not listed here.
    Other,
}

/// `publicCloud.rancher.PlanReference`
#[derive(Debug, Clone)]
pub struct RancherPlanReference {
    pub cause: Option<PublicCloudRancherPlanUnavailabilityCause>,
    pub message: Option<String>,
    pub name: Option<PublicCloudRancherPlan>,
    pub status: Option<PublicCloudRancherPlanReferenceStatus>,
}

/// `publicCloud.rancher.RegionEnum`
#[derive(Debug, Clone, Copy, PartialEq, Eq)]
pub enum PublicCloudRancherRegion {
    /// `EU_WEST_GRA`
    EuWestGra,
    /// `EU_WEST_RBX`
    EuWestRbx,
    /// `EU_WEST_SBG`
    EuWestSbg,
    /// Any value not listed here.
    Other,
}

/// `publicCloud.rancher.Usage`
#[derive(Debug, Clone)]
pub struct RancherUsage {
    pub datetime: Option<String>,
    pub orchestrated_vcpus: Option<i64>,
}

/// `publicCloud.rancher.RancherTargetSpec`
#[derive(Debug, Clone)]
pub struct RancherRancherTargetSpec {
    pub iam_auth_enabled: Option<bool>,
    pub ip_restrictions: Option<Vec<RancherIpRestriction>>,
    pub name: String,
    pub plan: PublicCloudRancherPlan,
    pub version: String,
}

/// `publicCloud.rancher.RancherCreationTargetSpec`
#[derive(Debug, Clone)]
pub struct RancherRancherCreationTargetSpec {
    pub iam_auth_enabled: Option<bool>,
    pub name: String,
    pub plan: PublicCloudRancherPlan,
    pub version: Option<String>,
}

/// `publicCloud.rancher.RancherCreation`
#[derive(Debug, Clone)]
pub struct RancherRancherCreation {
    pub target_spec: RancherRancherCreationTargetSpec,
}

/// `publicCloud.rancher.RancherUpdate`
#[derive(Debug, Clone)]
pub struct RancherRancherUpdate {
    pub target_spec: RancherRancherTargetSpec,
}

/// `publicCloud.rancher.VersionCapabilityStatusEnum`
#[derive(Debug, Clone, Copy, PartialEq, Eq)]
pub enum PublicCloudRancherVersionCapabilityStatus {
    /// `AVAILABLE`
    Available,
    /// `UNAVAILABLE`
    Unavailable,
    /// Any value not listed here.
    Other,
}

/// `publicCloud.rancher.VersionUnavailabilityCauseEnum`
#[derive(Debug, Clone, Copy, PartialEq, Eq)]
pub enum PublicCloudRancherVersionUnavailabilityCause {
    /// `CANNOT_UPGRADE_MULTIPLE_VERSIONS`
    CannotUpgradeMultipleVersions,
    /// `DEPRECATED`
    Deprecated,
    /// `DISABLED`
    Disabled,
    /// `END_OF_LIFE`
    EndOfLife,
    /// `END_OF_SALE`
    EndOfSale,
    /// `END_OF_SUPPORT`
    EndOfSupport,
    /// Any value not listed here.
    Other,
}

/// `publicCloud.rancher.VersionCapability`
#[derive(Debug, Clone)]
pub struct RancherVersionCapability {
    pub cause: Option<PublicCloudRancherVersionUnavailabilityCause>,
    pub changelog_url: Option<String>,
    pub message: Option<String>,
    pub name: Option<String>,
    pub status: Option<PublicCloudRancherVersionCapabilityStatus>,
}

/// `publicCloud.rancher.VersionReferenceStatusEnum`
#[derive(Debug, Clone, Copy, PartialEq, Eq)]
pub enum PublicCloudRancherVersionReferenceStatus {
    /// `AVAILABLE`
    Available,
    /// `UNAVAILABLE`
    Unavailable,
    /// Any value not listed here.
    Other,
}

/// `publicCloud.rancher.VersionReference`
#[derive(Debug, Clone)]
pub struct RancherVersionReference {
    pub cause: Option<PublicCloudRancherVersionUnavailabilityCause>,
    pub changelog_url: Option<String>,
    pub message: Option<String>,
    pub name: Option<String>,
    pub status: Option<PublicCloudRancherVersionReferenceStatus>,
}

/// `publicCloud.reference.RegionStatusEnum`
#[derive(Debug, Clone, Copy, PartialEq, Eq)]
pub enum PublicCloudReferenceRegionStatus {
    /// `DISABLED`
    Disabled,
    /// `ENABLED`
    Enabled,
    /// `MAINTENANCE`
    Maintenance,
    /// Any value not listed here.
    Other,
}

/// `publicCloud.reference.Region`
#[derive(Debug, Clone)]
pub struct ReferenceRegion {
    pub availability_zones: Option<Vec<String>>,
    pub continent: Option<String>,
    pub country: Option<String>,
    pub datacenter_name: Option<String>,
    pub name: Option<String>,
    pub services: Option<Vec<String>>,
    pub status: Option<PublicCloudReferenceRegionStatus>,
}

/// `publicCloud.reference.instance.Flavor`
#[derive(Debug, Clone)]
pub struct ReferenceInstanceFlavor {
    pub description: Option<String>,
    pub disk: Option<i64>,
    pub ephemeral: Option<i64>,
    pub id: Option<String>,
    pub is_public: Option<bool>,
    pub location: Option<CommonLocation>,
    pub name: Option<String>,
    pub ram: Option<i64>,
    pub swap: Option<i64>,
    pub vcpus: Option<i64>,
}

/// `publicCloud.reference.instance.Image`
#[derive(Debug, Clone)]
pub struct ReferenceInstanceImage {
    pub created_at: Option<String>,
    pub id: Option<String>,
    pub location: Option<CommonLocation>,
    pub min_disk: Option<i64>,
    pub min_ram: Option<i64>,
    pub name: Option<String>,
    pub size: Option<i64>,
    pub status: Option<PublicCloudInstanceImageStatus>,
    pub updated_at: Option<String>,
    pub visibility: Option<PublicCloudInstanceImageVisibility>,
}

/// `publicCloud.securityGroup.EthernetTypeEnum`
#[derive(Debug, Clone, Copy, PartialEq, Eq)]
pub enum PublicCloudSecurityGroupEthernetType {
    /// `IPV4`
    Ipv4,
    /// `IPV6`
    Ipv6,
    /// Any value not listed here.
    Other,
}

/// `publicCloud.securityGroup.ProtocolEnum`
#[derive(Debug, Clone, Copy, PartialEq, Eq)]
pub enum PublicCloudSecurityGroupProtocol {
    /// `AH`
    Ah,
    /// `DCCP`
    Dccp,
    /// `EGP`
    Egp,
    /// `ESP`
    Esp,
    /// `GRE`
    Gre,
    /// `ICMP`
    Icmp,
    /// `ICMPV6`
    Icmpv6,
    /// `IGMP`
    Igmp,
    /// `OSPF`
    Ospf,
    /// `PGM`
    Pgm,
    /// `RSVP`
    Rsvp,
    /// `SCTP`
    Sctp,
    /// `TCP`
    Tcp,
    /// `UDP`
    Udp,
    /// `UDPLITE`
    Udplite,
    /// `VRRP`
    Vrrp,
    /// Any value not listed here.
    Other,
}

/// `publicCloud.securityGroup.TrafficFlowEnum`
#[derive(Debug, Clone, Copy, PartialEq, Eq)]
pub enum PublicCloudSecurityGroupTrafficFlow {
    /// `EGRESS`
    Egress,
    /// `INGRESS`
    Ingress,
    /// Any value not listed here.
    Other,
}

/// `publicCloud.securityGroup.SecurityGroupStateRule`
#[derive(Debug, Clone)]
pub struct SecurityGroupSecurityGroupStateRule {
    pub description: Option<String>,
    pub direction: Option<PublicCloudSecurityGroupTrafficFlow>,
    pub ethernet_type: Option<PublicCloudSecurityGroupEthernetType>,
    pub id: Option<String>,
    pub port_range_max: Option<i64>,
    pub port_range_min: Option<i64>,
    pub protocol: Option<PublicCloudSecurityGroupProtocol>,
    pub remote_group: Option<SecurityGroupSecurityGroupRef>,
    pub remote_ip_prefix: Option<String>,
}

/// `publicCloud.securityGroup.SecurityGroupCurrentState`
#[derive(Debug, Clone)]
pub struct SecurityGroupSecurityGroupCurrentState {
    pub default_rules: Option<Vec<SecurityGroupSecurityGroupStateRule>>,
    pub description: Option<String>,
    pub location: Option<CommonLocation>,
    pub name: Option<String>,
    pub rules: Option<Vec<SecurityGroupSecurityGroupStateRule>>,
}

/// `publicCloud.securityGroup.SecurityGroupTargetRule`
#[derive(Debug, Clone)]
pub struct SecurityGroupSecurityGroupTargetRule {
    pub description: Option<String>,
    pub direction: PublicCloudSecurityGroupTrafficFlow,
    pub ethernet_type: PublicCloudSecurityGroupEthernetType,
    pub port_range_max: Option<i64>,
    pub port_range_min: Option<i64>,
    pub protocol: Option<PublicCloudSecurityGroupProtocol>,
    pub remote_group: Option<SecurityGroupSecurityGroupRef>,
    pub remote_ip_prefix: Option<String>,
}

/// `publicCloud.securityGroup.SecurityGroupTargetSpec`
#[derive(Debug, Clone)]
pub struct SecurityGroupSecurityGroupTargetSpec {
    pub description: Option<String>,
    pub location: CommonLocation,
    pub name: String,
    pub rules: Option<Vec<SecurityGroupSecurityGroupTargetRule>>,
}

/// `publicCloud.securityGroup.SecurityGroup`
#[derive(Debug, Clone)]
pub struct SecurityGroupSecurityGroup {
    pub checksum: Option<String>,
    pub created_at: Option<String>,
    pub current_state: Option<SecurityGroupSecurityGroupCurrentState>,
    pub current_tasks: Option<Vec<CurrentTask>>,
    pub id: Option<String>,
    pub resource_status: Option<CommonResourceStatus>,
    pub target_spec: Option<SecurityGroupSecurityGroupTargetSpec>,
    pub updated_at: Option<String>,
}

/// `publicCloud.securityGroup.SecurityGroupCreation`
#[derive(Debug, Clone)]
pub struct SecurityGroupSecurityGroupCreation {
    pub target_spec: SecurityGroupSecurityGroupTargetSpec,
}

/// `publicCloud.securityGroup.SecurityGroupUpdateTargetSpec`
#[derive(Debug, Clone)]
pub struct SecurityGroupSecurityGroupUpdateTargetSpec {
    pub description: Option<String>,
    pub name: String,
    pub rules: Option<Vec<SecurityGroupSecurityGroupTargetRule>>,
}

/// `publicCloud.securityGroup.SecurityGroupUpdate`
#[derive(Debug, Clone)]
pub struct SecurityGroupSecurityGroupUpdate {
    pub checksum: String,
    pub target_spec: SecurityGroupSecurityGroupUpdateTargetSpec,
}

/// `publicCloud.sshKey.SSHKey`
#[derive(Debug, Clone)]
pub struct SshKeySSHKey {
    pub created_at: Option<String>,
    pub name: Option<String>,
    pub public_key: Option<String>,
    pub updated_at: Option<String>,
}

/// `publicCloud.sshKey.SSHKeyCreation`
#[derive(Debug, Clone)]
pub struct SshKeySSHKeyCreation {
    pub name: String,
    pub public_key: String,
}

/// `publicCloud.storage.file.FileStorageAccessLevelEnum`
#[derive(Debug, Clone, Copy, PartialEq, Eq)]
pub enum PublicCloudStorageFileFileStorageAccessLevel {
    /// `READ_ONLY`
    ReadOnly,
    /// `READ_WRITE`
    ReadWrite,
    /// Any value not listed here.
    Other,
}

/// `publicCloud.storage.file.FileStorageAccessRuleStateEnum`
#[derive(Debug, Clone, Copy, PartialEq, Eq)]
pub enum PublicCloudStorageFileFileStorageAccessRuleState {
    /// `ACTIVE`
    Active,
    /// `APPLYING`
    Applying,
    /// `DENYING`
    Denying,
    /// `ERROR`
    Error,
    /// Any value not listed here.
    Other,
}

/// `publicCloud.storage.file.FileStorageAccessRule`
#[derive(Debug, Clone)]
pub struct StorageFileFileStorageAccessRule {
    pub access_level: Option<PublicCloudStorageFileFileStorageAccessLevel>,
    pub access_to: Option<String>,
    pub created_at: Option<String>,
    pub id: Option<String>,
    pub state: Option<PublicCloudStorageFileFileStorageAccessRuleState>,
}

/// `publicCloud.storage.file.FileStorageExportLocation`
#[derive(Debug, Clone)]
pub struct StorageFileFileStorageExportLocation {
    pub path: Option<String>,
    pub preferred: Option<bool>,
}

/// `publicCloud.storage.file.FileStorageProtocolEnum`
#[derive(Debug, Clone, Copy, PartialEq, Eq)]
pub enum PublicCloudStorageFileFileStorageProtocol {
    /// `NFS`
    Nfs,
    /// Any value not listed here.
    Other,
}

/// `publicCloud.storage.file.FileStorageTypeEnum`
#[derive(Debug, Clone, Copy, PartialEq, Eq)]
pub enum PublicCloudStorageFileFileStorageType {
    /// `STANDARD_1AZ`
    Standard1Az,
    /// Any value not listed here.
    Other,
}

/// `publicCloud.storage.file.FileStorageCurrentState`
#[derive(Debug, Clone)]
pub struct StorageFileFileStorageCurrentState {
    pub access_rules: Option<Vec<StorageFileFileStorageAccessRule>>,
    pub description: Option<String>,
    pub export_locations: Option<Vec<StorageFileFileStorageExportLocation>>,
    pub location: Option<CommonLocation>,
    pub name: Option<String>,
    pub network_id: Option<String>,
    pub protocol: Option<PublicCloudStorageFileFileStorageProtocol>,
    pub share_type: Option<PublicCloudStorageFileFileStorageType>,
    pub size: Option<i64>,
    pub subnet_id: Option<String>,
}

/// `publicCloud.storage.file.FileStorageAccessRuleInput`
#[derive(Debug, Clone)]
pub struct StorageFileFileStorageAccessRuleInput {
    pub access_level: PublicCloudStorageFileFileStorageAccessLevel,
    pub access_to: String,
}

/// `publicCloud.storage.file.FileStorageTargetSpec`
#[derive(Debug, Clone)]
pub struct StorageFileFileStorageTargetSpec {
    pub access_rules: Option<Vec<StorageFileFileStorageAccessRuleInput>>,
    pub description: Option<String>,
    pub location: CommonLocation,
    pub name: String,
    pub network_id: String,
    pub protocol: PublicCloudStorageFileFileStorageProtocol,
    pub share_type: PublicCloudStorageFileFileStorageType,
    pub size: i64,
    pub subnet_id: String,
}

/// `publicCloud.storage.file.FileStorage`
#[derive(Debug, Clone)]
pub struct StorageFileFileStorage {
    pub checksum: Option<String>,
    pub created_at: Option<String>,
    pub current_state: Option<StorageFileFileStorageCurrentState>,
    pub current_tasks: Option<Vec<CurrentTask>>,
    pub id: Option<String>,
    pub resource_status: Option<CommonResourceStatus>,
    pub target_spec: Option<StorageFileFileStorageTargetSpec>,
    pub updated_at: Option<String>,
}

/// `publicCloud.storage.file.FileStorageCreation`
#[derive(Debug, Clone)]
pub struct StorageFileFileStorageCreation {
    pub target_spec: StorageFileFileStorageTargetSpec,
}

/// `publicCloud.storage.file.FileStorageSnapshotCurrentState`
#[derive(Debug, Clone)]
pub struct StorageFileFileStorageSnapshotCurrentState {
    pub description: Option<String>,
    pub location: Option<CommonLocation>,
    pub name: Option<String>,
    pub share_id: Option<String>,
    pub share_proto: Option<PublicCloudStorageFileFileStorageProtocol>,
    pub share_size: Option<i64>,
    pub snapshot_size: Option<i64>,
}

/// `publicCloud.storage.file.FileStorageSnapshotTargetSpec`
#[derive(Debug, Clone)]
pub struct StorageFileFileStorageSnapshotTargetSpec {
    pub description: Option<String>,
    pub location: CommonLocation,
    pub name: Option<String>,
    pub share_id: String,
}

/// `publicCloud.storage.file.FileStorageSnapshot`
#[derive(Debug, Clone)]
pub struct StorageFileFileStorageSnapshot {
    pub checksum: Option<String>,
    pub created_at: Option<String>,
    pub current_state: Option<StorageFileFileStorageSnapshotCurrentState>,
    pub current_tasks: Option<Vec<CurrentTask>>,
    pub id: Option<String>,
    pub resource_status: Option<CommonResourceStatus>,
    pub target_spec: Option<StorageFileFileStorageSnapshotTargetSpec>,
    pub updated_at: Option<String>,
}

/// `publicCloud.storage.file.FileStorageSnapshotCreation`
#[derive(Debug, Clone)]
pub struct StorageFileFileStorageSnapshotCreation {
    pub target_spec: StorageFileFileStorageSnapshotTargetSpec,
}

/// `publicCloud.storage.file.FileStorageSnapshotUpdateTargetSpec`
#[derive(Debug, Clone)]
pub struct StorageFileFileStorageSnapshotUpdateTargetSpec {
    pub description: Option<String>,
    pub name: Option<String>,
}

/// `publicCloud.storage.file.FileStorageSnapshotUpdate`
#[derive(Debug, Clone)]
pub struct StorageFileFileStorageSnapshotUpdate {
    pub checksum: String,
    pub target_spec: StorageFileFileStorageSnapshotUpdateTargetSpec,
}

/// `publicCloud.storage.file.FileStorageUpdateTargetSpec`
#[derive(Debug, Clone)]
pub struct StorageFileFileStorageUpdateTargetSpec {
    pub access_rules: Option<Vec<StorageFileFileStorageAccessRuleInput>>,
    pub description: Option<String>,
    pub name: String,
    pub size: i64,
}

/// `publicCloud.storage.file.FileStorageUpdate`
#[derive(Debug, Clone)]
pub struct StorageFileFileStorageUpdate {
    pub checksum: String,
    pub target_spec: StorageFileFileStorageUpdateTargetSpec,
}

/// `publicCloud.storage.object.BucketEncryptionAlgorithmEnum`
#[derive(Debug, Clone, Copy, PartialEq, Eq)]
pub enum PublicCloudStorageObjectBucketEncryptionAlgorithm {
    /// `AES256`
    Aes256,
    /// Any value not listed here.
    Other,
}

/// `publicCloud.storage.object.BucketEncryptionConfig`
#[derive(Debug, Clone)]
pub struct StorageObjectBucketEncryptionConfig {
    pub algorithm: PublicCloudStorageObjectBucketEncryptionAlgorithm,
}

/// `publicCloud.storage.object.BucketLocation`
#[derive(Debug, Clone)]
pub struct StorageObjectBucketLocation {
    pub region: String,
}

/// `publicCloud.storage.object.BucketObjectLockModeEnum`
#[derive(Debug, Clone, Copy, PartialEq, Eq)]
pub enum PublicCloudStorageObjectBucketObjectLockMode {
    /// `COMPLIANCE`
    Compliance,
    /// `GOVERNANCE`
    Governance,
    /// Any value not listed here.
    Other,
}

/// `publicCloud.storage.object.BucketObjectLockConfig`
#[derive(Debug, Clone)]
pub struct StorageObjectBucketObjectLockConfig {
    pub mode: PublicCloudStorageObjectBucketObjectLockMode,
    pub retention_days: i64,
    pub retention_years: Option<i64>,
}

/// `publicCloud.storage.object.BucketVersioningStatusEnum`
#[derive(Debug, Clone, Copy, PartialEq, Eq)]
pub enum PublicCloudStorageObjectBucketVersioningStatus {
    /// `DISABLED`
    Disabled,
    /// `ENABLED`
    Enabled,
    /// `SUSPENDED`
    Suspended,
    /// Any value not listed here.
    Other,
}

/// `publicCloud.storage.object.BucketVersioningConfig`
#[derive(Debug, Clone)]
pub struct StorageObjectBucketVersioningConfig {
    pub status: PublicCloudStorageObjectBucketVersioningStatus,
}

/// `publicCloud.storage.object.LifecycleRuleAbortIncompleteMultipartUpload`
#[derive(Debug, Clone)]
pub struct StorageObjectLifecycleRuleAbortIncompleteMultipartUpload {
    pub days_after_initiation: i64,
}

/// `publicCloud.storage.object.LifecycleRuleNoncurrentVersionExpiration`
#[derive(Debug, Clone)]
pub struct StorageObjectLifecycleRuleNoncurrentVersionExpiration {
    pub newer_noncurrent_versions: Option<i64>,
    pub noncurrent_days: i64,
}

/// `publicCloud.storage.object.StorageClassEnum`
#[derive(Debug, Clone, Copy, PartialEq, Eq)]
pub enum PublicCloudStorageObjectStorageClass {
    /// `DEEP_ARCHIVE`
    DeepArchive,
    /// `GLACIER_IR`
    GlacierIr,
    /// `HIGH_PERF`
    HighPerf,
    /// `STANDARD`
    Standard,
    /// `STANDARD_IA`
    StandardIa,
    /// Any value not listed here.
    Other,
}

/// `publicCloud.storage.object.LifecycleRuleNoncurrentVersionTransition`
#[derive(Debug, Clone)]
pub struct StorageObjectLifecycleRuleNoncurrentVersionTransition {
    pub newer_noncurrent_versions: Option<i64>,
    pub noncurrent_days: i64,
    pub storage_class: PublicCloudStorageObjectStorageClass,
}

/// `publicCloud.storage.object.LifecycleRuleStatusEnum`
#[derive(Debug, Clone, Copy, PartialEq, Eq)]
pub enum PublicCloudStorageObjectLifecycleRuleStatus {
    /// `DISABLED`
    Disabled,
    /// `ENABLED`
    Enabled,
    /// Any value not listed here.
    Other,
}

/// `publicCloud.storage.object.LifecycleRuleTransition`
#[derive(Debug, Clone)]
pub struct StorageObjectLifecycleRuleTransition {
    pub date: Option<String>,
    pub days: Option<i64>,
    pub storage_class: PublicCloudStorageObjectStorageClass,
}

/// `publicCloud.storage.object.ReplicationRuleDestination`
#[derive(Debug, Clone)]
pub struct StorageObjectReplicationRuleDestination {
    pub name: String,
    pub region: String,
    pub storage_class: Option<PublicCloudStorageObjectStorageClass>,
}

/// `publicCloud.storage.object.ReplicationRuleStatusEnum`
#[derive(Debug, Clone, Copy, PartialEq, Eq)]
pub enum PublicCloudStorageObjectReplicationRuleStatus {
    /// `DISABLED`
    Disabled,
    /// `ENABLED`
    Enabled,
    /// Any value not listed here.
    Other,
}

} // verus!
