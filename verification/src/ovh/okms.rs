//! OVHcloud API v2 **okms** types (`/v2/okms`).
//!
//! Data types of these endpoints; field and value names follow the API,
//! with the JSON name noted where it differs.

use vstd::prelude::*;

verus! {

/// `dbaas.logs.LogKind`
#[derive(Debug, Clone)]
pub struct LogsLogKind {
    pub additional_returned_fields: Option<Vec<String>>,
    pub created_at: Option<String>,
    pub display_name: Option<String>,
    pub kind_id: Option<String>,
    pub name: Option<String>,
    pub updated_at: Option<String>,
}

/// `dbaas.logs.LogSubscriptionResource`
#[derive(Debug, Clone)]
pub struct LogsLogSubscriptionResource {
    pub name: Option<String>,
    /// JSON field `type`.
    pub kind: Option<String>,
}

/// `dbaas.logs.LogSubscription`
#[derive(Debug, Clone)]
pub struct LogsLogSubscription {
    pub created_at: Option<String>,
    pub kind: Option<String>,
    pub resource: Option<LogsLogSubscriptionResource>,
    pub service_name: Option<String>,
    pub stream_id: Option<String>,
    pub subscription_id: Option<String>,
    pub updated_at: Option<String>,
}

/// `dbaas.logs.LogSubscriptionCreation`
#[derive(Debug, Clone)]
pub struct LogsLogSubscriptionCreation {
    pub kind: String,
    pub stream_id: String,
}

/// `dbaas.logs.LogSubscriptionResponse`
#[derive(Debug, Clone)]
pub struct LogsLogSubscriptionResponse {
    pub operation_id: Option<String>,
    pub service_name: Option<String>,
}

/// `dbaas.logs.LogUrlCreation`
#[derive(Debug, Clone)]
pub struct LogsLogUrlCreation {
    pub kind: String,
}

/// `dbaas.logs.TemporaryLogsLink`
#[derive(Debug, Clone)]
pub struct LogsTemporaryLogsLink {
    pub expiration_date: Option<String>,
    pub url: Option<String>,
}

/// `iam.resource.TagFilter.OperatorEnum`
#[derive(Debug, Clone, Copy, PartialEq, Eq)]
pub enum IamResourceTagFilterOperator {
    /// `EQ`
    Eq,
    /// `EXISTS`
    Exists,
    /// `ILIKE`
    Ilike,
    /// `LIKE`
    Like,
    /// `NEQ`
    Neq,
    /// `NEXISTS`
    Nexists,
    /// Any value not listed here.
    Other,
}

/// `iam.resource.TagFilter`
#[derive(Debug, Clone)]
pub struct ResourceTagFilter {
    pub operator: Option<IamResourceTagFilterOperator>,
    pub value: Option<String>,
}

/// `location.TypeEnum`
#[derive(Debug, Clone, Copy, PartialEq, Eq)]
pub enum LocationType {
    /// `LOCAL-ZONE`
    LocalZone,
    /// `REGION-1-AZ`
    Region1Az,
    /// `REGION-3-AZ`
    Region3Az,
    /// Any value not listed here.
    Other,
}

/// `observability.CertificationLevelEnum`
#[derive(Debug, Clone, Copy, PartialEq, Eq)]
pub enum ObservabilityCertificationLevel {
    /// `HDS`
    Hds,
    /// `PCI_DSS`
    PciDss,
    /// `SNC`
    Snc,
    /// `SOC2`
    Soc2,
    /// `STANDARD`
    Standard,
    /// `TRUSTED_ZONE`
    TrustedZone,
    /// Any value not listed here.
    Other,
}

/// `okms.CertificateTypeEnum`
#[derive(Debug, Clone, Copy, PartialEq, Eq)]
pub enum OkmsCertificateType {
    /// `ECDSA`
    Ecdsa,
    /// `RSA`
    Rsa,
    /// Any value not listed here.
    Other,
}

/// `okms.CredentialStatusEnum`
#[derive(Debug, Clone, Copy, PartialEq, Eq)]
pub enum OkmsCredentialStatus {
    /// `CREATING`
    Creating,
    /// `DELETING`
    Deleting,
    /// `ERROR`
    Error,
    /// `EXPIRED`
    Expired,
    /// `READY`
    Ready,
    /// Any value not listed here.
    Other,
}

/// `okms.KeyAlgEnum`
#[derive(Debug, Clone, Copy, PartialEq, Eq)]
pub enum OkmsKeyAlg {
    /// `ES256`
    Es256,
    /// `ES384`
    Es384,
    /// `ES512`
    Es512,
    /// `PS256`
    Ps256,
    /// `PS384`
    Ps384,
    /// `PS512`
    Ps512,
    /// `RS256`
    Rs256,
    /// `RS384`
    Rs384,
    /// `RS512`
    Rs512,
    /// Any value not listed here.
    Other,
}

/// `okms.KeyCurveEnum`
#[derive(Debug, Clone, Copy, PartialEq, Eq)]
pub enum OkmsKeyCurve {
    /// `P-256`
    P256,
    /// `P-384`
    P384,
    /// `P-521`
    P521,
    /// Any value not listed here.
    Other,
}

/// `okms.KeyDeactivationReasonEnum`
#[derive(Debug, Clone, Copy, PartialEq, Eq)]
pub enum OkmsKeyDeactivationReason {
    /// `AFFILIATION_CHANGED`
    AffiliationChanged,
    /// `CA_COMPROMISE`
    CaCompromise,
    /// `CESSATION_OF_OPERATION`
    CessationOfOperation,
    /// `KEY_COMPROMISE`
    KeyCompromise,
    /// `PRIVILEGE_WITHDRAWN`
    PrivilegeWithdrawn,
    /// `SUPERSEDED`
    Superseded,
    /// `UNSPECIFIED`
    Unspecified,
    /// Any value not listed here.
    Other,
}

/// `okms.KeyFormatEnum`
#[derive(Debug, Clone, Copy, PartialEq, Eq)]
pub enum OkmsKeyFormat {
    /// `JWK`
    Jwk,
    /// `PEM`
    Pem,
    /// Any value not listed here.
    Other,
}

/// `okms.KeyOpsEnum`
#[derive(Debug, Clone, Copy, PartialEq, Eq)]
pub enum OkmsKeyOps {
    /// `decrypt`
    Decrypt,
    /// `encrypt`
    Encrypt,
    /// `sign`
    Sign,
    /// `unwrapKey`
    UnwrapKey,
    /// `verify`
    Verify,
    /// `wrapKey`
    WrapKey,
    /// Any value not listed here.
    Other,
}

/// `okms.KeySizeEnum`
#[derive(Debug, Clone, Copy, PartialEq, Eq)]
pub enum OkmsKeySize {
    /// `128`
    V128,
    /// `192`
    V192,
    /// `256`
    V256,
    /// `384`
    V384,
    /// `521`
    V521,
    /// `2048`
    V2048,
    /// `3072`
    V3072,
    /// `4096`
    V4096,
    /// Any value not listed here.
    Other,
}

/// `okms.KeyStateEnum`
#[derive(Debug, Clone, Copy, PartialEq, Eq)]
pub enum OkmsKeyState {
    /// `ACTIVE`
    Active,
    /// `ALL`
    All,
    /// `COMPROMISED`
    Compromised,
    /// `DEACTIVATED`
    Deactivated,
    /// `DESTROYED`
    Destroyed,
    /// `DESTROYED_COMPROMISED`
    DestroyedCompromised,
    /// `PRE_ACTIVE`
    PreActive,
    /// Any value not listed here.
    Other,
}

/// `okms.KeyStateUpdateEnum`
#[derive(Debug, Clone, Copy, PartialEq, Eq)]
pub enum OkmsKeyStateUpdate {
    /// `ACTIVE`
    Active,
    /// `COMPROMISED`
    Compromised,
    /// `DEACTIVATED`
    Deactivated,
    /// Any value not listed here.
    Other,
}

/// `okms.KeyTypeEnum`
#[derive(Debug, Clone, Copy, PartialEq, Eq)]
pub enum OkmsKeyType {
    /// `EC`
    Ec,
    /// `RSA`
    Rsa,
    /// `oct`
    Oct,
    /// Any value not listed here.
    Other,
}

/// `okms.KeyUseEnum`
#[derive(Debug, Clone, Copy, PartialEq, Eq)]
pub enum OkmsKeyUse {
    /// `enc`
    Enc,
    /// `sig`
    Sig,
    /// Any value not listed here.
    Other,
}

/// `okms.ProtectionLevelEnum`
#[derive(Debug, Clone, Copy, PartialEq, Eq)]
pub enum OkmsProtectionLevel {
    /// `HSM`
    Hsm,
    /// `MANAGED_HSM`
    ManagedHsm,
    /// `SOFTWARE`
    Software,
    /// Any value not listed here.
    Other,
}

/// `okms.RegionEnum`
#[derive(Debug, Clone, Copy, PartialEq, Eq)]
pub enum OkmsRegion {
    /// `ap-south-mum`
    ApSouthMum,
    /// `ap-southeast-sgp`
    ApSoutheastSgp,
    /// `ap-southeast-syd`
    ApSoutheastSyd,
    /// `ca-east-bhs`
    CaEastBhs,
    /// `ca-east-tor`
    CaEastTor,
    /// `eu-central-waw`
    EuCentralWaw,
    /// `eu-south-mil`
    EuSouthMil,
    /// `eu-west-eri`
    EuWestEri,
    /// `eu-west-gra`
    EuWestGra,
    /// `eu-west-lim`
    EuWestLim,
    /// `eu-west-par`
    EuWestPar,
    /// `eu-west-rbx`
    EuWestRbx,
    /// `eu-west-sbg`
    EuWestSbg,
    /// Any value not listed here.
    Other,
}

/// `okms.SecretStateEnum`
#[derive(Debug, Clone, Copy, PartialEq, Eq)]
pub enum OkmsSecretState {
    /// `ACTIVE`
    Active,
    /// `DEACTIVATED`
    Deactivated,
    /// `DELETED`
    Deleted,
    /// Any value not listed here.
    Other,
}

/// `okms.reference.Region`
#[derive(Debug, Clone)]
pub struct ReferenceRegion {
    pub certifications: Option<Vec<ObservabilityCertificationLevel>>,
    pub id: Option<OkmsRegion>,
    pub kmip_endpoint: Option<String>,
    pub rest_endpoint: Option<String>,
    /// JSON field `type`.
    pub kind: Option<LocationType>,
}

/// `okms.reference.secretConfig.Response`
#[derive(Debug, Clone)]
pub struct ReferenceSecretConfigResponse {
    pub cas_required: Option<bool>,
    pub max_versions: Option<i64>,
}

/// `okms.reference.serviceKey.Curve`
#[derive(Debug, Clone)]
pub struct ReferenceServiceKeyCurve {
    pub default: Option<bool>,
    pub value: Option<OkmsKeyCurve>,
}

/// `okms.reference.serviceKey.Operations`
#[derive(Debug, Clone)]
pub struct ReferenceServiceKeyOperations {
    pub default: Option<bool>,
    pub value: Option<Vec<OkmsKeyOps>>,
}

/// `okms.reference.serviceKey.ProtectionLevel`
#[derive(Debug, Clone)]
pub struct ReferenceServiceKeyProtectionLevel {
    pub default: Option<bool>,
    pub value: Option<OkmsProtectionLevel>,
}

/// `okms.reference.serviceKey.Size`
#[derive(Debug, Clone)]
pub struct ReferenceServiceKeySize {
    pub default: Option<bool>,
    pub value: Option<OkmsKeySize>,
}

/// `okms.reference.serviceKey.Response`
#[derive(Debug, Clone)]
pub struct ReferenceServiceKeyResponse {
    pub curves: Option<Vec<ReferenceServiceKeyCurve>>,
    pub default: Option<bool>,
    pub operations: Option<Vec<ReferenceServiceKeyOperations>>,
    pub protection_level: Option<Vec<ReferenceServiceKeyProtectionLevel>>,
    pub sizes: Option<Vec<ReferenceServiceKeySize>>,
    /// JSON field `type`.
    pub kind: Option<OkmsKeyType>,
}

/// `okms.resource.UpdateRequest`
#[derive(Debug, Clone)]
pub struct ResourceUpdateRequest {
    pub pci_dss_enabled: Option<bool>,
}

/// `okms.secret.version.UpdateRequest`
#[derive(Debug, Clone)]
pub struct SecretVersionUpdateRequest {
    pub state: OkmsSecretState,
}

/// `okms.secret.version.UpdateResponse`
#[derive(Debug, Clone)]
pub struct SecretVersionUpdateResponse {
    pub created_at: Option<String>,
    pub deactivated_at: Option<String>,
    pub id: Option<i64>,
    pub state: Option<OkmsSecretState>,
}

/// `okms.secretConfig.Response`
#[derive(Debug, Clone)]
pub struct SecretConfigResponse {
    pub cas_required: Option<bool>,
    pub deactivate_version_after: Option<String>,
    pub max_versions: Option<i64>,
}

/// `okms.secretConfig.UpdateRequest`
#[derive(Debug, Clone)]
pub struct SecretConfigUpdateRequest {
    pub cas_required: Option<bool>,
    pub deactivate_version_after: Option<String>,
    pub max_versions: Option<i64>,
}

/// `okms.serviceKey.PEM`
#[derive(Debug, Clone)]
pub struct ServiceKeyPEM {
    pub pem: Option<String>,
}

/// `okms.serviceKey.Update`
#[derive(Debug, Clone)]
pub struct ServiceKeyUpdate {
    pub deactivation_reason: Option<OkmsKeyDeactivationReason>,
    pub name: Option<String>,
    pub state: Option<OkmsKeyStateUpdate>,
}

} // verus!
