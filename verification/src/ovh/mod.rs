//! OVHcloud API v2 resource types, one module per API section.

pub mod commercial_catalog;
pub mod iam;
pub mod location;
pub mod managed_cms;
pub mod network_defense;
pub mod notification;
pub mod okms;
pub mod public_cloud;
pub mod videocenter;
pub mod vmware_cloud_director;
pub mod vrack_services;
pub mod webhosting;
pub mod zimbra;
