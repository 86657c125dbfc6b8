//! The blocks of a netplan configuration.

pub mod authentication;
pub mod device_types;
pub mod dhcp;
pub mod routing;
