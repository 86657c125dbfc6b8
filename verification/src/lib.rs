//! The netplan configuration as Rust types, laid out as in a netplan YAML
//! file, together with the decoding of the lenient booleans that YAML allows.
//!
//! The types follow the netplan reference, <https://netplan.io/reference/>:
//! one record for each block of the configuration, one enumeration for each
//! closed set of values, and `Option` wherever a key may be left out.

pub mod netplan;
pub mod yaml_bool;

use std::collections::HashMap;
use vstd::prelude::*;
pub use crate::yaml_bool::decoder::{string_or_bool, string_or_bool_option};
pub use crate::netplan::authentication::{AuthConfig, AuthMethod, KeyManagmentMode};
pub use crate::netplan::device_types::{ActivationMode, CommonPropertiesAllDevices};
pub use crate::netplan::device_types::bonds::{
    AdSelect,
    ArpAllTargets,
    ArpValidate,
    BondConfig,
    BondMode,
    BondParameters,
    FailOverMacPolicy,
    LacpRate,
    PrimaryReselectPolicy,
    TransmitHashPolicy,
};
pub use crate::netplan::device_types::bridges::{BridgeConfig, BridgeParameters};
pub use crate::netplan::device_types::dummy_devices::DummyDeviceConfig;
pub use crate::netplan::device_types::ethernets::{EmbeddedSwitchMode, EthernetConfig};
pub use crate::netplan::device_types::modems::ModemConfig;
pub use crate::netplan::device_types::physical::{
    CommonPropertiesPhysicalDeviceType,
    ConnectionMode,
    ControllerConfig,
    FailMode,
    Lacp,
    MatchConfig,
    OpenFlowProtocol,
    OpenVSwitchConfig,
    SslConfig,
};
pub use crate::netplan::device_types::tunnels::{
    TunnelConfig,
    TunnelKey,
    TunnelMode,
    WireGuardPeer,
    WireGuardPeerKey,
};
pub use crate::netplan::device_types::vlans::VlanConfig;
pub use crate::netplan::device_types::vrfs::VrfsConfig;
pub use crate::netplan::device_types::wifis::{
    AccessPointConfig,
    AccessPointMode,
    WakeOnWLan,
    WifiConfig,
    WirelessBand,
};
pub use crate::netplan::dhcp::{
    AddressMapping,
    AddressProperties,
    DhcpOverrides,
    Ipv6AddressGeneration,
    PreferredLifetime,
};
pub use crate::netplan::routing::{
    NameserverConfig,
    RouteScope,
    RouteType,
    RoutingConfig,
    RoutingPolicy,
};

verus! {

/// A netplan configuration file: the `network` block at its top.
#[derive(Debug, Clone, PartialEq, Eq)]
pub struct NetplanConfig {
    pub network: NetworkConfig,
}

impl Default for NetplanConfig {
    /// The value with nothing set.
    fn default() -> (r: Self)
        ensures
            r.network == (NetworkConfig {
                version: 0,
                renderer: None,
                ethernets: None,
                wifis: None,
                bonds: None,
                bridges: None,
                vlans: None,
                tunnels: None,
                vrfs: None,
                dummy_devices: None,
            }),
    {
        NetplanConfig {
            network: NetworkConfig::default(),
        }
    }
}

/// The `network` block: the version of the format, the renderer, and the
/// devices of each kind, each under its name.
#[derive(Debug, Clone, PartialEq, Eq)]
pub struct NetworkConfig {
    pub version: u8,
    pub renderer: Option<Renderer>,
    pub ethernets: Option<HashMap<String, EthernetConfig>>,
    pub wifis: Option<HashMap<String, WifiConfig>>,
    pub bonds: Option<HashMap<String, BondConfig>>,
    pub bridges: Option<HashMap<String, BridgeConfig>>,
    pub vlans: Option<HashMap<String, VlanConfig>>,
    pub tunnels: Option<HashMap<String, TunnelConfig>>,
    pub vrfs: Option<HashMap<String, VrfsConfig>>,
    pub dummy_devices: Option<HashMap<String, DummyDeviceConfig>>,
}

impl Default for NetworkConfig {
    /// The value with nothing set.
    fn default() -> (r: Self)
        ensures
            r == (NetworkConfig {
                version: 0,
                renderer: None,
                ethernets: None,
                wifis: None,
                bonds: None,
                bridges: None,
                vlans: None,
                tunnels: None,
                vrfs: None,
                dummy_devices: None,
            }),
    {
        NetworkConfig {
            version: 0,
            renderer: None,
            ethernets: None,
            wifis: None,
            bonds: None,
            bridges: None,
            vlans: None,
            tunnels: None,
            vrfs: None,
            dummy_devices: None,
        }
    }
}

/// Use the given networking backend for this definition. Currently supported are
/// networkd and NetworkManager. This property can be specified globally
/// in network:, for a device type (in e. g. ethernets:) or
/// for a particular device definition. Default is networkd.
///
/// (Since 0.99) The renderer property has one additional acceptable value for vlan
/// objects (i. e. defined in vlans:): sriov. If a vlan is defined with the
/// sriov renderer for an SR-IOV Virtual Function interface, this causes netplan to
/// set up a hardware VLAN filter for it. There can be only one defined per VF.
#[derive(Debug, Clone, PartialEq, Eq)]
pub enum Renderer {
    Networkd,
    NetworkManager,
    Sriov,
}

/// Takes a boolean, or the special value "route". When true, the domain
/// name received from the DHCP server will be used as DNS search domain
/// over this link, similar to the effect of the Domains= setting. If set
/// to "route", the domain name received from the DHCP server will be
/// used for routing DNS queries only, but not for searching, similar to
/// the effect of the Domains= setting when the argument is prefixed with
/// "~".
#[derive(Debug, Clone, PartialEq, Eq)]
pub enum UseDomains {
    /// A lenient boolean: a document may give it by any of the words that
    /// [`string_or_bool`](crate::string_or_bool) accepts.
    Boolean(bool),
    Route,
}

} // verus!
