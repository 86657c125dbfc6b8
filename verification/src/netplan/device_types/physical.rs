use vstd::prelude::*;

verus! {

/// Common properties for physical device types
#[derive(Debug, Clone, PartialEq, Eq)]
pub struct CommonPropertiesPhysicalDeviceType {
    /// This selects a subset of available physical devices by various hardware
    /// properties. The following configuration will then apply to all matching
    /// devices, as soon as they appear. All specified properties must match.
    pub match_: Option<MatchConfig>,
    /// When matching on unique properties such as path or MAC, or with additional
    /// assumptions such as "there will only ever be one wifi device",
    /// match rules can be written so that they only match one device. Then this
    /// property can be used to give that device a more specific/desirable/nicer
    /// name than the default from udev's ifnames. Any additional device that
    /// satisfies the match rules will then fail to get renamed and keep the
    /// original kernel name (and dmesg will show an error).
    pub set_name: Option<String>,
    /// Enable wake on LAN. Off by default.
    ///
    /// Note: This will not work reliably for devices matched by name
    /// only and rendered by networkd, due to interactions with device
    /// renaming in udev. Match devices by MAC when setting wake on LAN.
    ///
    /// A lenient boolean: a document may give it by any of the words that
    /// [`string_or_bool_option`](crate::string_or_bool_option) accepts.
    pub wakeonlan: Option<bool>,
    /// (networkd backend only) Whether to emit LLDP packets. Off by default.
    ///
    /// A lenient boolean: a document may give it by any of the words that
    /// [`string_or_bool_option`](crate::string_or_bool_option) accepts.
    pub emit_lldp: Option<bool>,
    /// (networkd backend only) If set to true, the hardware offload for
    /// checksumming of ingress network packets is enabled. When unset,
    /// the kernel's default will be used.
    ///
    /// A lenient boolean: a document may give it by any of the words that
    /// [`string_or_bool_option`](crate::string_or_bool_option) accepts.
    pub receive_checksum_offload: Option<bool>,
    /// (networkd backend only) If set to true, the hardware offload for
    /// checksumming of egress network packets is enabled. When unset,
    /// the kernel's default will be used.
    ///
    /// A lenient boolean: a document may give it by any of the words that
    /// [`string_or_bool_option`](crate::string_or_bool_option) accepts.
    pub transmit_checksum_offload: Option<bool>,
    /// (networkd backend only) If set to true, the TCP Segmentation
    /// Offload (TSO) is enabled. When unset, the kernel's default will
    /// be used.
    ///
    /// A lenient boolean: a document may give it by any of the words that
    /// [`string_or_bool_option`](crate::string_or_bool_option) accepts.
    pub tcp_segmentation_offload: Option<bool>,
    /// (networkd backend only) If set to true, the TCP6 Segmentation
    /// Offload (tx-tcp6-segmentation) is enabled. When unset, the
    /// kernel's default will be used.
    ///
    /// A lenient boolean: a document may give it by any of the words that
    /// [`string_or_bool_option`](crate::string_or_bool_option) accepts.
    pub tcp6_segmentation_offload: Option<bool>,
    /// (networkd backend only) If set to true, the Generic Segmentation
    /// Offload (GSO) is enabled. When unset, the kernel's default will
    /// be used.
    ///
    /// A lenient boolean: a document may give it by any of the words that
    /// [`string_or_bool_option`](crate::string_or_bool_option) accepts.
    pub generic_segmentation_offload: Option<bool>,
    /// (networkd backend only) If set to true, the Generic Receive
    /// Offload (GRO) is enabled. When unset, the kernel's default will
    /// be used.
    ///
    /// A lenient boolean: a document may give it by any of the words that
    /// [`string_or_bool_option`](crate::string_or_bool_option) accepts.
    pub generic_receive_offload: Option<bool>,
    /// (networkd backend only) If set to true, the Generic Receive
    /// Offload (GRO) is enabled. When unset, the kernel's default will
    /// be used.
    ///
    /// A lenient boolean: a document may give it by any of the words that
    /// [`string_or_bool_option`](crate::string_or_bool_option) accepts.
    pub large_receive_offload: Option<bool>,
    /// This provides additional configuration for the network device for openvswitch.
    /// If openvswitch is not available on the system, netplan treats the presence of
    /// openvswitch configuration as an error.
    ///
    /// Any supported network device that is declared with the openvswitch mapping
    /// (or any bond/bridge that includes an interface with an openvswitch configuration)
    /// will be created in openvswitch instead of the defined renderer.
    /// In the case of a vlan definition declared the same way, netplan will create
    /// a fake VLAN bridge in openvswitch with the requested vlan properties.
    pub openvswitch: Option<OpenVSwitchConfig>,
}

impl Default for CommonPropertiesPhysicalDeviceType {
    /// The value with nothing set.
    fn default() -> (r: Self)
        ensures
            r == (CommonPropertiesPhysicalDeviceType {
                match_: None,
                set_name: None,
                wakeonlan: None,
                emit_lldp: None,
                receive_checksum_offload: None,
                transmit_checksum_offload: None,
                tcp_segmentation_offload: None,
                tcp6_segmentation_offload: None,
                generic_segmentation_offload: None,
                generic_receive_offload: None,
                large_receive_offload: None,
                openvswitch: None,
            }),
    {
        CommonPropertiesPhysicalDeviceType {
            match_: None,
            set_name: None,
            wakeonlan: None,
            emit_lldp: None,
            receive_checksum_offload: None,
            transmit_checksum_offload: None,
            tcp_segmentation_offload: None,
            tcp6_segmentation_offload: None,
            generic_segmentation_offload: None,
            generic_receive_offload: None,
            large_receive_offload: None,
            openvswitch: None,
        }
    }
}

/// This provides additional configuration for the network device for openvswitch.
/// If openvswitch is not available on the system, netplan treats the presence of
/// openvswitch configuration as an error.
///
/// Any supported network device that is declared with the openvswitch mapping
/// (or any bond/bridge that includes an interface with an openvswitch configuration)
/// will be created in openvswitch instead of the defined renderer.
/// In the case of a vlan definition declared the same way, netplan will create
/// a fake VLAN bridge in openvswitch with the requested vlan properties.
#[derive(Debug, Clone, PartialEq, Eq)]
pub struct OpenVSwitchConfig {
    /// Passed-through directly to OpenVSwitch
    pub external_ids: Option<String>,
    /// Passed-through directly to OpenVSwitch
    pub other_config: Option<String>,
    /// Valid for bond interfaces. Accepts active, passive or off (the default).
    pub lacp: Option<Lacp>,
    /// Valid for bridge interfaces. Accepts secure or standalone (the default).
    pub fail_mode: Option<FailMode>,
    /// Valid for bridge interfaces. False by default.
    ///
    /// A lenient boolean: a document may give it by any of the words that
    /// [`string_or_bool_option`](crate::string_or_bool_option) accepts.
    pub mcast_snooping: Option<bool>,
    /// Valid for bridge interfaces or the network section. List of protocols to be used when
    /// negotiating a connection with the controller. Accepts OpenFlow10, OpenFlow11,
    /// OpenFlow12, OpenFlow13, OpenFlow14, OpenFlow15 and OpenFlow16.
    pub protocols: Option<Vec<OpenFlowProtocol>>,
    /// Valid for bridge interfaces. False by default.
    ///
    /// A lenient boolean: a document may give it by any of the words that
    /// [`string_or_bool_option`](crate::string_or_bool_option) accepts.
    pub rtsp: Option<bool>,
    /// Valid for bridge interfaces. Specify an external OpenFlow controller.
    pub controller: Option<ControllerConfig>,
    /// OpenvSwitch patch ports. Each port is declared as a pair of names
    /// which can be referenced as interfaces in dependent virtual devices
    /// (bonds, bridges).
    pub ports: Option<Vec<String>>,
    /// Valid for global openvswitch settings. Options for configuring SSL
    /// server endpoint for the switch.
    pub ssl: Option<SslConfig>,
}

impl Default for OpenVSwitchConfig {
    /// The value with nothing set.
    fn default() -> (r: Self)
        ensures
            r == (OpenVSwitchConfig {
                external_ids: None,
                other_config: None,
                lacp: None,
                fail_mode: None,
                mcast_snooping: None,
                protocols: None,
                rtsp: None,
                controller: None,
                ports: None,
                ssl: None,
            }),
    {
        OpenVSwitchConfig {
            external_ids: None,
            other_config: None,
            lacp: None,
            fail_mode: None,
            mcast_snooping: None,
            protocols: None,
            rtsp: None,
            controller: None,
            ports: None,
            ssl: None,
        }
    }
}

/// Valid for global openvswitch settings. Options for configuring SSL
/// server endpoint for the switch.
#[derive(Debug, Clone, PartialEq, Eq)]
pub struct SslConfig {
    /// Path to a file containing the CA certificate to be used.
    pub ca_cert: Option<String>,
    /// Path to a file containing the server certificate.
    pub certificate: Option<String>,
    /// Path to a file containing the private key for the server.
    pub private_key: Option<String>,
}

impl Default for SslConfig {
    /// The value with nothing set.
    fn default() -> (r: Self)
        ensures
            r == (SslConfig {
                ca_cert: None,
                certificate: None,
                private_key: None,
            }),
    {
        SslConfig {
            ca_cert: None,
            certificate: None,
            private_key: None,
        }
    }
}

/// Valid for bridge interfaces. Specify an external OpenFlow controller.
#[derive(Debug, Clone, PartialEq, Eq)]
pub struct ControllerConfig {
    /// Set the list of addresses to use for the controller targets. The
    /// syntax of these addresses is as defined in ovs-vsctl(8). Example:
    /// addresses: [tcp:127.0.0.1:6653, "ssl:[fe80::1234%eth0]:6653"]
    pub addresses: Option<Vec<String>>,
    /// Set the connection mode for the controller. Supported options are
    /// in-band and out-of-band. The default is in-band.
    pub connection_mode: Option<ConnectionMode>,
}

impl Default for ControllerConfig {
    /// The value with nothing set.
    fn default() -> (r: Self)
        ensures
            r == (ControllerConfig {
                addresses: None,
                connection_mode: None,
            }),
    {
        ControllerConfig {
            addresses: None,
            connection_mode: None,
        }
    }
}

/// How an OpenVSwitch controller is reached.
#[derive(Debug, Clone, PartialEq, Eq)]
pub enum ConnectionMode {
    InBand,
    OutOfBand,
}

/// A version of the OpenFlow protocol.
#[derive(Debug, Clone, PartialEq, Eq)]
pub enum OpenFlowProtocol {
    OpenFlow10,
    OpenFlow11,
    OpenFlow12,
    OpenFlow13,
    OpenFlow14,
    OpenFlow15,
    OpenFlow16,
}

/// The LACP mode of an OpenVSwitch bond.
#[derive(Debug, Clone, PartialEq, Eq)]
pub enum Lacp {
    Active,
    Passive,
    Off,
}

/// What an OpenVSwitch bridge does while it cannot reach its controller.
#[derive(Debug, Clone, PartialEq, Eq)]
pub enum FailMode {
    Secure,
    Standalone,
}

/// This selects a subset of available physical devices by various hardware
/// properties. The following configuration will then apply to all matching
/// devices, as soon as they appear. All specified properties must match.
#[derive(Debug, Clone, PartialEq, Eq)]
pub struct MatchConfig {
    /// Current interface name. Globs are supported, and the primary use case
    /// for matching on names, as selecting one fixed name can be more easily
    /// achieved with having no match: at all and just using the ID (see
    /// above).
    /// (NetworkManager: as of v1.14.0)
    pub name: Option<String>,
    /// Device's MAC address in the form "XX:XX:XX:XX:XX:XX". Globs are not
    /// allowed.
    pub macaddress: Option<String>,
    /// Kernel driver name, corresponding to the DRIVER udev property.
    /// A sequence of globs is supported, any of which must match.
    /// Matching on driver is only supported with networkd.
    pub driver: Option<Vec<String>>,
}

impl Default for MatchConfig {
    /// The value with nothing set.
    fn default() -> (r: Self)
        ensures
            r == (MatchConfig {
                name: None,
                macaddress: None,
                driver: None,
            }),
    {
        MatchConfig {
            name: None,
            macaddress: None,
            driver: None,
        }
    }
}

} // verus!
