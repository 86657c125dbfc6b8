use std::collections::HashMap;
use vstd::prelude::*;

verus! {

/// Several DHCP behavior overrides are available. Most currently only have any
/// effect when using the networkd backend, with the exception of use-routes
/// and route-metric.
///
/// Overrides only have an effect if the corresponding dhcp4 or dhcp6 is
/// set to true.
///
/// If both dhcp4 and dhcp6 are true, the networkd backend requires
/// that dhcp4-overrides and dhcp6-overrides contain the same keys and
/// values. If the values do not match, an error will be shown and the network
/// configuration will not be applied.
///
/// When using the NetworkManager backend, different values may be specified for
/// dhcp4-overrides and dhcp6-overrides, and will be applied to the DHCP
/// client processes as specified in the netplan YAML.
#[derive(Debug, Clone, PartialEq, Eq)]
pub struct DhcpOverrides {
    /// Default: true. When true, the DNS servers received from the
    /// DHCP server will be used and take precedence over any statically
    /// configured ones. Currently only has an effect on the networkd
    /// backend.
    ///
    /// A lenient boolean: a document may give it by any of the words that
    /// [`string_or_bool_option`](crate::string_or_bool_option) accepts.
    pub use_dns: Option<bool>,
    /// Default: true. When true, the NTP servers received from the
    /// DHCP server will be used by systemd-timesyncd and take precedence
    /// over any statically configured ones. Currently only has an effect on
    /// the networkd backend.
    ///
    /// A lenient boolean: a document may give it by any of the words that
    /// [`string_or_bool_option`](crate::string_or_bool_option) accepts.
    pub use_ntp: Option<bool>,
    /// Default: true. When true, the machine's hostname will be sent
    /// to the DHCP server. Currently only has an effect on the networkd
    /// backend.
    ///
    /// A lenient boolean: a document may give it by any of the words that
    /// [`string_or_bool_option`](crate::string_or_bool_option) accepts.
    pub send_hostname: Option<bool>,
    /// Default: true. When true, the hostname received from the DHCP
    /// server will be set as the transient hostname of the system. Currently
    /// only has an effect on the networkd backend.
    ///
    /// A lenient boolean: a document may give it by any of the words that
    /// [`string_or_bool_option`](crate::string_or_bool_option) accepts.
    pub use_hostname: Option<bool>,
    /// Default: true. When true, the MTU received from the DHCP
    /// server will be set as the MTU of the network interface. When false,
    /// the MTU advertised by the DHCP server will be ignored. Currently only
    /// has an effect on the networkd backend.
    ///
    /// A lenient boolean: a document may give it by any of the words that
    /// [`string_or_bool_option`](crate::string_or_bool_option) accepts.
    pub use_mtu: Option<bool>,
    /// Use this value for the hostname which is sent to the DHCP server,
    /// instead of machine's hostname. Currently only has an effect on the
    /// networkd backend.
    pub hostname: Option<String>,
    /// Default: true. When true, the routes received from the DHCP
    /// server will be installed in the routing table normally. When set to
    /// false, routes from the DHCP server will be ignored: in this case,
    /// the user is responsible for adding static routes if necessary for
    /// correct network operation. This allows users to avoid installing a
    /// default gateway for interfaces configured via DHCP. Available for
    /// both the networkd and NetworkManager backends.
    ///
    /// A lenient boolean: a document may give it by any of the words that
    /// [`string_or_bool_option`](crate::string_or_bool_option) accepts.
    pub use_routes: Option<bool>,
    /// Use this value for default metric for automatically-added routes.
    /// Use this to prioritize routes for devices by setting a lower metric
    /// on a preferred interface. Available for both the networkd and
    /// NetworkManager backends.
    pub route_metric: Option<u16>,
    /// Takes a boolean, or the special value "route". When true, the domain
    /// name received from the DHCP server will be used as DNS search domain
    /// over this link, similar to the effect of the Domains= setting. If set
    /// to "route", the domain name received from the DHCP server will be
    /// used for routing DNS queries only, but not for searching, similar to
    /// the effect of the Domains= setting when the argument is prefixed with
    /// "~".
    pub use_domains: Option<String>,
}

impl Default for DhcpOverrides {
    /// The value with nothing set.
    fn default() -> (r: Self)
        ensures
            r == (DhcpOverrides {
                use_dns: None,
                use_ntp: None,
                send_hostname: None,
                use_hostname: None,
                use_mtu: None,
                hostname: None,
                use_routes: None,
                route_metric: None,
                use_domains: None,
            }),
    {
        DhcpOverrides {
            use_dns: None,
            use_ntp: None,
            send_hostname: None,
            use_hostname: None,
            use_mtu: None,
            hostname: None,
            use_routes: None,
            route_metric: None,
            use_domains: None,
        }
    }
}

/// How the interface identifier of an autoconfigured IPv6 address is
/// made.
#[derive(Debug, Clone, PartialEq, Eq)]
pub enum Ipv6AddressGeneration {
    Eui64,
    StablePrivacy,
}

/// A static address: the address alone, or the address with its
/// properties.
#[derive(Debug, Clone, PartialEq, Eq)]
pub enum AddressMapping {
    Simple(String),
    Complex(std::collections::HashMap<String, AddressProperties>),
}

/// The properties of a static address.
#[derive(Debug, Clone, PartialEq, Eq)]
pub struct AddressProperties {
    /// An IP address label, equivalent to the ip address label
    /// command. Currently supported on the networkd backend only.
    pub label: Option<String>,

    /// Default: forever. This can be forever or 0 and corresponds
    /// to the PreferredLifetime option in systemd-networkd's Address
    /// section. Currently supported on the networkd backend only.
    /// Since 0.100.
    pub lifetime: Option<PreferredLifetime>,
}

impl Default for AddressProperties {
    /// The value with nothing set.
    fn default() -> (r: Self)
        ensures
            r == (AddressProperties {
                label: None,
                lifetime: None,
            }),
    {
        AddressProperties {
            label: None,
            lifetime: None,
        }
    }
}

/// How long a static address stays preferred.
#[derive(Debug, Clone, PartialEq, Eq)]
pub enum PreferredLifetime {
    Forever,
    Zero,
}

} // verus!
