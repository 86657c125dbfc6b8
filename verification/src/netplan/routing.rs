use vstd::prelude::*;

verus! {

/// The routes block defines standard static routes for an interface.
/// At least to must be specified. If type is local or nat a
/// default scope of host is assumed.
/// If type is unicast and no gateway (via) is given or type is
/// broadcast, multicast or anycast a default scope of link
/// is assumend. Otherwise, a global scope is the default setting.
///
/// For from, to, and via, both IPv4 and IPv6 addresses are
/// recognized, and must be in the form addr/prefixlen or addr.
#[derive(Debug, Clone, PartialEq, Eq)]
pub struct RoutingConfig {
    /// Set a source IP address for traffic going through the route.
    /// (NetworkManager: as of v1.8.0)
    pub from: Option<String>,
    /// Destination address for the route.
    pub to: Option<String>,
    /// Address to the gateway to use for this route.
    pub via: Option<String>,
    /// When set to "true", specifies that the route is directly connected
    /// to the interface.
    /// (NetworkManager: as of v1.12.0 for IPv4 and v1.18.0 for IPv6)
    ///
    /// A lenient boolean: a document may give it by any of the words that
    /// [`string_or_bool_option`](crate::string_or_bool_option) accepts.
    pub on_link: Option<bool>,
    /// The relative priority of the route. Must be a positive integer value.
    pub metric: Option<u16>,
    /// The type of route. Valid options are "unicast" (default), "anycast",
    /// "blackhole", "broadcast", "local", "multicast", "nat", "prohibit",
    /// "throw", "unreachable" or "xresolve".
    pub type_: Option<RouteType>,
    /// The route scope, how wide-ranging it is to the network. Possible
    /// values are "global", "link", or "host".
    pub scope: Option<RouteScope>,
    /// The table number to use for the route. In some scenarios, it may be
    /// useful to set routes in a separate routing table. It may also be used
    /// to refer to routing policy rules which also accept a table
    /// parameter. Allowed values are positive integers starting from 1.
    /// Some values are already in use to refer to specific routing tables:
    /// see /etc/iproute2/rt_tables.
    /// (NetworkManager: as of v1.10.0)
    pub table: Option<u16>,
    /// The MTU to be used for the route, in bytes. Must be a positive integer
    /// value.
    pub mtu: Option<u16>,
    /// The congestion window to be used for the route, represented by number
    /// of segments. Must be a positive integer value.
    pub congestion_window: Option<u16>,
    /// The receive window to be advertised for the route, represented by
    /// number of segments. Must be a positive integer value.
    pub advertised_receive_window: Option<u16>,
}

impl Default for RoutingConfig {
    /// The value with nothing set.
    fn default() -> (r: Self)
        ensures
            r == (RoutingConfig {
                from: None,
                to: None,
                via: None,
                on_link: None,
                metric: None,
                type_: None,
                scope: None,
                table: None,
                mtu: None,
                congestion_window: None,
                advertised_receive_window: None,
            }),
    {
        RoutingConfig {
            from: None,
            to: None,
            via: None,
            on_link: None,
            metric: None,
            type_: None,
            scope: None,
            table: None,
            mtu: None,
            congestion_window: None,
            advertised_receive_window: None,
        }
    }
}

/// The type of route. Valid options are "unicast" (default), "anycast",
/// "blackhole", "broadcast", "local", "multicast", "nat", "prohibit",
/// "throw", "unreachable" or "xresolve".
#[derive(Debug, Clone, PartialEq, Eq)]
pub enum RouteType {
    Unicast,
    Anycast,
    Blackhole,
    Broadcast,
    Local,
    Multicast,
    Nat,
    Prohibit,
    Throw,
    Unreachable,
    Xresolve,
}

/// The route scope, how wide-ranging it is to the network. Possible
/// values are "global", "link", or "host".
#[derive(Debug, Clone, PartialEq, Eq)]
pub enum RouteScope {
    Global,
    Link,
    Host,
}

/// The routing-policy block defines extra routing policy for a network,
/// where traffic may be handled specially based on the source IP, firewall
/// marking, etc.
///
/// For from, to, both IPv4 and IPv6 addresses are recognized, and
/// must be in the form addr/prefixlen or addr.
#[derive(Debug, Clone, PartialEq, Eq)]
pub struct RoutingPolicy {
    /// Set a source IP address to match traffic for this policy rule.
    pub from: Option<String>,
    /// Match on traffic going to the specified destination.
    pub to: Option<String>,
    /// The table number to match for the route. In some scenarios, it may be
    /// useful to set routes in a separate routing table. It may also be used
    /// to refer to routes which also accept a table parameter.
    /// Allowed values are positive integers starting from 1.
    /// Some values are already in use to refer to specific routing tables:
    /// see /etc/iproute2/rt_tables.
    pub table: u16,
    /// Specify a priority for the routing policy rule, to influence the order
    /// in which routing rules are processed. A higher number means lower
    /// priority: rules are processed in order by increasing priority number.
    pub priority: Option<i32>,
    /// Have this routing policy rule match on traffic that has been marked
    /// by the iptables firewall with this value. Allowed values are positive
    /// integers starting from 1.
    pub mark: Option<u16>,
    /// Match this policy rule based on the type of service number applied to
    /// the traffic.
    pub type_of_service: Option<String>,
}

impl Default for RoutingPolicy {
    /// The value with nothing set.
    fn default() -> (r: Self)
        ensures
            r == (RoutingPolicy {
                from: None,
                to: None,
                table: 0,
                priority: None,
                mark: None,
                type_of_service: None,
            }),
    {
        RoutingPolicy {
            from: None,
            to: None,
            table: 0,
            priority: None,
            mark: None,
            type_of_service: None,
        }
    }
}

/// Set DNS servers and search domains, for manual address configuration.
#[derive(Debug, Clone, PartialEq, Eq)]
pub struct NameserverConfig {
    /// A list of IPv4 or IPv6 addresses
    pub addresses: Option<Vec<String>>,
    /// A list of search domains.
    pub search: Option<Vec<String>>,
}

impl Default for NameserverConfig {
    /// The value with nothing set.
    fn default() -> (r: Self)
        ensures
            r == (NameserverConfig {
                addresses: None,
                search: None,
            }),
    {
        NameserverConfig {
            addresses: None,
            search: None,
        }
    }
}

} // verus!
