use vstd::prelude::*;
use crate::netplan::device_types::CommonPropertiesAllDevices;

verus! {

/// A bridge and the interfaces that it joins.
#[derive(Debug, Clone, PartialEq, Eq)]
pub struct BridgeConfig {
    /// All devices matching this ID list will be added to the bridge. This may
    /// be an empty list, in which case the bridge will be brought online with
    /// no member interfaces.
    pub interfaces: Option<Vec<String>>,
    /// Customization parameters for special bridging options. Time intervals
    /// may need to be expressed as a number of seconds or milliseconds: the
    /// default value type is specified below. If necessary, time intervals can
    /// be qualified using a time suffix (such as "s" for seconds, "ms" for
    /// milliseconds) to allow for more control over its behavior.
    pub parameters: Option<BridgeParameters>,
    /// Common properties for all devices
    pub common_all: Option<CommonPropertiesAllDevices>,
}

impl Default for BridgeConfig {
    /// The value with nothing set.
    fn default() -> (r: Self)
        ensures
            r == (BridgeConfig {
                interfaces: None,
                parameters: None,
                common_all: None,
            }),
    {
        BridgeConfig {
            interfaces: None,
            parameters: None,
            common_all: None,
        }
    }
}

/// Customization parameters for special bridging options. Time intervals
/// may need to be expressed as a number of seconds or milliseconds: the
/// default value type is specified below. If necessary, time intervals can
/// be qualified using a time suffix (such as "s" for seconds, "ms" for
/// milliseconds) to allow for more control over its behavior.
#[derive(Debug, Clone, PartialEq, Eq)]
pub struct BridgeParameters {
    /// Set the period of time to keep a MAC address in the forwarding
    /// database after a packet is received. This maps to the AgeingTimeSec=
    /// property when the networkd renderer is used. If no time suffix is
    /// specified, the value will be interpreted as seconds.
    pub ageing_time: Option<String>,
    /// Set the priority value for the bridge. This value should be a
    /// number between 0 and 65535. Lower values mean higher
    /// priority. The bridge with the higher priority will be elected as
    /// the root bridge.
    pub priority: Option<u32>,
    /// Set the port priority to . The priority value is
    /// a number between 0 and 63. This metric is used in the
    /// designated port and root port selection algorithms.
    pub port_priority: Option<u8>,
    /// Specify the period of time the bridge will remain in Listening and
    /// Learning states before getting to the Forwarding state. This field
    /// maps to the ForwardDelaySec= property for the networkd renderer.
    /// If no time suffix is specified, the value will be interpreted as
    /// seconds.
    pub forward_delay: Option<String>,
    /// Specify the interval between two hello packets being sent out from
    /// the root and designated bridges. Hello packets communicate
    /// information about the network topology. When the networkd renderer
    /// is used, this maps to the HelloTimeSec= property. If no time suffix
    /// is specified, the value will be interpreted as seconds.
    pub hello_time: Option<String>,
    /// Set the maximum age of a hello packet. If the last hello packet is
    /// older than that value, the bridge will attempt to become the root
    /// bridge. This maps to the MaxAgeSec= property when the networkd
    /// renderer is used. If no time suffix is specified, the value will be
    /// interpreted as seconds.
    pub max_age: Option<String>,
    /// Set the cost of a path on the bridge. Faster interfaces should have
    /// a lower cost. This allows a finer control on the network topology
    /// so that the fastest paths are available whenever possible.
    pub path_cost: Option<i32>,
    /// Define whether the bridge should use Spanning Tree Protocol. The
    /// default value is "true", which means that Spanning Tree should be
    /// used.
    ///
    /// A lenient boolean: a document may give it by any of the words that
    /// [`string_or_bool_option`](crate::string_or_bool_option) accepts.
    pub stp: Option<bool>,
}

impl Default for BridgeParameters {
    /// The value with nothing set.
    fn default() -> (r: Self)
        ensures
            r == (BridgeParameters {
                ageing_time: None,
                priority: None,
                port_priority: None,
                forward_delay: None,
                hello_time: None,
                max_age: None,
                path_cost: None,
                stp: None,
            }),
    {
        BridgeParameters {
            ageing_time: None,
            priority: None,
            port_priority: None,
            forward_delay: None,
            hello_time: None,
            max_age: None,
            path_cost: None,
            stp: None,
        }
    }
}

} // verus!
