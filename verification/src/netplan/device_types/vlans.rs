use vstd::prelude::*;
use crate::netplan::device_types::CommonPropertiesAllDevices;

verus! {

/// A virtual LAN on top of another device.
#[derive(Debug, Clone, PartialEq, Eq)]
pub struct VlanConfig {
    /// VLAN ID, a number between 0 and 4094.
    pub id: Option<u16>,
    /// netplan ID of the underlying device definition on which this VLAN gets
    /// created.
    pub link: Option<String>,
    /// Common properties for all devices
    pub common_all: Option<CommonPropertiesAllDevices>,
}

impl Default for VlanConfig {
    /// The value with nothing set.
    fn default() -> (r: Self)
        ensures
            r == (VlanConfig {
                id: None,
                link: None,
                common_all: None,
            }),
    {
        VlanConfig {
            id: None,
            link: None,
            common_all: None,
        }
    }
}

} // verus!
