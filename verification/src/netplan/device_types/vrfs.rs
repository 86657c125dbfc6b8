use vstd::prelude::*;
use crate::netplan::device_types::CommonPropertiesAllDevices;

verus! {

/// Purpose: Use the vrfs key to create Virtual Routing and Forwarding (VRF) interfaces.
///
/// Structure: The key consists of a mapping of VRF interface names.
/// The interface used in the link option (enp5s0 in the example below) must also be
/// defined in the Netplan configuration.
/// The general configuration structure for VRFs is shown below.
#[derive(Debug, Clone, PartialEq, Eq)]
pub struct VrfsConfig {
    /// The numeric routing table identifier. This setting is compulsory.
    pub table: i32,
    /// All devices matching this ID list will be added to the VRF.
    /// This may be an empty list,
    /// in which case the VRF will be brought online with no member interfaces.
    pub interfaces: Vec<String>,
    /// Common properties for all devices
    pub common_all: Option<CommonPropertiesAllDevices>,
}

impl Default for VrfsConfig {
    /// The value with nothing set.
    fn default() -> (r: Self)
        ensures
            r.table == 0,
            r.interfaces@ == Seq::<String>::empty(),
            r.common_all is None,
    {
        VrfsConfig {
            table: 0,
            interfaces: Vec::new(),
            common_all: None,
        }
    }
}

} // verus!
