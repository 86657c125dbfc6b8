use vstd::prelude::*;
use crate::netplan::device_types::CommonPropertiesAllDevices;

verus! {

/// Purpose: Use the dummy-devices key to create virtual interfaces.
///
/// Structure: The key consists of a mapping of interface names.
/// Dummy devices are virtual devices that can be used to route packets to without actually transmitting them.
#[derive(Debug, Clone, PartialEq, Eq)]
pub struct DummyDeviceConfig {
    /// Common properties for all devices
    pub common_all: Option<CommonPropertiesAllDevices>,
}

impl Default for DummyDeviceConfig {
    /// The value with nothing set.
    fn default() -> (r: Self)
        ensures
            r == (DummyDeviceConfig {
                common_all: None,
            }),
    {
        DummyDeviceConfig {
            common_all: None,
        }
    }
}

} // verus!
