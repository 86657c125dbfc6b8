use vstd::prelude::*;
use crate::netplan::device_types::CommonPropertiesAllDevices;
use crate::netplan::device_types::physical::CommonPropertiesPhysicalDeviceType;

verus! {

/// An ethernet device.
#[derive(Debug, Clone, PartialEq, Eq)]
pub struct EthernetConfig {
    /// (SR-IOV devices only) The link property declares the device as a
    /// Virtual Function of the selected Physical Function device, as identified
    /// by the given netplan id.
    pub link: Option<String>,
    /// (SR-IOV devices only) In certain special cases VFs might need to be
    /// configured outside of netplan. For such configurations virtual-function-count
    /// can be optionally used to set an explicit number of Virtual Functions for
    /// the given Physical Function. If unset, the default is to create only as many
    /// VFs as are defined in the netplan configuration. This should be used for special
    /// cases only.
    pub virtual_function_count: Option<u16>,
    /// (SR-IOV devices only) Change the operational mode of the embedded switch
    /// of a supported SmartNIC PCI device (e.g. Mellanox ConnectX-5). Possible
    /// values are switchdev or legacy, if unspecified the vendor's
    /// default configuration is used.
    pub embedded_switch_mode: Option<EmbeddedSwitchMode>,
    /// (SR-IOV devices only) Delay rebinding of SR-IOV virtual functions to its
    /// driver after changing the embedded-switch-mode setting to a later stage.
    /// Can be enabled when bonding/VF LAG is in use. Defaults to false.
    pub delay_virtual_functions_rebind: Option<bool>,
    /// Common properties for physical device types
    pub common_physical: Option<CommonPropertiesPhysicalDeviceType>,
    /// Common properties for all devices
    pub common_all: Option<CommonPropertiesAllDevices>,
}

impl Default for EthernetConfig {
    /// The value with nothing set.
    fn default() -> (r: Self)
        ensures
            r == (EthernetConfig {
                link: None,
                virtual_function_count: None,
                embedded_switch_mode: None,
                delay_virtual_functions_rebind: None,
                common_physical: None,
                common_all: None,
            }),
    {
        EthernetConfig {
            link: None,
            virtual_function_count: None,
            embedded_switch_mode: None,
            delay_virtual_functions_rebind: None,
            common_physical: None,
            common_all: None,
        }
    }
}

/// The operational mode of the embedded switch of a SmartNIC.
#[derive(Debug, Clone, PartialEq, Eq)]
pub enum EmbeddedSwitchMode {
    Switchdev,
    Legacy,
}

} // verus!
