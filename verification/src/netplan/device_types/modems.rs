use vstd::prelude::*;
use crate::netplan::device_types::CommonPropertiesAllDevices;
use crate::netplan::device_types::physical::CommonPropertiesPhysicalDeviceType;

verus! {

/// GSM/CDMA modem configuration is only supported for the NetworkManager
/// backend. systemd-networkd does not support modems.
#[derive(Debug, Clone, PartialEq, Eq)]
pub struct ModemConfig {
    /// Set the carrier APN (Access Point Name). This can be omitted if
    /// auto-config is enabled.
    pub apn: Option<String>,
    /// Specify whether to try and autoconfigure the modem by doing a lookup of
    /// the carrier against the Mobile Broadband Provider database. This may not
    /// work for all carriers.
    ///
    /// A lenient boolean: a document may give it by any of the words that
    /// [`string_or_bool_option`](crate::string_or_bool_option) accepts.
    pub auto_config: Option<bool>,
    /// Specify the device ID (as given by the WWAN management service) of the
    /// modem to match. This can be found using mmcli.
    pub device_id: Option<String>,
    /// Specify the Network ID (GSM LAI format). If this is specified, the device
    /// will not roam networks.
    pub network_id: Option<String>,
    /// The number to dial to establish the connection to the mobile broadband
    /// network. (Deprecated for GSM)
    pub number: Option<String>,
    /// Specify the password used to authenticate with the carrier network. This
    /// can be omitted if auto-config is enabled.
    pub password: Option<String>,
    /// Specify the SIM PIN to allow it to operate if a PIN is set.
    pub pin: Option<String>,
    /// Specify the SIM unique identifier (as given by the WWAN management service)
    /// which this connection applies to. If given, the connection will apply to
    /// any device also allowed by device-id which contains a SIM card matching
    /// the given identifier.
    pub sim_id: Option<String>,
    /// Specify the MCC/MNC string (such as "310260" or "21601") which identifies
    /// the carrier that this connection should apply to. If given, the connection
    /// will apply to any device also allowed by device-id and sim-id
    /// which contains a SIM card provisioned by the given operator.
    pub sim_operator_id: Option<String>,
    /// Specify the username used to authentiate with the carrier network. This
    /// can be omitted if auto-config is enabled.
    pub username: Option<String>,
    /// Common properties for physical device types
    pub common_physical: Option<CommonPropertiesPhysicalDeviceType>,
    /// Common properties for all devices
    pub common_all: Option<CommonPropertiesAllDevices>,
}

impl Default for ModemConfig {
    /// The value with nothing set.
    fn default() -> (r: Self)
        ensures
            r == (ModemConfig {
                apn: None,
                auto_config: None,
                device_id: None,
                network_id: None,
                number: None,
                password: None,
                pin: None,
                sim_id: None,
                sim_operator_id: None,
                username: None,
                common_physical: None,
                common_all: None,
            }),
    {
        ModemConfig {
            apn: None,
            auto_config: None,
            device_id: None,
            network_id: None,
            number: None,
            password: None,
            pin: None,
            sim_id: None,
            sim_operator_id: None,
            username: None,
            common_physical: None,
            common_all: None,
        }
    }
}

} // verus!
