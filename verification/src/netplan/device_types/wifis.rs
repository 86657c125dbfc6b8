use std::collections::HashMap;
use vstd::prelude::*;
use crate::netplan::authentication::AuthConfig;
use crate::netplan::device_types::CommonPropertiesAllDevices;
use crate::netplan::device_types::physical::CommonPropertiesPhysicalDeviceType;

verus! {

/// A wireless device and its access points.
#[derive(Debug, Clone, PartialEq, Eq)]
pub struct WifiConfig {
    /// This provides pre-configured connections to NetworkManager. Note that
    /// users can of course select other access points/SSIDs. The keys of the
    /// mapping are the SSIDs, and the values are mappings with the following
    /// supported properties:
    pub access_points: Option<HashMap<String, AccessPointConfig>>,
    /// This enables WakeOnWLan on supported devices. Not all drivers support all
    /// options. May be any combination of any, disconnect, magic_pkt,
    /// gtk_rekey_failure, eap_identity_req, four_way_handshake,
    /// rfkill_release or tcp (NetworkManager only). Or the exclusive
    /// default flag (the default).
    pub wakeonwlan: Option<Vec<WakeOnWLan>>,
    /// Common properties for physical device types
    pub common_physical: Option<CommonPropertiesPhysicalDeviceType>,
    /// Common properties for all devices
    pub common_all: Option<CommonPropertiesAllDevices>,
}

impl Default for WifiConfig {
    /// The value with nothing set.
    fn default() -> (r: Self)
        ensures
            r == (WifiConfig {
                access_points: None,
                wakeonwlan: None,
                common_physical: None,
                common_all: None,
            }),
    {
        WifiConfig {
            access_points: None,
            wakeonwlan: None,
            common_physical: None,
            common_all: None,
        }
    }
}

/// One access point of a wireless device.
#[derive(Debug, Clone, PartialEq, Eq)]
pub struct AccessPointConfig {
    /// Enable WPA2 authentication and set the passphrase for it. If neither
    /// this nor an auth block are given, the network is assumed to be
    /// open. The setting
    pub password: Option<String>,
    pub auth: Option<AuthConfig>,
    /// Possible access point modes are infrastructure (the default),
    /// ap (create an access point to which other devices can connect),
    /// and adhoc (peer to peer networks without a central access point).
    /// ap is only supported with NetworkManager.
    pub mode: Option<AccessPointMode>,
    /// If specified, directs the device to only associate with the given
    /// access point.
    pub bssid: Option<String>,
    /// Possible bands are 5GHz (for 5GHz 802.11a) and 2.4GHz
    /// (for 2.4GHz 802.11), do not restrict the 802.11 frequency band of the
    /// network if unset (the default).
    pub band: Option<WirelessBand>,
    /// Wireless channel to use for the Wi-Fi connection. Because channel
    /// numbers overlap between bands, this property takes effect only if
    /// the band property is also set.
    pub channel: Option<u32>,
    /// Set to true to change the SSID scan technique for connecting to
    /// hidden WiFi networks. Note this may have slower performance compared
    /// to false (the default) when connecting to publicly broadcast
    /// SSIDs.
    ///
    /// A lenient boolean: a document may give it by any of the words that
    /// [`string_or_bool_option`](crate::string_or_bool_option) accepts.
    pub hidden: Option<bool>,
}

impl Default for AccessPointConfig {
    /// The value with nothing set.
    fn default() -> (r: Self)
        ensures
            r == (AccessPointConfig {
                password: None,
                auth: None,
                mode: None,
                bssid: None,
                band: None,
                channel: None,
                hidden: None,
            }),
    {
        AccessPointConfig {
            password: None,
            auth: None,
            mode: None,
            bssid: None,
            band: None,
            channel: None,
            hidden: None,
        }
    }
}

/// Possible bands are 5GHz (for 5GHz 802.11a) and 2.4GHz
/// (for 2.4GHz 802.11), do not restrict the 802.11 frequency band of the
/// network if unset (the default).
#[derive(Debug, Clone, PartialEq, Eq)]
pub enum WirelessBand {
    /// 2.4Ghz
    Ghz2,
    /// 5Ghz
    Ghz5,
}

/// Possible access point modes are infrastructure (the default),
/// ap (create an access point to which other devices can connect),
/// and adhoc (peer to peer networks without a central access point).
/// ap is only supported with NetworkManager.
#[derive(Debug, Clone, PartialEq, Eq)]
pub enum AccessPointMode {
    Infrastructure,
    Ap,
    Adhoc,
}

/// This enables WakeOnWLan on supported devices. Not all drivers support all
/// options. May be any combination of any, disconnect, magic_pkt,
/// gtk_rekey_failure, eap_identity_req, four_way_handshake,
/// rfkill_release or tcp (NetworkManager only). Or the exclusive
/// default flag (the default).
#[derive(Debug, Clone, PartialEq, Eq)]
pub enum WakeOnWLan {
    Any,
    Disconnect,
    MagicPkt,
    GtkRekeyFailure,
    EapIdentityReq,
    FourWayHandshake,
    RfkillRelease,
    Tcp,
    Default,
}

} // verus!
