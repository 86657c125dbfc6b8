use vstd::prelude::*;

verus! {

/// Netplan supports advanced authentication settings for ethernet and wifi
/// interfaces, as well as individual wifi networks, by means of the auth block.
#[derive(Debug, Clone, PartialEq, Eq)]
pub struct AuthConfig {
    /// The supported key management modes are none (no key management);
    /// psk (WPA with pre-shared key, common for home wifi); eap (WPA
    /// with EAP, common for enterprise wifi); and 802.1x (used primarily
    /// for wired Ethernet connections).
    pub key_managment: Option<KeyManagmentMode>,
    /// The password string for EAP, or the pre-shared key for WPA-PSK.
    pub password: Option<String>,
    /// The EAP method to use. The supported EAP methods are tls (TLS),
    /// peap (Protected EAP), and ttls (Tunneled TLS).
    pub method: Option<AuthMethod>,
    /// The identity to use for EAP.
    pub identity: Option<String>,
    /// The identity to pass over the unencrypted channel if the chosen EAP
    /// method supports passing a different tunnelled identity.
    pub anonymous_identity: Option<String>,
    /// Path to a file with one or more trusted certificate authority (CA)
    /// certificates.
    pub ca_certificate: Option<String>,
    /// Path to a file containing the certificate to be used by the client
    /// during authentication.
    pub client_certificate: Option<String>,
    /// Path to a file containing the private key corresponding to
    /// client-certificate.
    pub client_key: Option<String>,
    /// Password to use to decrypt the private key specified in
    /// client-key if it is encrypted.
    pub client_key_password: Option<String>,
    /// Phase 2 authentication mechanism.
    pub phase2_auth: Option<String>,
}

impl Default for AuthConfig {
    /// The value with nothing set.
    fn default() -> (r: Self)
        ensures
            r == (AuthConfig {
                key_managment: None,
                password: None,
                method: None,
                identity: None,
                anonymous_identity: None,
                ca_certificate: None,
                client_certificate: None,
                client_key: None,
                client_key_password: None,
                phase2_auth: None,
            }),
    {
        AuthConfig {
            key_managment: None,
            password: None,
            method: None,
            identity: None,
            anonymous_identity: None,
            ca_certificate: None,
            client_certificate: None,
            client_key: None,
            client_key_password: None,
            phase2_auth: None,
        }
    }
}

/// The EAP method of an `auth` block.
#[derive(Debug, Clone, PartialEq, Eq)]
pub enum AuthMethod {
    Tls,
    Peap,
    Ttls,
}

/// The key management mode of an `auth` block.
#[derive(Debug, Clone, PartialEq, Eq)]
pub enum KeyManagmentMode {
    /// Written `none`: the feature is switched off.
    Disabled,
    Psk,
    Eap,
    /// 802.1x
    EightZeroTwoDotOneX,
}

} // verus!
