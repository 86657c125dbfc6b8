use netplan_types::{
    AddressProperties, BondParameters, CommonPropertiesAllDevices, DhcpOverrides, EthernetConfig,
    Ipv6AddressGeneration, NetplanConfig, NetworkConfig, RoutingPolicy, TunnelConfig, VrfsConfig,
    WireGuardPeer,
};

#[test]
fn test_dhcp_overrides_defaults() {
    let overrides = DhcpOverrides::default();
    assert_eq!(overrides.use_dns, None);
    assert_eq!(overrides.use_ntp, None);
    assert_eq!(overrides.send_hostname, None);
    assert_eq!(overrides.use_hostname, None);
    assert_eq!(overrides.use_mtu, None);
    assert_eq!(overrides.hostname, None);
    assert_eq!(overrides.use_routes, None);
    assert_eq!(overrides.route_metric, None);
    assert_eq!(overrides.use_domains, None);
}

#[test]
fn test_address_properties_defaults() {
    let props = AddressProperties::default();
    assert_eq!(props.label, None);
    assert_eq!(props.lifetime, None);
}

#[test]
fn test_ipv6_address_generation_equality() {
    assert_eq!(Ipv6AddressGeneration::Eui64, Ipv6AddressGeneration::Eui64);
    assert_eq!(
        Ipv6AddressGeneration::StablePrivacy,
        Ipv6AddressGeneration::StablePrivacy
    );
    assert_ne!(
        Ipv6AddressGeneration::Eui64,
        Ipv6AddressGeneration::StablePrivacy
    );
}

#[test]
fn default_network_is_version_zero_and_empty() {
    let config = NetplanConfig::default();
    assert_eq!(config.network, NetworkConfig::default());
    assert_eq!(config.network.version, 0);
    assert_eq!(config.network.renderer, None);
    assert_eq!(config.network.ethernets, None);
    assert_eq!(config.network.wifis, None);
    assert_eq!(config.network.bonds, None);
    assert_eq!(config.network.bridges, None);
    assert_eq!(config.network.vlans, None);
    assert_eq!(config.network.tunnels, None);
    assert_eq!(config.network.vrfs, None);
    assert_eq!(config.network.dummy_devices, None);
}

#[test]
fn default_keeps_compulsory_fields_at_zero_and_empty() {
    let policy = RoutingPolicy::default();
    assert_eq!(policy.table, 0);
    assert_eq!(policy.from, None);
    assert_eq!(policy.priority, None);

    let vrf = VrfsConfig::default();
    assert_eq!(vrf.table, 0);
    assert_eq!(vrf.interfaces, Vec::<String>::new());
    assert_eq!(vrf.common_all, None);

    let tunnel = TunnelConfig::default();
    assert_eq!(tunnel.peers, Vec::<WireGuardPeer>::new());
    assert_eq!(tunnel.mode, None);
    assert_eq!(tunnel.key, None);
}

#[test]
fn default_leaves_every_lenient_boolean_unset() {
    let common = CommonPropertiesAllDevices::default();
    assert_eq!(common.dhcp4, None);
    assert_eq!(common.dhcp6, None);
    assert_eq!(common.ipv6_privacy, None);
    assert_eq!(common.ignore_carrier, None);
    assert_eq!(common.critical, None);
    assert_eq!(common.accept_ra, None);
    assert_eq!(common.optional, None);

    let bond = BondParameters::default();
    assert_eq!(bond.all_slaves_active, None);
    assert_eq!(bond.mode, None);

    let ethernet = EthernetConfig::default();
    assert_eq!(ethernet.common_all, None);
    assert_eq!(ethernet.common_physical, None);
    assert_eq!(ethernet.delay_virtual_functions_rebind, None);
}

#[test]
fn records_compare_field_by_field() {
    let mut a = DhcpOverrides::default();
    let b = DhcpOverrides::default();
    assert_eq!(a, b);
    a.use_dns = Some(false);
    assert_ne!(a, b);
    assert_eq!(a.clone(), a);
}
