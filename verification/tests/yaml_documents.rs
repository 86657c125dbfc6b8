use std::collections::HashMap;

use netplan_types::yaml_bool::decoder::{string_or_bool, string_or_bool_option};
use netplan_types::yaml_bool::error::DecodeError;
use netplan_types::yaml_bool::token::{Presence, Token, TokenKind};
use netplan_types::{
    CommonPropertiesAllDevices, DhcpOverrides, EthernetConfig, NetplanConfig, NetworkConfig,
};
use serde_yaml::Value;

/// What the decoder reads of a YAML value.
fn token_of(value: &Value) -> Token {
    match value {
        Value::Null => Token::Null,
        Value::Bool(b) => Token::Bool(*b),
        Value::Number(n) => {
            if n.is_f64() {
                Token::Float
            } else {
                Token::Integer
            }
        }
        Value::String(s) => Token::Str(s.clone()),
        Value::Sequence(_) => Token::Sequence,
        Value::Mapping(_) => Token::Mapping,
        Value::Tagged(tagged) => token_of(&tagged.value),
    }
}

/// The field `key` of the mapping `block`, as it stands in the document.
fn field_of(block: &Value, key: &str) -> Presence {
    match block.get(key) {
        None => Presence::Absent,
        Some(value) => Presence::Present(token_of(value)),
    }
}

fn overrides_of(block: &Value) -> Result<DhcpOverrides, DecodeError> {
    Ok(DhcpOverrides {
        use_dns: string_or_bool_option(&field_of(block, "use-dns"))?,
        use_ntp: string_or_bool_option(&field_of(block, "use-ntp"))?,
        send_hostname: string_or_bool_option(&field_of(block, "send-hostname"))?,
        use_hostname: string_or_bool_option(&field_of(block, "use-hostname"))?,
        use_mtu: string_or_bool_option(&field_of(block, "use-mtu"))?,
        use_routes: string_or_bool_option(&field_of(block, "use-routes"))?,
        ..Default::default()
    })
}

#[test]
fn yaml_booleans() {
    let input = r#"
            network:
              version: 2
              ethernets:
                nics:
                  match:
                    name: ens*
                  dhcp4: on
                  dhcp6: N
            "#;

    let document: Value = serde_yaml::from_str(input).unwrap();
    let nics = &document["network"]["ethernets"]["nics"];
    let mut devices = HashMap::new();
    devices.insert(
        "nics".to_string(),
        EthernetConfig {
            common_all: Some(CommonPropertiesAllDevices {
                dhcp4: string_or_bool_option(&field_of(nics, "dhcp4")).unwrap(),
                dhcp6: string_or_bool_option(&field_of(nics, "dhcp6")).unwrap(),
                ..Default::default()
            }),
            ..Default::default()
        },
    );
    let netplan_config = NetplanConfig {
        network: NetworkConfig {
            version: 2,
            ethernets: Some(devices),
            ..Default::default()
        },
    };

    let ethernets = netplan_config.network.ethernets.unwrap();
    let ethernet = ethernets.values().next().unwrap();

    assert!(ethernet.common_all.is_some());

    let common = ethernet.common_all.as_ref().unwrap();

    assert_eq!(common.dhcp4, Some(true));
    assert_eq!(common.dhcp6, Some(false));
}

#[test]
fn test_dhcp_overrides_bool_as_string() {
    let yaml = r#"
use-dns: "false"
use-ntp: "true"
"#;

    let document: Value = serde_yaml::from_str(yaml).unwrap();
    let overrides = overrides_of(&document).unwrap();
    assert_eq!(overrides.use_dns, Some(false));
    assert_eq!(overrides.use_ntp, Some(true));
}

#[test]
fn plain_scalars_of_a_document_decode_leniently() {
    let yaml = r#"
use-dns: Yes
use-ntp: OFF
send-hostname: y
use-hostname: false
use-mtu: True
use-routes: ~
"#;
    let document: Value = serde_yaml::from_str(yaml).unwrap();
    let overrides = overrides_of(&document).unwrap();
    assert_eq!(overrides.use_dns, Some(true));
    assert_eq!(overrides.use_ntp, Some(false));
    assert_eq!(overrides.send_hostname, Some(true));
    assert_eq!(overrides.use_hostname, Some(false));
    assert_eq!(overrides.use_mtu, Some(true));
    assert_eq!(overrides.use_routes, None);
}

#[test]
fn test_empty_dhcp_overrides() {
    let yaml = "{}";
    let document: Value = serde_yaml::from_str(yaml).unwrap();
    let overrides = overrides_of(&document).unwrap();

    assert_eq!(overrides.use_dns, None);
    assert_eq!(overrides.use_ntp, None);
    assert_eq!(overrides.route_metric, None);
    assert_eq!(overrides, DhcpOverrides::default());
}

#[test]
fn one_bad_field_fails_the_block() {
    let yaml = r#"
use-dns: true
use-ntp: maybe
"#;
    let document: Value = serde_yaml::from_str(yaml).unwrap();
    assert_eq!(
        overrides_of(&document),
        Err(DecodeError::UnrecognizedValue {
            literal: "maybe".to_string(),
            accepted: &["true", "false", "yes", "no", "on", "off", "y", "n"],
        })
    );
}

#[test]
fn structured_values_of_a_document_are_type_mismatches() {
    let yaml = r#"
a: {x: 1}
b: [true]
c: 1
d: 1.5
e: null
"#;
    let document: Value = serde_yaml::from_str(yaml).unwrap();
    for (key, kind) in [
        ("a", TokenKind::Mapping),
        ("b", TokenKind::Sequence),
        ("c", TokenKind::Integer),
        ("d", TokenKind::Float),
        ("e", TokenKind::Null),
    ] {
        assert_eq!(
            string_or_bool(&token_of(&document[key])),
            Err(DecodeError::TypeMismatch {
                expected: "YAML boolean",
                actual: kind,
            })
        );
    }
    assert_eq!(string_or_bool_option(&field_of(&document, "e")), Ok(None));
    assert_eq!(string_or_bool_option(&field_of(&document, "f")), Ok(None));
}
