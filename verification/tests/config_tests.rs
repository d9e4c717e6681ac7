use std::collections::HashMap;
use std::str::FromStr;

use dinstaller::config::{
    key_to_scope, parse_config_command, parse_keys_values, ConfigAction, ConfigAssignment,
    ConfigCommands, ConfigKey,
};
use dinstaller::install_settings::Scope;

#[test]
fn actions_test_config_key_from_str() {
    let ConfigKey(namespace, name) = ConfigKey::from_str("storage.lvm").unwrap();
    assert_eq!(namespace, "storage".to_string());
    assert_eq!(name, "lvm".to_string());

    assert_eq!(ConfigKey::from_str("storage-lvm").is_err(), true);
}

#[test]
fn test_hash() {
    let mut changes: HashMap<ConfigKey, String> = HashMap::new();
    changes.insert(ConfigKey("storage".to_string(), "lvm".to_string()), "Foo".to_string());
}

#[test]
fn config_test_config_key_from_str() {
    let ConfigKey(namespace, name) = ConfigKey::from_str("storage.lvm").unwrap();
    assert_eq!(namespace, "storage".to_string());
    assert_eq!(name, "lvm".to_string());

    assert_eq!(ConfigKey::from_str("storage-lvm").is_err(), true);
}

#[test]
fn test_config_assignment_from_str() {
    let ConfigAssignment(key, value) = ConfigAssignment::from_str("storage.lvm=true").unwrap();
    let ConfigKey(namespace, name) = key;
    assert_eq!(namespace, "storage".to_string());
    assert_eq!(name, "lvm".to_string());
    assert_eq!(value.0, "true".to_string());

    assert_eq!(ConfigKey::from_str("storage=lvm-true").is_err(), true);
}

#[test]
fn config_assignment_without_equals_fails() {
    assert!(ConfigAssignment::from_str("storage.lvm").is_err());
}

#[test]
fn keys_values_split_at_first_equals_and_keep_order() {
    let args = vec![
        "storage.lvm=true".to_string(),
        "broken".to_string(),
        "user.user_name=a=b".to_string(),
    ];
    let pairs = parse_keys_values(args);
    assert_eq!(pairs.len(), 2);
    assert_eq!(pairs[0].0, "storage.lvm");
    assert_eq!(pairs[0].1, "true");
    assert_eq!(pairs[1].0, "user.user_name");
    assert_eq!(pairs[1].1, "a=b");
}

#[test]
fn config_command_parses_into_action() {
    let action = parse_config_command(ConfigCommands::Assign {
        values: vec!["storage.lvm=true".to_string()],
    });
    match action {
        ConfigAction::Assign(pairs) => {
            assert_eq!(pairs.len(), 1);
            assert_eq!(pairs[0].0, "storage.lvm");
            assert_eq!(pairs[0].1, "true");
        }
        _ => panic!("expected an assignment action"),
    }

    let action = parse_config_command(ConfigCommands::Load { path: "p.json".to_string() });
    assert!(matches!(action, ConfigAction::Load(p) if p == "p.json"));

    let action = parse_config_command(ConfigCommands::Show);
    assert!(matches!(action, ConfigAction::Show));
}

#[test]
fn key_namespace_maps_to_scope() {
    assert_eq!(key_to_scope("storage.lvm"), Some(Scope::Storage));
    assert_eq!(key_to_scope("users.user_name"), Some(Scope::Users));
    assert_eq!(key_to_scope("software.product"), Some(Scope::Software));
    assert_eq!(key_to_scope("network.dhcp"), None);
    assert_eq!(key_to_scope("nodot"), None);
}
