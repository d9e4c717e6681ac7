use dinstaller::attributes::{AttributeValue, Attributes};
use dinstaller::error::{ConversionError, PathError, SettingsError};
use dinstaller::install_settings::{resolve, InstallSettings, Scope, UserSettings};
use dinstaller::settings::SettingObject;

fn raw(s: &str) -> AttributeValue {
    AttributeValue(s.to_string())
}

fn object(pairs: &[(&str, &str)]) -> SettingObject {
    let pairs: Vec<(String, String)> =
        pairs.iter().map(|(k, v)| (k.to_string(), v.to_string())).collect();
    SettingObject::from_pairs(&pairs)
}

#[test]
fn test_merge() {
    let mut user1 = UserSettings::default();
    let user2 = UserSettings {
        full_name: Some("Jane Doe".to_owned()),
        autologin: Some(true),
        ..Default::default()
    };
    user1.merge(&user2);
    assert_eq!(user1.full_name.unwrap(), "Jane Doe")
}

#[test]
fn resolve_splits_domain_and_field() {
    let (scope, field) = resolve("storage.lvm").unwrap();
    assert_eq!(scope, Scope::Storage);
    assert_eq!(field, "lvm");

    let (scope, field) = resolve("users.user_name").unwrap();
    assert_eq!(scope, Scope::Users);
    assert_eq!(field, "user_name");

    let (scope, field) = resolve("software.product").unwrap();
    assert_eq!(scope, Scope::Software);
    assert_eq!(field, "product");
}

#[test]
fn resolve_rejects_paths_without_dot() {
    assert_eq!(resolve("storagelvm"), Err(PathError::Malformed));
    assert_eq!(resolve(""), Err(PathError::Malformed));
}

#[test]
fn resolve_rejects_unknown_domains() {
    assert_eq!(resolve("network.dhcp"), Err(PathError::UnknownScope));
    assert_eq!(resolve("Users.user_name"), Err(PathError::UnknownScope));
}

#[test]
fn last_set_wins_and_marks_domain_present() {
    let mut tree = InstallSettings::default();
    tree.set("storage.lvm", raw("true")).unwrap();
    tree.set("storage.lvm", raw("false")).unwrap();
    let storage = tree.storage.as_ref().unwrap();
    assert_eq!(storage.lvm, Some(false));
    let scopes = tree.defined_scopes();
    assert_eq!(scopes, vec![Scope::Storage]);
}

#[test]
fn add_appends_in_call_order() {
    let mut tree = InstallSettings::default();
    tree.add("storage.devices", object(&[("name", "/dev/sda")])).unwrap();
    tree.add("storage.devices", object(&[("name", "/dev/sda")])).unwrap();
    let storage = tree.storage.as_ref().unwrap();
    assert_eq!(storage.devices.len(), 2);
    assert_eq!(storage.devices[0].name, "/dev/sda");
    assert_eq!(storage.devices[1].name, "/dev/sda");
}

#[test]
fn add_without_required_key_fails_and_changes_nothing() {
    let mut tree = InstallSettings::default();
    tree.add("storage.devices", object(&[("name", "/dev/sda")])).unwrap();
    let result = tree.add("storage.devices", object(&[]));
    match result {
        Err(SettingsError::Conversion(ConversionError::MissingKey(key))) => {
            assert_eq!(key, "name");
        }
        other => panic!("expected a missing `name` key, got {:?}", other),
    }
    let storage = tree.storage.as_ref().unwrap();
    assert_eq!(storage.devices.len(), 1);
}

#[test]
fn failed_operations_leave_the_tree_unchanged() {
    let mut tree = InstallSettings::default();

    assert!(matches!(
        tree.set("storagelvm", raw("true")),
        Err(SettingsError::Path(PathError::Malformed))
    ));
    assert!(matches!(
        tree.set("network.dhcp", raw("true")),
        Err(SettingsError::Path(PathError::UnknownScope))
    ));
    assert!(matches!(
        tree.set("storage.nonsense", raw("true")),
        Err(SettingsError::UnknownAttribute)
    ));
    assert!(matches!(
        tree.set("storage.devices", raw("x")),
        Err(SettingsError::UnknownAttribute)
    ));
    assert!(matches!(
        tree.set("storage.lvm", raw("maybe")),
        Err(SettingsError::Conversion(ConversionError::InvalidFormat))
    ));
    assert!(matches!(
        tree.add("users.devices", object(&[("name", "x")])),
        Err(SettingsError::UnknownAttribute)
    ));

    assert!(tree.user.is_none());
    assert!(tree.software.is_none());
    assert!(tree.storage.is_none());
}

#[test]
fn merging_an_empty_overlay_changes_nothing() {
    let mut tree = InstallSettings::default();
    tree.set("users.user_name", raw("alice")).unwrap();
    tree.set("storage.lvm", raw("true")).unwrap();
    tree.add("storage.devices", object(&[("name", "/dev/sda")])).unwrap();

    tree.merge(&InstallSettings::default());

    assert!(tree.software.is_none());
    let user = tree.user.as_ref().unwrap();
    assert_eq!(user.user_name.as_deref(), Some("alice"));
    assert_eq!(user.full_name, None);
    let storage = tree.storage.as_ref().unwrap();
    assert_eq!(storage.lvm, Some(true));
    assert_eq!(storage.encryption_password, None);
    assert_eq!(storage.devices.len(), 1);
    assert_eq!(storage.devices[0].name, "/dev/sda");
}

#[test]
fn merging_into_an_empty_tree_copies_the_overlay() {
    let mut overlay = InstallSettings::default();
    overlay.set("users.user_name", raw("alice")).unwrap();
    overlay.set("storage.lvm", raw("true")).unwrap();
    overlay.add("storage.devices", object(&[("name", "/dev/sda")])).unwrap();

    let mut tree = InstallSettings::default();
    tree.merge(&overlay);

    assert!(tree.software.is_none());
    let user = tree.user.as_ref().unwrap();
    assert_eq!(user.user_name.as_deref(), Some("alice"));
    assert_eq!(user.full_name, None);
    assert_eq!(user.password, None);
    assert_eq!(user.autologin, None);
    let storage = tree.storage.as_ref().unwrap();
    assert_eq!(storage.lvm, Some(true));
    assert_eq!(storage.encryption_password, None);
    assert_eq!(storage.devices.len(), 1);
    assert_eq!(storage.devices[0].name, "/dev/sda");
}

#[test]
fn merge_scalars_win_and_collections_replace() {
    let mut tree = InstallSettings::default();
    tree.set("storage.lvm", raw("false")).unwrap();
    tree.set("storage.encryption_password", raw("s3cret")).unwrap();
    tree.add("storage.devices", object(&[("name", "/dev/sda")])).unwrap();

    let mut overlay = InstallSettings::default();
    overlay.set("storage.lvm", raw("true")).unwrap();
    overlay.add("storage.devices", object(&[("name", "/dev/sdb")])).unwrap();

    tree.merge(&overlay);

    let storage = tree.storage.as_ref().unwrap();
    assert_eq!(storage.lvm, Some(true));
    assert_eq!(storage.encryption_password.as_deref(), Some("s3cret"));
    assert_eq!(storage.devices.len(), 1);
    assert_eq!(storage.devices[0].name, "/dev/sdb");
}

#[test]
fn set_attribute_forwards_to_set() {
    let mut tree = InstallSettings::default();
    tree.set_attribute("users.full_name", raw("Jane Doe")).unwrap();
    let user = tree.user.as_ref().unwrap();
    assert_eq!(user.full_name.as_deref(), Some("Jane Doe"));
}

#[test]
fn defined_scopes_lists_present_domains() {
    let mut tree = InstallSettings::default();
    assert!(tree.defined_scopes().is_empty());
    tree.set("software.product", raw("Leap")).unwrap();
    tree.set("users.autologin", raw("no")).unwrap();
    assert_eq!(tree.defined_scopes(), vec![Scope::Users, Scope::Software]);
}
