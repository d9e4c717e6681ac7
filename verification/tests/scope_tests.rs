use dinstaller::error::PathError;
use dinstaller::install_settings::{Device, Scope};
use dinstaller::settings::SettingObject;

#[test]
fn all_scopes_are_known() {
    assert_eq!(Scope::all(), vec![Scope::Software, Scope::Storage, Scope::Users]);
}

#[test]
fn scope_names_match_case_sensitively() {
    assert_eq!(Scope::from_name("users"), Ok(Scope::Users));
    assert_eq!(Scope::from_name("software"), Ok(Scope::Software));
    assert_eq!(Scope::from_name("storage"), Ok(Scope::Storage));
    assert_eq!(Scope::from_name("Users"), Err(PathError::UnknownScope));
    assert_eq!(Scope::from_name(""), Err(PathError::UnknownScope));
}

#[test]
fn devices_convert_from_objects() {
    let pairs = vec![
        ("name".to_string(), "/dev/sda".to_string()),
        ("model".to_string(), "ignored".to_string()),
    ];
    let device = Device::try_from(SettingObject::from_pairs(&pairs)).unwrap();
    assert_eq!(device.name, "/dev/sda");

    let empty: Vec<(String, String)> = Vec::new();
    assert!(Device::try_from(SettingObject::from_pairs(&empty)).is_err());
}
