use dinstaller::attributes::AttributeValue;
use dinstaller::install_settings::{
    InstallSettings, Scope, SoftwareSettings, StorageSettings, UserSettings,
};
use dinstaller::settings::SettingObject;
use dinstaller::store::{assemble_loaded, load_scopes, scopes_contain, store_plan, WriteRequest};
use dinstaller::users::FirstUser;

fn raw(s: &str) -> AttributeValue {
    AttributeValue(s.to_string())
}

fn object(pairs: &[(&str, &str)]) -> SettingObject {
    let pairs: Vec<(String, String)> =
        pairs.iter().map(|(k, v)| (k.to_string(), v.to_string())).collect();
    SettingObject::from_pairs(&pairs)
}

fn loaded_user() -> UserSettings {
    UserSettings::from_first_user(FirstUser {
        full_name: "".to_string(),
        user_name: "alice".to_string(),
        password: "".to_string(),
        autologin: false,
    })
}

fn loaded_software() -> SoftwareSettings {
    SoftwareSettings::from_product("Leap".to_string())
}

fn loaded_storage() -> StorageSettings {
    StorageSettings {
        lvm: Some(false),
        encryption_password: None,
        devices: Vec::new(),
    }
}

#[test]
fn load_scopes_defaults_to_all() {
    let scopes = load_scopes(None);
    assert_eq!(scopes, vec![Scope::Software, Scope::Storage, Scope::Users]);
    let scopes = load_scopes(Some(vec![Scope::Storage]));
    assert_eq!(scopes, vec![Scope::Storage]);
    assert!(scopes_contain(&scopes, Scope::Storage));
    assert!(!scopes_contain(&scopes, Scope::Users));
}

#[test]
fn load_of_storage_scope_leaves_other_domains_absent() {
    let scopes = vec![Scope::Storage];
    let tree = assemble_loaded(&scopes, loaded_user(), loaded_software(), loaded_storage());
    assert!(tree.user.is_none());
    assert!(tree.software.is_none());
    let storage = tree.storage.as_ref().unwrap();
    assert_eq!(storage.lvm, Some(false));
    assert!(storage.devices.is_empty());
}

#[test]
fn store_writes_only_the_present_domains() {
    let scopes = vec![Scope::Storage];
    let tree = assemble_loaded(&scopes, loaded_user(), loaded_software(), loaded_storage());
    let plan = store_plan(&tree);
    assert_eq!(plan.len(), 1);
    assert!(matches!(plan[0], WriteRequest::Storage { .. }));
}

#[test]
fn store_of_a_full_tree_writes_each_backend_once() {
    let scopes = load_scopes(None);
    let tree = assemble_loaded(&scopes, loaded_user(), loaded_software(), loaded_storage());
    let plan = store_plan(&tree);
    assert_eq!(plan.len(), 3);
    match &plan[0] {
        WriteRequest::Software { product } => assert_eq!(product, "Leap"),
        other => panic!("expected the software write first, got {:?}", other),
    }
    match &plan[1] {
        WriteRequest::Users { first_user } => {
            assert_eq!(first_user.user_name, "alice");
            assert_eq!(first_user.autologin, false);
        }
        other => panic!("expected the users write second, got {:?}", other),
    }
    assert!(matches!(plan[2], WriteRequest::Storage { .. }));
}

#[test]
fn config_set_round_trip_writes_only_storage() {
    // The flow of a `config set storage.lvm=true` plus a device addition:
    // only the touched scope is loaded, edited and stored.
    let scopes = load_scopes(Some(vec![Scope::Storage]));
    let mut tree = assemble_loaded(&scopes, loaded_user(), loaded_software(), loaded_storage());

    tree.set("storage.lvm", raw("true")).unwrap();
    tree.add("storage.devices", object(&[("name", "/dev/sda")])).unwrap();

    let plan = store_plan(&tree);
    assert_eq!(plan.len(), 1);
    match &plan[0] {
        WriteRequest::Storage { candidate_devices, encryption_password, lvm } => {
            assert_eq!(candidate_devices, &vec!["/dev/sda".to_string()]);
            assert_eq!(encryption_password, "");
            assert_eq!(*lvm, true);
        }
        other => panic!("expected a storage write, got {:?}", other),
    }
}

#[test]
fn absent_user_scalars_are_stored_as_defaults() {
    let mut tree = InstallSettings::default();
    tree.set("users.user_name", raw("bob")).unwrap();
    let plan = store_plan(&tree);
    assert_eq!(plan.len(), 1);
    match &plan[0] {
        WriteRequest::Users { first_user } => {
            assert_eq!(first_user.user_name, "bob");
            assert_eq!(first_user.full_name, "");
            assert_eq!(first_user.password, "");
            assert_eq!(first_user.autologin, false);
        }
        other => panic!("expected a users write, got {:?}", other),
    }
}

#[test]
fn software_without_a_chosen_product_is_not_written() {
    let tree = InstallSettings {
        user: None,
        software: Some(SoftwareSettings { product: None }),
        storage: None,
    };
    let plan = store_plan(&tree);
    assert!(plan.is_empty());
}
