//! The data-type registry: lookups by either key, duplicate rejection.

use osp_core::registry::{DataTypeRegistry, RegistryError};
use std::str::FromStr;

const MY_DATA_KEY: u64 = 7;

fn my_data_id() -> u128 {
    uuid::Uuid::from_str("9eddbf56-8cba-4962-9769-dcc84f1eefae")
        .unwrap()
        .as_u128()
}

#[test]
fn test_registry_fetch_by_type() {
    let mut registry = DataTypeRegistry::new();

    registry.register(MY_DATA_KEY, my_data_id()).unwrap();

    let got = registry.by_type_id(MY_DATA_KEY);
    assert!(got.is_some());
    assert_eq!(got.expect("Anya Forger is best :3").get_id(), my_data_id());
}

#[test]
fn test_registry_fetch_by_uuid() {
    let mut registry = DataTypeRegistry::new();

    registry.register(MY_DATA_KEY, my_data_id()).unwrap();

    let got = registry.by_uuid(my_data_id());
    assert!(got.is_some());
}

#[test]
fn test_registry_lookups_agree() {
    let mut registry = DataTypeRegistry::new();
    registry.register(1, 100).unwrap();
    registry.register(2, 200).unwrap();

    let by_key = registry.by_type_id(2).unwrap();
    let by_id = registry.by_uuid(200).unwrap();
    assert_eq!(by_key, by_id);
    assert_eq!(by_key.type_key, 2);
    assert_eq!(by_key.id, 200);
}

#[test]
fn test_registry_rejects_duplicates() {
    let mut registry = DataTypeRegistry::new();
    registry.register(1, 100).unwrap();

    // the later registration is rejected; the earlier stands
    assert_eq!(registry.register(3, 100), Err(RegistryError::AlreadyRegistered));
    assert_eq!(registry.register(1, 300), Err(RegistryError::AlreadyRegistered));
    assert_eq!(registry.by_uuid(100).unwrap().type_key, 1);
    assert!(!registry.has_by_uuid(300));
    assert!(registry.has_by_uuid(100));
}
