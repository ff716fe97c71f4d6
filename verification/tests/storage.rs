use latch_ledger::error::ContractError;
use latch_ledger::storage::{
    decrypt_data, delete_data, encrypt_data, query_data, store_data, DataStore,
};

fn empty_store() -> DataStore {
    DataStore {
        entries: Vec::new(),
    }
}

#[test]
fn test_store_and_query_data() {
    let mut store = empty_store();
    let sender = "creator".to_string();
    let key = "test_key".to_string();
    let data = b"test_data".to_vec();
    let public_key = "public_key".to_string();
    let private_key = "private_key".to_string();

    let response = store_data(&mut store, &sender, key.clone(), data.clone(), public_key);
    assert!(response.is_ok());

    let result = query_data(&store, &key, &private_key).unwrap();
    assert_eq!(result, data);
}

#[test]
fn test_delete_data() {
    let mut store = empty_store();
    let sender = "creator".to_string();
    let key = "test_key".to_string();
    let data = b"test_data".to_vec();
    let public_key = "public_key".to_string();

    store_data(&mut store, &sender, key.clone(), data, public_key).unwrap();

    let response = delete_data(&mut store, &sender, &key);
    assert!(response.is_ok());
    assert!(store.entries.is_empty());
}

#[test]
fn test_delete_requires_owner() {
    let mut store = empty_store();
    let owner = "creator".to_string();
    let intruder = "other".to_string();
    let key = "k".to_string();
    store_data(
        &mut store,
        &owner,
        key.clone(),
        vec![1, 2, 3],
        "pk".to_string(),
    )
    .unwrap();

    let err = delete_data(&mut store, &intruder, &key).unwrap_err();
    assert_eq!(err, ContractError::Unauthorized);
    assert_eq!(store.entries.len(), 1);
}

#[test]
fn test_delete_missing_key() {
    let mut store = empty_store();
    let err = delete_data(&mut store, &"creator".to_string(), &"nope".to_string()).unwrap_err();
    assert_eq!(err, ContractError::DataNotFound);
}

#[test]
fn test_query_missing_key() {
    let store = empty_store();
    let err = query_data(&store, &"nope".to_string(), &"sk".to_string()).unwrap_err();
    assert_eq!(err, ContractError::DataNotFound);
}

#[test]
fn test_mask_round_trip() {
    let data: Vec<u8> = vec![0x00, 0x01, 0xAA, 0xFF, 0x55];
    let masked = encrypt_data("pk", &data).unwrap();
    assert_eq!(masked, vec![0xAA, 0xAB, 0x00, 0x55, 0xFF]);
    assert_ne!(masked, data);
    let unmasked = decrypt_data("sk", &masked).unwrap();
    assert_eq!(unmasked, data);
}

#[test]
fn test_store_overwrites_same_key() {
    let mut store = empty_store();
    let sender = "creator".to_string();
    let key = "k".to_string();
    store_data(
        &mut store,
        &sender,
        key.clone(),
        vec![1],
        "pk".to_string(),
    )
    .unwrap();
    store_data(
        &mut store,
        &sender,
        key.clone(),
        vec![9, 9],
        "pk".to_string(),
    )
    .unwrap();
    assert_eq!(store.entries.len(), 1);
    let result = query_data(&store, &key, &"sk".to_string()).unwrap();
    assert_eq!(result, vec![9, 9]);
}
