use focu::credentials::{
    delete_api_key, get_api_key, lookup_result, removal_result, storage_result, store_api_key,
    CredentialError,
};

fn missing() -> CredentialError {
    CredentialError { missing: true, message: "No matching entry found in secure storage".to_string() }
}

fn failure(text: &str) -> CredentialError {
    CredentialError { missing: false, message: text.to_string() }
}

#[test]
fn lookup_maps_missing_entry_to_none() {
    assert_eq!(lookup_result(Ok("sk-1".to_string())), Ok(Some("sk-1".to_string())));
    assert_eq!(lookup_result(Err(missing())), Ok(None));
    assert_eq!(lookup_result(Err(failure("locked"))), Err("locked".to_string()));
}

#[test]
fn removal_of_missing_entry_is_success() {
    assert_eq!(removal_result(Ok(())), Ok(()));
    assert_eq!(removal_result(Err(missing())), Ok(()));
    assert_eq!(removal_result(Err(failure("denied"))), Err("denied".to_string()));
}

#[test]
fn storage_reports_every_error() {
    assert_eq!(storage_result(Ok(())), Ok(()));
    assert_eq!(
        storage_result(Err(missing())),
        Err("No matching entry found in secure storage".to_string())
    );
    assert_eq!(storage_result(Err(failure("full"))), Err("full".to_string()));
}

#[test]
fn store_on_the_default_store() {
    assert_eq!(store_api_key("openai".to_string(), "sk-test".to_string()), Ok(()));
}

#[test]
fn get_of_unknown_key_is_none() {
    assert_eq!(get_api_key("never-stored-key".to_string()), Ok(None));
}

#[test]
fn delete_of_unknown_key_is_ok() {
    assert_eq!(delete_api_key("never-stored-key".to_string()), Ok(()));
}
