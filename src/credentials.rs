//! API keys kept in the platform's secure credential store, under this
//! application's service name.
use vstd::prelude::*;

verus! {

/// Service name under which every key is stored.
pub const SERVICE_NAME: &'static str = "focu";

#[verifier::external_type_specification]
#[verifier::external_body]
pub struct ExEntry(keyring::Entry);

#[verifier::external_type_specification]
#[verifier::external_body]
pub struct ExKeyringError(keyring::Error);

/// Relies on keyring::Entry::new: an entry for the service and user, or the
/// store's error when the two are invalid for the platform.
pub assume_specification[ keyring::Entry::new ](service: &str, user: &str) -> Result<
    keyring::Entry,
    keyring::Error,
>;

/// Relies on keyring::Entry::set_password: stores the password for the entry.
pub assume_specification[ keyring::Entry::set_password ](
    entry: &keyring::Entry,
    password: &str,
) -> Result<(), keyring::Error>;

/// Relies on keyring::Entry::get_password: the stored password, or
/// `Error::NoEntry` when none is stored.
pub assume_specification[ keyring::Entry::get_password ](entry: &keyring::Entry) -> Result<
    String,
    keyring::Error,
>;

/// Relies on keyring::Entry::delete_credential: removes the stored
/// credential, or fails with `Error::NoEntry` when none is stored.
pub assume_specification[ keyring::Entry::delete_credential ](entry: &keyring::Entry) -> Result<
    (),
    keyring::Error,
>;

/// A failure of the credential store.
#[derive(Clone, Debug)]
pub struct CredentialError {
    /// The store holds no credential for the entry.
    pub missing: bool,
    /// The store's description of the failure.
    pub message: String,
}

/// Relies on keyring::Error: tells `NoEntry` apart from every other variant,
/// and takes the error's `Display` text as the message.
#[verifier::external_body]
fn credential_error(e: keyring::Error) -> (r: CredentialError) {
    let missing = match &e {
        keyring::Error::NoEntry => true,
        _ => false,
    };
    CredentialError { missing, message: e.to_string() }
}

/// Result of storing a key, from the store's answer.
pub open spec fn storage_result_spec(answer: Result<(), CredentialError>) -> Result<(), String> {
    match answer {
        Ok(()) => Ok(()),
        Err(e) => Err(e.message),
    }
}

/// Result of reading a key, from the store's answer: a missing entry is no
/// error, only the absence of a key.
pub open spec fn lookup_result_spec(answer: Result<String, CredentialError>) -> Result<Option<String>, String> {
    match answer {
        Ok(key) => Ok(Some(key)),
        Err(e) => if e.missing {
            Ok(None)
        } else {
            Err(e.message)
        },
    }
}

/// Result of deleting a key, from the store's answer: a key that is already
/// gone counts as deleted.
pub open spec fn removal_result_spec(answer: Result<(), CredentialError>) -> Result<(), String> {
    match answer {
        Ok(()) => Ok(()),
        Err(e) => if e.missing {
            Ok(())
        } else {
            Err(e.message)
        },
    }
}

/// The result of storing a key, given how the store answered.
pub fn storage_result(answer: Result<(), CredentialError>) -> (r: Result<(), String>)
    ensures
        r == storage_result_spec(answer),
{
    match answer {
        Ok(()) => Ok(()),
        Err(e) => Err(e.message),
    }
}

/// The result of reading a key, given how the store answered.
pub fn lookup_result(answer: Result<String, CredentialError>) -> (r: Result<Option<String>, String>)
    ensures
        r == lookup_result_spec(answer),
{
    match answer {
        Ok(key) => Ok(Some(key)),
        Err(e) => if e.missing {
            Ok(None)
        } else {
            Err(e.message)
        },
    }
}

/// The result of deleting a key, given how the store answered.
pub fn removal_result(answer: Result<(), CredentialError>) -> (r: Result<(), String>)
    ensures
        r == removal_result_spec(answer),
{
    match answer {
        Ok(()) => Ok(()),
        Err(e) => if e.missing {
            Ok(())
        } else {
            Err(e.message)
        },
    }
}

/// The store's entry for `key_name`, or the message of the store's error.
fn open_entry(key_name: &String) -> Result<keyring::Entry, String> {
    match keyring::Entry::new(SERVICE_NAME, key_name.as_str()) {
        Ok(entry) => Ok(entry),
        Err(e) => Err(credential_error(e).message),
    }
}

/// Stores `api_key` under `key_name`.
pub fn store_api_key(key_name: String, api_key: String) -> Result<(), String> {
    let entry = open_entry(&key_name)?;
    let answer = match entry.set_password(api_key.as_str()) {
        Ok(()) => Ok(()),
        Err(e) => Err(credential_error(e)),
    };
    storage_result(answer)
}

/// The key stored under `key_name`, or `None` when there is none.
pub fn get_api_key(key_name: String) -> Result<Option<String>, String> {
    let entry = open_entry(&key_name)?;
    let answer = match entry.get_password() {
        Ok(key) => Ok(key),
        Err(e) => Err(credential_error(e)),
    };
    lookup_result(answer)
}

/// Deletes the key stored under `key_name`; a key that is not there counts as deleted.
pub fn delete_api_key(key_name: String) -> Result<(), String> {
    let entry = open_entry(&key_name)?;
    let answer = match entry.delete_credential() {
        Ok(()) => Ok(()),
        Err(e) => Err(credential_error(e)),
    };
    removal_result(answer)
}

} // verus!
