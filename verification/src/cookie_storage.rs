//! Trust store: keeping the session token in the secret store of the operating system.

use vstd::prelude::*;
use vstd::string::*;
use crate::error::{ErrorKind, ErrorModel, InstallerError};

verus! {

/// The place of one secret in the secret store.
#[derive(Clone, Debug, PartialEq, Eq)]
pub struct StoreEntry {
    pub service: String,
    pub key: String,
}

/// The mathematical content of a [`StoreEntry`].
pub struct StoreEntryModel {
    pub service: Seq<char>,
    pub key: Seq<char>,
}

impl DeepView for StoreEntry {
    type V = StoreEntryModel;

    open spec fn deep_view(&self) -> StoreEntryModel {
        StoreEntryModel { service: self.service@, key: self.key@ }
    }
}

/// Why the secret store did not do what was asked.
#[derive(Clone, Debug, PartialEq, Eq)]
pub enum StoreFault {
    /// The entry could not be opened.
    Unavailable { reason: String },
    /// The entry holds no secret.
    NoEntry { reason: String },
    /// The store refused for another reason.
    Failed { reason: String },
}

/// The error for a store that could not be reached.
pub open spec fn store_unavailable(reason: Seq<char>) -> ErrorModel {
    ErrorModel { kind: ErrorKind::SecretStore, message: "Failed to access keychain: "@ + reason }
}

/// The error for an operation that the store refused; `doing` says which.
pub open spec fn store_refused(doing: Seq<char>, reason: Seq<char>) -> ErrorModel {
    ErrorModel { kind: ErrorKind::SecretStore, message: doing + reason }
}

/// The place of the session token in the secret store.
pub fn cookie_entry() -> (entry: StoreEntry)
    ensures
        entry.deep_view() == (StoreEntryModel { service: "move-installer"@, key: "auth-cookie"@ }),
{
    StoreEntry { service: String::from_str("move-installer"), key: String::from_str("auth-cookie") }
}

fn store_error(attempted: &str, fault: &StoreFault) -> (error: InstallerError)
    ensures
        error.deep_view() == match *fault {
            StoreFault::Unavailable { reason } => store_unavailable(reason@),
            StoreFault::NoEntry { reason } => store_refused(attempted@, reason@),
            StoreFault::Failed { reason } => store_refused(attempted@, reason@),
        },
{
    let message = match fault {
        StoreFault::Unavailable { reason } => {
            let mut message = String::from_str("Failed to access keychain: ");
            message.append(reason.as_str());
            message
        },
        StoreFault::NoEntry { reason } => {
            let mut message = String::from_str(attempted);
            message.append(reason.as_str());
            message
        },
        StoreFault::Failed { reason } => {
            let mut message = String::from_str(attempted);
            message.append(reason.as_str());
            message
        },
    };
    InstallerError { kind: ErrorKind::SecretStore, message }
}

/// Judges the attempt to save the session token.
pub fn save_cookie(attempt: &Result<(), StoreFault>) -> (verdict: Result<(), InstallerError>)
    ensures
        match *attempt {
            Ok(_) => verdict is Ok,
            Err(StoreFault::Unavailable { reason }) => verdict is Err && verdict->Err_0.deep_view()
                == store_unavailable(reason@),
            Err(StoreFault::NoEntry { reason }) => verdict is Err && verdict->Err_0.deep_view()
                == store_refused("Failed to save cookie: "@, reason@),
            Err(StoreFault::Failed { reason }) => verdict is Err && verdict->Err_0.deep_view()
                == store_refused("Failed to save cookie: "@, reason@),
        },
{
    match attempt {
        Ok(_) => Ok(()),
        Err(fault) => Err(store_error("Failed to save cookie: ", fault)),
    }
}

/// Judges the attempt to load the session token: the token, nothing when none
/// is stored, or why the store could not tell.
pub fn load_cookie(attempt: Result<String, StoreFault>) -> (token: Result<
    Option<String>,
    InstallerError,
>)
    ensures
        match attempt {
            Ok(value) => token == Ok::<Option<String>, InstallerError>(Some(value)),
            Err(StoreFault::NoEntry { reason }) => token == Ok::<Option<String>, InstallerError>(
                None,
            ),
            Err(StoreFault::Unavailable { reason }) => token is Err && token->Err_0.deep_view()
                == store_unavailable(reason@),
            Err(StoreFault::Failed { reason }) => token is Err && token->Err_0.deep_view()
                == store_refused("Failed to load cookie: "@, reason@),
        },
{
    match attempt {
        Ok(value) => Ok(Some(value)),
        Err(StoreFault::NoEntry { .. }) => Ok(None),
        Err(fault) => Err(store_error("Failed to load cookie: ", &fault)),
    }
}

/// Judges the attempt to delete the session token.
///
/// That there was none to delete is a failure like any other.
pub fn delete_cookie(attempt: &Result<(), StoreFault>) -> (verdict: Result<(), InstallerError>)
    ensures
        match *attempt {
            Ok(_) => verdict is Ok,
            Err(StoreFault::Unavailable { reason }) => verdict is Err && verdict->Err_0.deep_view()
                == store_unavailable(reason@),
            Err(StoreFault::NoEntry { reason }) => verdict is Err && verdict->Err_0.deep_view()
                == store_refused("Failed to delete cookie: "@, reason@),
            Err(StoreFault::Failed { reason }) => verdict is Err && verdict->Err_0.deep_view()
                == store_refused("Failed to delete cookie: "@, reason@),
        },
{
    match attempt {
        Ok(_) => Ok(()),
        Err(fault) => Err(store_error("Failed to delete cookie: ", fault)),
    }
}

} // verus!
