use move_installer::cookie_storage::{cookie_entry, delete_cookie, load_cookie, save_cookie, StoreFault};
use move_installer::error::{ErrorKind, InstallerError};

fn error(message: &str) -> InstallerError {
    InstallerError { kind: ErrorKind::SecretStore, message: message.to_string() }
}

fn unavailable() -> StoreFault {
    StoreFault::Unavailable { reason: "no keychain".to_string() }
}

fn no_entry() -> StoreFault {
    StoreFault::NoEntry { reason: "No matching entry found in secure storage".to_string() }
}

fn failed() -> StoreFault {
    StoreFault::Failed { reason: "locked".to_string() }
}

#[test]
fn token_lives_under_a_fixed_entry() {
    let entry = cookie_entry();
    assert_eq!(entry.service, "move-installer");
    assert_eq!(entry.key, "auth-cookie");
}

#[test]
fn save_verdicts() {
    assert_eq!(save_cookie(&Ok(())), Ok(()));
    assert_eq!(save_cookie(&Err(unavailable())), Err(error("Failed to access keychain: no keychain")));
    assert_eq!(save_cookie(&Err(failed())), Err(error("Failed to save cookie: locked")));
    assert_eq!(
        save_cookie(&Err(no_entry())),
        Err(error("Failed to save cookie: No matching entry found in secure storage"))
    );
}

#[test]
fn load_tells_nothing_stored_from_failure() {
    assert_eq!(load_cookie(Ok("tok".to_string())), Ok(Some("tok".to_string())));
    assert_eq!(load_cookie(Ok(String::new())), Ok(Some(String::new())));
    assert_eq!(load_cookie(Err(no_entry())), Ok(None));
    assert_eq!(load_cookie(Err(unavailable())), Err(error("Failed to access keychain: no keychain")));
    assert_eq!(load_cookie(Err(failed())), Err(error("Failed to load cookie: locked")));
}

#[test]
fn delete_verdicts() {
    assert_eq!(delete_cookie(&Ok(())), Ok(()));
    assert_eq!(delete_cookie(&Err(unavailable())), Err(error("Failed to access keychain: no keychain")));
    assert_eq!(delete_cookie(&Err(failed())), Err(error("Failed to delete cookie: locked")));
    assert_eq!(
        delete_cookie(&Err(no_entry())),
        Err(error("Failed to delete cookie: No matching entry found in secure storage"))
    );
}
