use encryption::{require_password, EncryptionError, EncryptionState, KeyState, LifecycleError};

#[test]
fn unlock_creates_salt_then_reunlock_reproduces_key() {
    let mut first = EncryptionState::new();
    let created = first.begin_unlock(None).expect("a new salt to persist");
    assert_eq!(first.finish_unlock("abc"), Ok(true));
    assert!(first.get_encryption_status());
    let key = first.key_manager().get_key().unwrap();

    let mut second = EncryptionState::new();
    assert_eq!(second.begin_unlock(Some(created.clone())), None);
    assert_eq!(second.finish_unlock("abc"), Ok(true));
    assert!(second.get_encryption_status());
    assert_eq!(second.key_manager().get_key().unwrap(), key);
    assert_eq!(second.key_manager().salt(), Some(created.as_str()));
}

#[test]
fn lock_then_get_key_is_not_available() {
    let mut state = EncryptionState::new();
    state.begin_unlock(Some("persisted-salt".to_string()));
    assert_eq!(state.finish_unlock("pw"), Ok(true));
    state.lock_app();
    assert_eq!(
        state.key_manager().get_key(),
        Err(EncryptionError::KeyNotAvailable)
    );
    assert!(!state.get_encryption_status());
    assert_eq!(state.key_manager().state(), KeyState::Unavailable);
    assert_eq!(state.key_manager().salt(), Some("persisted-salt"));
}

#[test]
fn empty_password_is_required() {
    assert_eq!(require_password(""), Err(LifecycleError::PasswordRequired));
    assert_eq!(require_password("x"), Ok(()));
    let mut state = EncryptionState::default();
    state.begin_unlock(Some("persisted-salt".to_string()));
    assert_eq!(
        state.change_password("", "new"),
        Err(LifecycleError::PasswordRequired)
    );
    assert_eq!(
        state.change_password("old", ""),
        Err(LifecycleError::PasswordRequired)
    );
    assert_eq!(state.key_manager().salt(), Some("persisted-salt"));
}

#[test]
fn change_password_before_first_unlock_is_salt_not_found() {
    let mut state = EncryptionState::new();
    assert_eq!(
        state.change_password("old", "new"),
        Err(LifecycleError::SaltNotFound)
    );
    assert!(!state.get_encryption_status());
}

#[test]
fn change_password_with_unusable_salt_keeps_salt() {
    let mut state = EncryptionState::new();
    state.begin_unlock(Some("tiny".to_string()));
    let result = state.change_password("old", "new");
    assert!(matches!(
        result,
        Err(LifecycleError::Encryption(EncryptionError::KeyDerivation(_)))
    ));
    assert_eq!(state.key_manager().salt(), Some("tiny"));
    assert!(!state.get_encryption_status());
}

#[test]
fn change_password_installs_key_under_new_salt() {
    let mut state = EncryptionState::new();
    state.begin_unlock(Some("original-salt".to_string()));
    let new_salt = state.change_password("old", "new").unwrap();
    assert_ne!(new_salt, "original-salt");
    assert_eq!(new_salt.len(), 22);
    assert_eq!(state.key_manager().salt(), Some(new_salt.as_str()));
    let key = state.key_manager().get_key().unwrap();

    let mut again = EncryptionState::new();
    again.begin_unlock(Some(new_salt));
    assert_eq!(again.finish_unlock("new"), Ok(true));
    assert_eq!(again.key_manager().get_key().unwrap(), key);
}

#[test]
fn lifecycle_error_messages() {
    assert_eq!(LifecycleError::IncorrectPassword.message(), "Incorrect password");
    assert_eq!(LifecycleError::PasswordRequired.message(), "Password is required");
    assert_eq!(LifecycleError::SaltNotFound.message(), "Salt not found");
    assert_eq!(
        LifecycleError::SaltSaveFailed("disk full".to_string()).message(),
        "Failed to save salt: disk full"
    );
    assert_eq!(
        LifecycleError::Encryption(EncryptionError::AeadError).message(),
        "AES-GCM operation failed"
    );
}

#[test]
fn change_password_with_wrong_old_password_is_incorrect_password() {
    let mut state = EncryptionState::new();
    state.begin_unlock(Some("persisted-salt".to_string()));
    assert_eq!(state.finish_unlock("p0"), Ok(true));
    let key = state.key_manager().get_key().unwrap();

    assert_eq!(
        state.change_password("old", "new"),
        Err(LifecycleError::IncorrectPassword)
    );
    assert_eq!(state.key_manager().salt(), Some("persisted-salt"));
    assert_eq!(state.key_manager().get_key().unwrap(), key);

    let mut again = EncryptionState::new();
    assert_eq!(again.begin_unlock(Some("persisted-salt".to_string())), None);
    assert_eq!(again.finish_unlock("p0"), Ok(true));
    assert_eq!(again.key_manager().get_key().unwrap(), key);
}

#[test]
fn change_password_with_right_old_password_while_unlocked() {
    let mut state = EncryptionState::new();
    state.begin_unlock(Some("persisted-salt".to_string()));
    assert_eq!(state.finish_unlock("old"), Ok(true));
    let old_key = state.key_manager().get_key().unwrap();
    let new_salt = state.change_password("old", "new").unwrap();
    assert_eq!(state.key_manager().salt(), Some(new_salt.as_str()));
    assert_ne!(state.key_manager().get_key().unwrap(), old_key);
}
