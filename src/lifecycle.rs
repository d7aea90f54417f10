use crate::error::{join_message, EncryptionError};
use crate::key_manager::{
    derived_key, fresh_salt, kdf_accepts, lemma_fresh_salt_accepted, wipe, KeyManager, KeyState,
};
use vstd::prelude::*;
use vstd::utf8::encode_utf8;

verus! {

/// Errors of the unlock / lock / change-password protocol.
#[derive(Debug, Clone, PartialEq, Eq)]
pub enum LifecycleError {
    /// An error of the key container or of key derivation.
    Encryption(EncryptionError),
    /// Encryption is not enabled.
    NotEnabled,
    /// Encryption is already enabled.
    AlreadyEnabled,
    /// The old password does not derive the installed key.
    IncorrectPassword,
    /// A password argument was empty.
    PasswordRequired,
    /// No salt has been established yet.
    SaltNotFound,
    /// Writing the salt failed; carries the cause.
    SaltSaveFailed(String),
    /// Reading the salt failed; carries the cause.
    SaltLoadFailed(String),
    /// Any other input/output failure; carries the cause.
    Io(String),
    /// Any other failure.
    Other(String),
}

impl LifecycleError {
    /// A human-readable description of the error.
    pub fn message(&self) -> (r: String)
        ensures
            r@ == match self {
                LifecycleError::Encryption(e) => e.message_spec(),
                LifecycleError::NotEnabled => "Encryption is not enabled"@,
                LifecycleError::AlreadyEnabled => "Encryption is already enabled"@,
                LifecycleError::IncorrectPassword => "Incorrect password"@,
                LifecycleError::PasswordRequired => "Password is required"@,
                LifecycleError::SaltNotFound => "Salt not found"@,
                LifecycleError::SaltSaveFailed(m) => "Failed to save salt: "@ + m@,
                LifecycleError::SaltLoadFailed(m) => "Failed to load salt: "@ + m@,
                LifecycleError::Io(m) => "IO error: "@ + m@,
                LifecycleError::Other(m) => "Other error: "@ + m@,
            },
    {
        match self {
            LifecycleError::Encryption(e) => e.message(),
            LifecycleError::NotEnabled => "Encryption is not enabled".to_owned(),
            LifecycleError::AlreadyEnabled => "Encryption is already enabled".to_owned(),
            LifecycleError::IncorrectPassword => "Incorrect password".to_owned(),
            LifecycleError::PasswordRequired => "Password is required".to_owned(),
            LifecycleError::SaltNotFound => "Salt not found".to_owned(),
            LifecycleError::SaltSaveFailed(m) => join_message("Failed to save salt: ", m),
            LifecycleError::SaltLoadFailed(m) => join_message("Failed to load salt: ", m),
            LifecycleError::Io(m) => join_message("IO error: ", m),
            LifecycleError::Other(m) => join_message("Other error: ", m),
        }
    }
}

/// Fails with `PasswordRequired` exactly when `password` is empty.
pub fn require_password(password: &str) -> (r: Result<(), LifecycleError>)
    ensures
        r is Err <==> password@.len() == 0,
        r is Err ==> r->Err_0 == LifecycleError::PasswordRequired,
{
    if password.is_empty() {
        Err(LifecycleError::PasswordRequired)
    } else {
        Ok(())
    }
}

/// The session's key container. The salt lives outside: the caller loads it
/// before [`EncryptionState::begin_unlock`] and saves what the protocol
/// hands back.
pub struct EncryptionState {
    key_manager: KeyManager,
}

impl EncryptionState {
    /// The installed key, if any.
    pub closed spec fn key_view(&self) -> Option<Seq<u8>> {
        self.key_manager.key_view()
    }

    /// The salt in use, if any.
    pub closed spec fn salt_view(&self) -> Option<Seq<char>> {
        self.key_manager.salt_view()
    }

    /// A locked session with no salt.
    pub fn new() -> (r: EncryptionState)
        ensures
            r.key_view() is None,
            r.salt_view() is None,
    {
        EncryptionState { key_manager: KeyManager::new() }
    }

    /// The key container.
    pub fn key_manager(&self) -> (r: &KeyManager)
        ensures
            r.key_view() == self.key_view(),
            r.salt_view() == self.salt_view(),
    {
        &self.key_manager
    }

    /// First step of unlocking: takes the persisted salt, or makes a new one
    /// when there is none. Returns the new salt, which the caller must save
    /// before [`EncryptionState::finish_unlock`].
    pub fn begin_unlock(&mut self, stored_salt: Option<String>) -> (r: Option<String>)
        ensures
            final(self).key_view() == old(self).key_view(),
            stored_salt is Some ==> r is None && final(self).salt_view() == Some(stored_salt->0@),
            stored_salt is None ==> r is Some && fresh_salt(r->0@) && final(self).salt_view() == Some(
                r->0@,
            ),
    {
        match stored_salt {
            Some(salt) => {
                self.key_manager.set_salt(salt);
                None
            },
            None => Some(self.key_manager.generate_salt()),
        }
    }

    /// Second step of unlocking: derives the key from `password` and the
    /// salt, installs it, and reports whether a key is now available.
    pub fn finish_unlock(&mut self, password: &str) -> (r: Result<bool, LifecycleError>)
        ensures
            old(self).salt_view() is Some ==> final(self).salt_view() == old(self).salt_view(),
            old(self).salt_view() is None ==> final(self).salt_view() is Some && fresh_salt(
                final(self).salt_view()->0,
            ),
            final(self).salt_view() is Some,
            r is Ok <==> kdf_accepts(encode_utf8(password@), encode_utf8(final(self).salt_view()->0)),
            r is Ok ==> r == Ok::<bool, LifecycleError>(true) && final(self).key_view() == Some(
                derived_key(encode_utf8(password@), final(self).salt_view()->0),
            ),
            r is Err ==> r->Err_0 is Encryption && r->Err_0->Encryption_0 is KeyDerivation
                && final(self).key_view() == old(self).key_view(),
    {
        match self.key_manager.derive_key(password.as_bytes()) {
            Ok(()) => Ok(self.key_manager.state() == KeyState::Available),
            Err(e) => Err(LifecycleError::Encryption(e)),
        }
    }

    /// Discards the key, wiping it.
    pub fn lock_app(&mut self)
        ensures
            final(self).key_view() is None,
            final(self).salt_view() == old(self).salt_view(),
    {
        self.key_manager.clear_key();
    }

    /// Whether a key is available.
    pub fn get_encryption_status(&self) -> (r: bool)
        ensures
            r == self.key_view() is Some,
    {
        self.key_manager.state() == KeyState::Available
    }

    /// Replaces the salt and the key: checks `old_password` against the
    /// current salt and the installed key, then derives the key for
    /// `new_password` from a fresh salt. Returns that salt, which the caller
    /// must save only now; on failure the old salt stays in use.
    ///
    /// A wrong `old_password` is caught by comparing its key with the
    /// installed one. While locked there is no key to compare with, so the
    /// old password's key is installed unchecked, as an unlock would.
    pub fn change_password(&mut self, old_password: &str, new_password: &str) -> (r: Result<String, LifecycleError>)
        ensures
            old_password@.len() == 0 || new_password@.len() == 0 ==> r == Err::<String, LifecycleError>(
                LifecycleError::PasswordRequired,
            ) && final(self).key_view() == old(self).key_view() && final(self).salt_view() == old(
                self,
            ).salt_view(),
            old_password@.len() > 0 && new_password@.len() > 0 && old(self).salt_view() is None ==> r
                == Err::<String, LifecycleError>(LifecycleError::SaltNotFound) && final(self).key_view() == old(
                self,
            ).key_view() && final(self).salt_view() is None,
            old_password@.len() > 0 && new_password@.len() > 0 && old(self).salt_view() is Some ==> {
                let s = old(self).salt_view()->0;
                let old_pw = encode_utf8(old_password@);
                let new_pw = encode_utf8(new_password@);
                let accepted = kdf_accepts(old_pw, encode_utf8(s));
                let matches = old(self).key_view() is None || old(self).key_view() == Some(
                    derived_key(old_pw, s),
                );
                &&& !accepted ==> r is Err && r->Err_0 is Encryption
                    && r->Err_0->Encryption_0 is KeyDerivation
                    && final(self).key_view() == old(self).key_view() && final(self).salt_view()
                    == Some(s)
                &&& accepted && !matches ==> r == Err::<String, LifecycleError>(
                    LifecycleError::IncorrectPassword,
                ) && final(self).key_view() == old(self).key_view() && final(self).salt_view()
                    == Some(s)
                &&& accepted && matches && new_pw.len() > 0xFFFF_FFFF ==> r is Err
                    && r->Err_0 is Encryption && r->Err_0->Encryption_0 is KeyDerivation
                    && final(self).salt_view() == Some(s)
                    && final(self).key_view() == Some(derived_key(old_pw, s))
                &&& accepted && matches && new_pw.len() <= 0xFFFF_FFFF ==> r is Ok
                    && fresh_salt(r->Ok_0@) && final(self).salt_view() == Some(r->Ok_0@)
                    && final(self).key_view() == Some(derived_key(new_pw, r->Ok_0@))
            },
    {
        if old_password.is_empty() || new_password.is_empty() {
            return Err(LifecycleError::PasswordRequired);
        }
        let old_salt = match self.key_manager.salt() {
            Some(s) => s.to_owned(),
            None => return Err(LifecycleError::SaltNotFound),
        };
        let mut old_key = match self.key_manager.derive_with_salt(old_password.as_bytes()) {
            Ok(k) => k,
            Err(e) => return Err(LifecycleError::Encryption(e)),
        };
        if self.key_manager.state() == KeyState::Available && !self.key_manager.holds_key(&old_key) {
            wipe(&mut old_key);
            return Err(LifecycleError::IncorrectPassword);
        }
        self.key_manager.install_key(old_key);
        let new_salt = self.key_manager.generate_salt();
        proof {
            if encode_utf8(new_password@).len() <= 0xFFFF_FFFF {
                lemma_fresh_salt_accepted(encode_utf8(new_password@), new_salt@);
            }
        }
        match self.key_manager.derive_key(new_password.as_bytes()) {
            Ok(()) => Ok(new_salt),
            Err(e) => {
                self.key_manager.set_salt(old_salt);
                Err(LifecycleError::Encryption(e))
            },
        }
    }
}

impl Default for EncryptionState {
    fn default() -> (r: EncryptionState)
        ensures
            r.key_view() is None,
            r.salt_view() is None,
    {
        EncryptionState::new()
    }
}

} // verus!
