use crate::error::EncryptionError;
use argon2::password_hash::SaltString;
use argon2::{Algorithm, Argon2, Params, Version};
use rand_core::OsRng;
use vstd::prelude::*;
use vstd::utf8::{encode_utf8, is_ascii_chars, is_ascii_chars_encode_utf8};
use zeroize::Zeroize;

verus! {

/// Argon2id memory cost, in KiB.
pub const M_COST: u32 = 19456;

/// Argon2id number of passes.
pub const T_COST: u32 = 2;

/// Argon2id degree of parallelism.
pub const P_COST: u32 = 1;

/// Length of a freshly generated salt, in characters.
pub const SALT_LEN: usize = 22;

#[verifier::external_type_specification]
#[verifier::external_body]
pub struct ExArgon2Error(argon2::Error);

/// The 32 bytes that Argon2id (version 0x13) derives from a password and a
/// salt under the given costs.
pub uninterp spec fn argon2id_key(password: Seq<u8>, salt: Seq<u8>, m_cost: u32, t_cost: u32, p_cost: u32) -> Seq<u8>;

/// Argon2 accepts this password and salt: neither is over its length limit
/// and the salt has at least eight bytes.
pub open spec fn kdf_accepts(password: Seq<u8>, salt: Seq<u8>) -> bool {
    &&& password.len() <= 0xFFFF_FFFF
    &&& 8 <= salt.len() <= 0xFFFF_FFFF
}

/// The key that this library derives from `password` and the salt string
/// `salt` (its UTF-8 bytes), under its fixed costs.
pub open spec fn derived_key(password: Seq<u8>, salt: Seq<char>) -> Seq<u8> {
    argon2id_key(password, encode_utf8(salt), M_COST, T_COST, P_COST)
}

/// A character of the standard base64 alphabet.
pub open spec fn is_b64_char(c: char) -> bool {
    ||| 'A' <= c <= 'Z'
    ||| 'a' <= c <= 'z'
    ||| '0' <= c <= '9'
    ||| c == '+'
    ||| c == '/'
}

/// A salt as the generator makes them: 22 printable base64 characters.
pub open spec fn fresh_salt(s: Seq<char>) -> bool {
    &&& s.len() == SALT_LEN
    &&& forall|i: int| 0 <= i < s.len() ==> is_b64_char(#[trigger] s[i])
}

/// Relies on argon2's `Params::new` and `Argon2::hash_password_into` with
/// Argon2id, version 0x13: it fails only when the password or the salt is
/// outside Argon2's length limits.
#[verifier::external_body]
fn argon2id_hash(password: &[u8], salt: &[u8], m_cost: u32, t_cost: u32, p_cost: u32) -> (r: Result<[u8; 32], argon2::Error>)
    requires
        1 <= p_cost <= 0xFF_FFFF,
        m_cost >= 8 * p_cost,
        t_cost >= 1,
    ensures
        r is Ok <==> kdf_accepts(password@, salt@),
        r is Ok ==> r->Ok_0@ == argon2id_key(password@, salt@, m_cost, t_cost, p_cost),
{
    let params = Params::new(m_cost, t_cost, p_cost, None)?;
    let mut out = [0u8; 32];
    Argon2::new(Algorithm::Argon2id, Version::V0x13, params).hash_password_into(password, salt, &mut out)?;
    Ok(out)
}

/// Relies on `Display` for argon2's `Error`: its message.
#[verifier::external_body]
fn argon2_message(e: &argon2::Error) -> String {
    e.to_string()
}

/// Relies on password_hash's `SaltString::generate` with rand_core's `OsRng`:
/// sixteen random bytes in unpadded standard base64, hence 22 characters
/// of that alphabet.
#[verifier::external_body]
fn generate_salt_string() -> (r: String)
    ensures
        fresh_salt(r@),
{
    SaltString::generate(&mut OsRng).to_string()
}

/// Relies on zeroize's `Zeroize` for byte arrays: every byte becomes zero,
/// in a write that the compiler keeps.
#[verifier::external_body]
pub(crate) fn wipe(bytes: &mut [u8; 32])
    ensures
        final(bytes)@ == Seq::new(32, |_i: int| 0u8),
    opens_invariants none
    no_unwind
{
    bytes.zeroize();
}

/// Whether a key is installed.
#[derive(Debug, Clone, Copy, PartialEq, Eq, Structural)]
pub enum KeyState {
    /// No key is installed.
    Unavailable,
    /// A key is installed and ready for use.
    Available,
}

/// The 256-bit key, in its own container so that it can be wiped.
struct SecureKey {
    key: [u8; 32],
}

impl SecureKey {
    fn new(key: [u8; 32]) -> (r: SecureKey)
        ensures
            r.key@ == key@,
    {
        SecureKey { key }
    }

    fn key(&self) -> (r: &[u8; 32])
        ensures
            r@ == self.key@,
    {
        &self.key
    }
}

impl Drop for SecureKey {
    /// Wipes the key before its memory is released.
    fn drop(&mut self)
        opens_invariants none
        no_unwind
    {
        wipe(&mut self.key);
    }
}

/// Holds the salt for key derivation and at most one derived key.
pub struct KeyManager {
    key: Option<SecureKey>,
    salt: Option<String>,
}

impl KeyManager {
    /// The installed key, if any.
    pub closed spec fn key_view(&self) -> Option<Seq<u8>> {
        match self.key {
            Some(k) => Some(k.key@),
            None => None,
        }
    }

    /// The salt for key derivation, if any.
    pub closed spec fn salt_view(&self) -> Option<Seq<char>> {
        match self.salt {
            Some(s) => Some(s@),
            None => None,
        }
    }

    /// A manager with no key and no salt.
    pub fn new() -> (r: KeyManager)
        ensures
            r.key_view() is None,
            r.salt_view() is None,
    {
        KeyManager { key: None, salt: None }
    }

    /// `Available` exactly when a key is installed.
    pub fn state(&self) -> (r: KeyState)
        ensures
            r == (if self.key_view() is Some {
                KeyState::Available
            } else {
                KeyState::Unavailable
            }),
    {
        if self.key.is_some() {
            KeyState::Available
        } else {
            KeyState::Unavailable
        }
    }

    /// Uses `salt` for the following derivations.
    pub fn set_salt(&mut self, salt: String)
        ensures
            final(self).salt_view() == Some(salt@),
            final(self).key_view() == old(self).key_view(),
    {
        self.salt = Some(salt);
    }

    /// The salt for key derivation, if any.
    pub fn salt(&self) -> (r: Option<&str>)
        ensures
            r is Some <==> self.salt_view() is Some,
            r is Some ==> self.salt_view() == Some(r->0@),
    {
        match &self.salt {
            Some(s) => Some(s.as_str()),
            None => None,
        }
    }

    /// Generates a fresh random salt, uses it from now on and returns it.
    pub fn generate_salt(&mut self) -> (r: String)
        ensures
            fresh_salt(r@),
            final(self).salt_view() == Some(r@),
            final(self).key_view() == old(self).key_view(),
    {
        let salt = generate_salt_string();
        self.salt = Some(salt.clone());
        salt
    }

    /// Installs `key`, wiping the key that it replaces.
    pub fn install_key(&mut self, key: [u8; 32])
        ensures
            final(self).key_view() == Some(key@),
            final(self).salt_view() == old(self).salt_view(),
    {
        self.clear_key();
        self.key = Some(SecureKey::new(key));
    }

    /// Derives a key from `password` and the salt (a fresh one when there is
    /// none yet) with Argon2id, and installs it.
    pub fn derive_key(&mut self, password: &[u8]) -> (r: Result<(), EncryptionError>)
        ensures
            old(self).salt_view() is Some ==> final(self).salt_view() == old(self).salt_view(),
            old(self).salt_view() is None ==> final(self).salt_view() is Some && fresh_salt(
                final(self).salt_view()->0,
            ),
            final(self).salt_view() is Some,
            r is Ok <==> kdf_accepts(password@, encode_utf8(final(self).salt_view()->0)),
            r is Ok ==> final(self).key_view() == Some(
                derived_key(password@, final(self).salt_view()->0),
            ),
            r is Err ==> r->Err_0 is KeyDerivation && final(self).key_view() == old(self).key_view(),
    {
        let salt = match &self.salt {
            Some(s) => s.clone(),
            None => self.generate_salt(),
        };
        let derived = argon2id_hash(password, salt.as_str().as_bytes(), M_COST, T_COST, P_COST);
        match derived {
            Ok(key) => {
                self.install_key(key);
                Ok(())
            },
            Err(e) => Err(EncryptionError::KeyDerivation(argon2_message(&e))),
        }
    }

    /// The key that `password` derives with the current salt, computed
    /// without installing it; `SaltNotAvailable` when there is no salt.
    pub fn derive_with_salt(&self, password: &[u8]) -> (r: Result<[u8; 32], EncryptionError>)
        ensures
            self.salt_view() is None ==> r == Err::<[u8; 32], EncryptionError>(
                EncryptionError::SaltNotAvailable,
            ),
            self.salt_view() is Some ==> {
                let s = self.salt_view()->0;
                &&& r is Ok <==> kdf_accepts(password@, encode_utf8(s))
                &&& r is Ok ==> r->Ok_0@ == derived_key(password@, s)
                &&& r is Err ==> r->Err_0 is KeyDerivation
            },
    {
        match &self.salt {
            Some(salt) => {
                match argon2id_hash(password, salt.as_str().as_bytes(), M_COST, T_COST, P_COST) {
                    Ok(key) => Ok(key),
                    Err(e) => Err(EncryptionError::KeyDerivation(argon2_message(&e))),
                }
            },
            None => Err(EncryptionError::SaltNotAvailable),
        }
    }

    /// Whether `key` is the installed key. Every byte is compared, whatever
    /// the earlier bytes were.
    pub fn holds_key(&self, key: &[u8; 32]) -> (r: bool)
        ensures
            r == (self.key_view() == Some(key@)),
    {
        match &self.key {
            Some(secure_key) => {
                let installed = secure_key.key();
                let mut same = true;
                let mut i: usize = 0;
                while i < 32
                    invariant
                        i <= 32,
                        installed@.len() == 32,
                        key@.len() == 32,
                        same == (forall|j: int| 0 <= j < i ==> installed@[j] == key@[j]),
                    decreases 32 - i,
                {
                    if installed[i] != key[i] {
                        same = false;
                    }
                    i += 1;
                }
                proof {
                    if same {
                        assert(installed@ =~= key@);
                    }
                }
                same
            },
            None => false,
        }
    }

    /// A copy of the installed key; `KeyNotAvailable` when there is none.
    pub fn get_key(&self) -> (r: Result<[u8; 32], EncryptionError>)
        ensures
            self.key_view() is Some ==> r is Ok && r->Ok_0@ == self.key_view()->0,
            self.key_view() is None ==> r == Err::<[u8; 32], EncryptionError>(
                EncryptionError::KeyNotAvailable,
            ),
    {
        match &self.key {
            Some(secure_key) => Ok(*secure_key.key()),
            None => Err(EncryptionError::KeyNotAvailable),
        }
    }

    /// Wipes the installed key, if any, and discards it.
    pub fn clear_key(&mut self)
        ensures
            final(self).key_view() is None,
            final(self).salt_view() == old(self).salt_view(),
    {
        if let Some(secure_key) = &mut self.key {
            wipe(&mut secure_key.key);
        }
        self.key = None;
    }
}

impl Default for KeyManager {
    fn default() -> (r: KeyManager)
        ensures
            r.key_view() is None,
            r.salt_view() is None,
    {
        KeyManager::new()
    }
}

/// Derivation is deterministic: two keys that the same password and salt
/// derive are the same bytes.
pub proof fn lemma_derive_deterministic(password: Seq<u8>, salt: Seq<char>, k1: Seq<u8>, k2: Seq<u8>)
    requires
        k1 == derived_key(password, salt),
        k2 == derived_key(password, salt),
    ensures
        k1 == k2,
{
}

/// A freshly generated salt is long enough for Argon2.
pub proof fn lemma_fresh_salt_accepted(password: Seq<u8>, salt: Seq<char>)
    requires
        fresh_salt(salt),
        password.len() <= 0xFFFF_FFFF,
    ensures
        kdf_accepts(password, encode_utf8(salt)),
{
    assert(is_ascii_chars(salt));
    is_ascii_chars_encode_utf8(salt);
}

} // verus!
