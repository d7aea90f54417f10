use vstd::prelude::*;

verus! {

/// Errors of the encryption primitives and of the key container.
#[derive(Debug, Clone, PartialEq, Eq)]
pub enum EncryptionError {
    /// The key-derivation function rejected its inputs.
    KeyDerivation(String),
    /// Encryption could not start (the key has the wrong length).
    Encryption(String),
    /// Decryption could not start (the key has the wrong length).
    Decryption(String),
    /// The blob is too short to hold a nonce and any ciphertext.
    DataTooShort,
    /// The blob authenticated, but its plaintext is not UTF-8.
    InvalidUtf8,
    /// The key was requested while none is installed.
    KeyNotAvailable,
    /// No salt is available for key derivation.
    SaltNotAvailable,
    /// Reading or writing a file failed; carries the cause.
    FileOperation(String),
    /// Authentication failed: tampered data, wrong key or wrong associated data.
    AeadError,
    /// Any other failure.
    Other(String),
}

impl EncryptionError {
    /// The text of [`EncryptionError::message`].
    pub open spec fn message_spec(&self) -> Seq<char> {
        match self {
            EncryptionError::KeyDerivation(m) => "Key derivation failed: "@ + m@,
            EncryptionError::Encryption(m) => "Encryption failed: "@ + m@,
            EncryptionError::Decryption(m) => "Decryption failed: "@ + m@,
            EncryptionError::DataTooShort => "Decryption failed: Data too short"@,
            EncryptionError::InvalidUtf8 => "Decryption failed: Invalid UTF-8"@,
            EncryptionError::KeyNotAvailable => "Encryption key not available"@,
            EncryptionError::SaltNotAvailable => "Salt not available"@,
            EncryptionError::FileOperation(m) => "File operation failed: "@ + m@,
            EncryptionError::AeadError => "AES-GCM operation failed"@,
            EncryptionError::Other(m) => m@,
        }
    }

    /// A human-readable description of the error.
    pub fn message(&self) -> (r: String)
        ensures
            r@ == self.message_spec(),
    {
        match self {
            EncryptionError::KeyDerivation(m) => join_message("Key derivation failed: ", m),
            EncryptionError::Encryption(m) => join_message("Encryption failed: ", m),
            EncryptionError::Decryption(m) => join_message("Decryption failed: ", m),
            EncryptionError::DataTooShort => "Decryption failed: Data too short".to_owned(),
            EncryptionError::InvalidUtf8 => "Decryption failed: Invalid UTF-8".to_owned(),
            EncryptionError::KeyNotAvailable => "Encryption key not available".to_owned(),
            EncryptionError::SaltNotAvailable => "Salt not available".to_owned(),
            EncryptionError::FileOperation(m) => join_message("File operation failed: ", m),
            EncryptionError::AeadError => "AES-GCM operation failed".to_owned(),
            EncryptionError::Other(m) => m.clone(),
        }
    }
}

impl From<String> for EncryptionError {
    fn from(err: String) -> (r: EncryptionError)
        ensures
            r == EncryptionError::Other(err),
    {
        EncryptionError::Other(err)
    }
}

impl vstd::std_specs::convert::FromSpecImpl<String> for EncryptionError {
    open spec fn obeys_from_spec() -> bool {
        true
    }

    open spec fn from_spec(v: String) -> EncryptionError {
        EncryptionError::Other(v)
    }
}

impl<'a> From<&'a str> for EncryptionError {
    fn from(err: &'a str) -> (r: EncryptionError)
        ensures
            r is Other && r->Other_0@ == err@,
    {
        EncryptionError::Other(err.to_owned())
    }
}

impl<'a> vstd::std_specs::convert::FromSpecImpl<&'a str> for EncryptionError {
    /// A spec function cannot build the `String`; the exec `from` states
    /// the result instead.
    open spec fn obeys_from_spec() -> bool {
        false
    }

    open spec fn from_spec(v: &'a str) -> EncryptionError {
        arbitrary()
    }
}

/// `prefix` followed by `detail`.
pub(crate) fn join_message(prefix: &str, detail: &String) -> (r: String)
    ensures
        r@ == prefix@ + detail@,
{
    let mut s = prefix.to_owned();
    s.append(detail.as_str());
    s
}

} // verus!
