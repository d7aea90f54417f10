//! Application-level encryption: Argon2id key derivation, an in-memory key
//! container that wipes its key, and AES-256-GCM sealing of byte buffers and
//! text fields.
mod crypto;
mod db_crypto;
mod error;
mod key_manager;
mod lifecycle;

pub use crypto::{
    aes256gcm_seal, bytes_result, decrypt_bytes, decrypt_bytes_with_aad, decrypt_outcome,
    encrypt_bytes, encrypt_bytes_with_aad, lemma_decrypt_wrong_length_is_too_short,
    lemma_round_trip, lemma_tampered_tail_never_opens_to_original, seals, KEY_SIZE,
    MAX_AAD_LEN, MAX_PLAINTEXT_LEN, NONCE_SIZE, TAG_SIZE,
};
pub use db_crypto::{decrypt_field, encrypt_field, field_of, field_outcome, lemma_field_round_trip, text_result};
pub use error::EncryptionError;
pub use key_manager::{
    argon2id_key, derived_key, fresh_salt, kdf_accepts, lemma_derive_deterministic,
    lemma_fresh_salt_accepted, KeyManager, KeyState, M_COST, P_COST, SALT_LEN, T_COST,
};
pub use lifecycle::{require_password, EncryptionState, LifecycleError};

/// The error type of the AES-GCM implementation.
pub use aes_gcm::aead::Error as AeadError;
