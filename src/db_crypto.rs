use crate::crypto::{
    decrypt_bytes, decrypt_outcome, encrypt_bytes, invalid_key_length, seals, KEY_SIZE, MAX_PLAINTEXT_LEN,
    NONCE_SIZE, TAG_SIZE,
};
use crate::error::EncryptionError;
use vstd::prelude::*;
use vstd::utf8::{decode_utf8, encode_utf8, encode_utf8_decode_utf8, encode_utf8_valid_utf8, valid_utf8};

verus! {

/// `r` is what decrypting the field `blob` under `key` returns: the outcome
/// of byte decryption, with an authenticated plaintext decoded as UTF-8.
pub open spec fn field_outcome(key: Seq<u8>, blob: Seq<u8>, r: Result<Seq<char>, EncryptionError>) -> bool {
    exists|rb: Result<Seq<u8>, EncryptionError>|
        #![trigger decrypt_outcome(key, blob, Seq::empty(), rb)]
        decrypt_outcome(key, blob, Seq::empty(), rb) && r == field_of(rb)
}

/// Decodes an authenticated plaintext as UTF-8; errors pass through.
pub open spec fn field_of(rb: Result<Seq<u8>, EncryptionError>) -> Result<Seq<char>, EncryptionError> {
    match rb {
        Ok(p) => if valid_utf8(p) {
            Ok(decode_utf8(p))
        } else {
            Err(EncryptionError::InvalidUtf8)
        },
        Err(e) => Err(e),
    }
}

/// The view of a text result.
pub open spec fn text_result(r: Result<String, EncryptionError>) -> Result<Seq<char>, EncryptionError> {
    match r {
        Ok(s) => Ok(s@),
        Err(e) => Err(e),
    }
}

/// Relies on `String::from_utf8`: it succeeds exactly on valid UTF-8 and
/// then holds the characters that the bytes encode.
#[verifier::external_body]
fn utf8_to_string(bytes: Vec<u8>) -> (r: Option<String>)
    ensures
        r is Some <==> valid_utf8(bytes@),
        r is Some ==> r->0@ == decode_utf8(bytes@),
{
    String::from_utf8(bytes).ok()
}

/// Encrypts a text field under `key`: its UTF-8 bytes, sealed as by
/// [`encrypt_bytes`].
pub fn encrypt_field(key: &[u8], value: &str) -> (r: Result<Vec<u8>, EncryptionError>)
    ensures
        key@.len() != KEY_SIZE ==> r is Err && r->Err_0 is Encryption && r->Err_0->Encryption_0@
            == invalid_key_length(),
        key@.len() == KEY_SIZE && encode_utf8(value@).len() > MAX_PLAINTEXT_LEN
            ==> r == Err::<Vec<u8>, EncryptionError>(EncryptionError::AeadError),
        key@.len() == KEY_SIZE && encode_utf8(value@).len() <= MAX_PLAINTEXT_LEN
            ==> r is Ok && seals(key@, r->Ok_0@, Seq::empty(), encode_utf8(value@)),
        r is Ok ==> r->Ok_0@.len() == NONCE_SIZE + encode_utf8(value@).len() + TAG_SIZE,
{
    encrypt_bytes(key, value.as_bytes())
}

/// Decrypts a field made by [`encrypt_field`]; `InvalidUtf8` when the blob
/// authenticates but its plaintext is not UTF-8.
pub fn decrypt_field(key: &[u8], data: &[u8]) -> (r: Result<String, EncryptionError>)
    ensures
        field_outcome(key@, data@, text_result(r)),
{
    let plaintext = decrypt_bytes(key, data);
    let ghost rb = crate::crypto::bytes_result(plaintext);
    match plaintext {
        Ok(p) => {
            let decoded = utf8_to_string(p);
            match decoded {
                Some(s) => {
                    assert(decrypt_outcome(key@, data@, Seq::empty(), rb));
                    Ok(s)
                },
                None => {
                    assert(decrypt_outcome(key@, data@, Seq::empty(), rb));
                    Err(EncryptionError::InvalidUtf8)
                },
            }
        },
        Err(e) => {
            assert(decrypt_outcome(key@, data@, Seq::empty(), rb));
            Err(e)
        },
    }
}

/// Decrypting a field that encryption made from `value` under the same key
/// gives `value` back.
pub proof fn lemma_field_round_trip(
    key: Seq<u8>,
    value: Seq<char>,
    blob: Seq<u8>,
    r: Result<Seq<char>, EncryptionError>,
)
    requires
        key.len() == KEY_SIZE,
        encode_utf8(value).len() <= MAX_PLAINTEXT_LEN,
        seals(key, blob, Seq::empty(), encode_utf8(value)),
        field_outcome(key, blob, r),
    ensures
        r == Ok::<Seq<char>, EncryptionError>(value),
{
    let rb = choose|rb: Result<Seq<u8>, EncryptionError>|
        #![trigger decrypt_outcome(key, blob, Seq::empty(), rb)]
        decrypt_outcome(key, blob, Seq::empty(), rb) && r == field_of(rb);
    assert(rb == Ok::<Seq<u8>, EncryptionError>(encode_utf8(value)));
    encode_utf8_valid_utf8(value);
    encode_utf8_decode_utf8(value);
}

} // verus!
