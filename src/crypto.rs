use crate::error::EncryptionError;
use aes_gcm::aead::{Aead, KeyInit, Payload};
use aes_gcm::{Aes256Gcm, Key, Nonce};
use rand_core::{OsRng, RngCore};
use vstd::prelude::*;
use vstd::slice::slice_subrange;

verus! {

/// Length of a key, in bytes.
pub const KEY_SIZE: usize = 32;

/// Length of the nonce that starts every blob, in bytes.
pub const NONCE_SIZE: usize = 12;

/// Length of the authentication tag that ends every blob, in bytes.
pub const TAG_SIZE: usize = 16;

/// Longest plaintext that AES-GCM accepts, in bytes.
pub const MAX_PLAINTEXT_LEN: u64 = 68719476736;

/// Longest associated data that AES-GCM accepts, in bytes.
pub const MAX_AAD_LEN: u64 = 68719476736;

#[verifier::external_type_specification]
#[verifier::external_body]
pub struct ExAeadError(aes_gcm::Error);

/// Ciphertext followed by tag, as AES-256-GCM computes it from a key, a
/// nonce, a message and associated data.
pub uninterp spec fn aes256gcm_seal(key: Seq<u8>, nonce: Seq<u8>, msg: Seq<u8>, aad: Seq<u8>) -> Seq<u8>;

/// `blob` is a nonce followed by the sealing of `pt` under `key`, that nonce
/// and `aad`.
pub open spec fn seals(key: Seq<u8>, blob: Seq<u8>, aad: Seq<u8>, pt: Seq<u8>) -> bool {
    &&& blob.len() > NONCE_SIZE
    &&& blob.subrange(NONCE_SIZE as int, blob.len() as int) == aes256gcm_seal(
        key,
        blob.subrange(0, NONCE_SIZE as int),
        pt,
        aad,
    )
}

/// The detail of the error for a key of the wrong length.
pub open spec fn invalid_key_length() -> Seq<char> {
    "Invalid key length"@
}

/// `r` is what decrypting `blob` under `key` with `aad` returns.
pub open spec fn decrypt_outcome(
    key: Seq<u8>,
    blob: Seq<u8>,
    aad: Seq<u8>,
    r: Result<Seq<u8>, EncryptionError>,
) -> bool {
    if blob.len() <= NONCE_SIZE {
        r == Err::<Seq<u8>, EncryptionError>(EncryptionError::DataTooShort)
    } else if key.len() != KEY_SIZE {
        &&& r is Err
        &&& r->Err_0 is Decryption
        &&& r->Err_0->Decryption_0@ == invalid_key_length()
    } else {
        &&& (r is Ok ==> seals(key, blob, aad, r->Ok_0))
        &&& (r is Ok ==> r->Ok_0.len() + NONCE_SIZE + TAG_SIZE == blob.len())
        &&& (r is Err ==> r->Err_0 == EncryptionError::AeadError)
        &&& forall|p: Seq<u8>|
            #![trigger seals(key, blob, aad, p)]
            p.len() <= MAX_PLAINTEXT_LEN && aad.len() <= MAX_AAD_LEN && seals(key, blob, aad, p)
                ==> r == Ok::<Seq<u8>, EncryptionError>(p)
    }
}

/// The view of a byte-vector result.
pub open spec fn bytes_result(r: Result<Vec<u8>, EncryptionError>) -> Result<Seq<u8>, EncryptionError> {
    match r {
        Ok(v) => Ok(v@),
        Err(e) => Err(e),
    }
}

/// Relies on `RngCore::fill_bytes` of rand_core's `OsRng`: fills `n` bytes
/// from the operating system's generator.
#[verifier::external_body]
fn random_bytes(n: usize) -> (r: Vec<u8>)
    ensures
        r@.len() == n,
{
    let mut buf = vec![0u8; n];
    OsRng.fill_bytes(&mut buf);
    buf
}

/// Relies on aes_gcm's `Aead::encrypt` for `Aes256Gcm`: ciphertext and tag,
/// one tag's length longer than the message; it fails only when the message
/// or the associated data is over AES-GCM's limit.
#[verifier::external_body]
fn aes_gcm_encrypt(key: &[u8], nonce: &[u8], msg: &[u8], aad: &[u8]) -> (r: Result<Vec<u8>, aes_gcm::Error>)
    requires
        key@.len() == KEY_SIZE,
        nonce@.len() == NONCE_SIZE,
    ensures
        r is Ok <==> (msg@.len() <= MAX_PLAINTEXT_LEN && aad@.len() <= MAX_AAD_LEN),
        r is Ok ==> r->Ok_0@ == aes256gcm_seal(key@, nonce@, msg@, aad@),
        r is Ok ==> r->Ok_0@.len() == msg@.len() + TAG_SIZE,
{
    let cipher = Aes256Gcm::new(Key::<Aes256Gcm>::from_slice(key));
    cipher.encrypt(Nonce::from_slice(nonce), Payload { msg, aad })
}

/// Relies on aes_gcm's `Aead::decrypt` for `Aes256Gcm`: it returns the
/// message exactly when the input is the sealing of that message under the
/// same key, nonce and associated data; the message is the input without
/// its trailing tag.
#[verifier::external_body]
fn aes_gcm_decrypt(key: &[u8], nonce: &[u8], sealed: &[u8], aad: &[u8]) -> (r: Result<Vec<u8>, aes_gcm::Error>)
    requires
        key@.len() == KEY_SIZE,
        nonce@.len() == NONCE_SIZE,
    ensures
        r is Ok ==> sealed@ == aes256gcm_seal(key@, nonce@, r->Ok_0@, aad@),
        r is Ok ==> r->Ok_0@.len() + TAG_SIZE == sealed@.len(),
        forall|m: Seq<u8>|
            #![trigger aes256gcm_seal(key@, nonce@, m, aad@)]
            m.len() <= MAX_PLAINTEXT_LEN && aad@.len() <= MAX_AAD_LEN && sealed@
                == aes256gcm_seal(key@, nonce@, m, aad@) ==> r is Ok && r->Ok_0@ == m,
{
    let cipher = Aes256Gcm::new(Key::<Aes256Gcm>::from_slice(key));
    cipher.decrypt(Nonce::from_slice(nonce), Payload { msg: sealed, aad })
}

/// Encrypts `plaintext` under `key`, authenticating `aad` as well; the blob
/// is a fresh random nonce, the ciphertext and the tag.
pub fn encrypt_bytes_with_aad(key: &[u8], plaintext: &[u8], aad: &[u8]) -> (r: Result<Vec<u8>, EncryptionError>)
    ensures
        key@.len() != KEY_SIZE ==> r is Err && r->Err_0 is Encryption && r->Err_0->Encryption_0@
            == invalid_key_length(),
        key@.len() == KEY_SIZE && (plaintext@.len() > MAX_PLAINTEXT_LEN || aad@.len() > MAX_AAD_LEN)
            ==> r == Err::<Vec<u8>, EncryptionError>(EncryptionError::AeadError),
        key@.len() == KEY_SIZE && plaintext@.len() <= MAX_PLAINTEXT_LEN && aad@.len() <= MAX_AAD_LEN
            ==> r is Ok && seals(key@, r->Ok_0@, aad@, plaintext@),
        r is Ok ==> r->Ok_0@.len() == NONCE_SIZE + plaintext@.len() + TAG_SIZE,
{
    if key.len() != KEY_SIZE {
        return Err(EncryptionError::Encryption("Invalid key length".to_owned()));
    }
    let mut blob = random_bytes(NONCE_SIZE);
    let sealed = aes_gcm_encrypt(key, blob.as_slice(), plaintext, aad);
    match sealed {
        Ok(mut sealed) => {
            let ghost nonce = blob@;
            let ghost body = sealed@;
            blob.append(&mut sealed);
            assert(blob@.subrange(0, NONCE_SIZE as int) =~= nonce);
            assert(blob@.subrange(NONCE_SIZE as int, blob@.len() as int) =~= body);
            Ok(blob)
        },
        Err(_) => Err(EncryptionError::AeadError),
    }
}

/// Encrypts `plaintext` under `key` with no associated data.
pub fn encrypt_bytes(key: &[u8], plaintext: &[u8]) -> (r: Result<Vec<u8>, EncryptionError>)
    ensures
        key@.len() != KEY_SIZE ==> r is Err && r->Err_0 is Encryption && r->Err_0->Encryption_0@
            == invalid_key_length(),
        key@.len() == KEY_SIZE && plaintext@.len() > MAX_PLAINTEXT_LEN
            ==> r == Err::<Vec<u8>, EncryptionError>(EncryptionError::AeadError),
        key@.len() == KEY_SIZE && plaintext@.len() <= MAX_PLAINTEXT_LEN
            ==> r is Ok && seals(key@, r->Ok_0@, Seq::empty(), plaintext@),
        r is Ok ==> r->Ok_0@.len() == NONCE_SIZE + plaintext@.len() + TAG_SIZE,
{
    let no_aad: [u8; 0] = [];
    let r = encrypt_bytes_with_aad(key, plaintext, no_aad.as_slice());
    assert(no_aad@ =~= Seq::<u8>::empty());
    r
}

/// Decrypts a blob made by [`encrypt_bytes_with_aad`] under `key` and `aad`.
pub fn decrypt_bytes_with_aad(key: &[u8], data: &[u8], aad: &[u8]) -> (r: Result<Vec<u8>, EncryptionError>)
    ensures
        decrypt_outcome(key@, data@, aad@, bytes_result(r)),
{
    if data.len() <= NONCE_SIZE {
        return Err(EncryptionError::DataTooShort);
    }
    if key.len() != KEY_SIZE {
        return Err(EncryptionError::Decryption("Invalid key length".to_owned()));
    }
    let nonce = slice_subrange(data, 0, NONCE_SIZE);
    let sealed = slice_subrange(data, NONCE_SIZE, data.len());
    let opened = aes_gcm_decrypt(key, nonce, sealed, aad);
    match opened {
        Ok(pt) => Ok(pt),
        Err(_) => Err(EncryptionError::AeadError),
    }
}

/// Decrypts a blob made by [`encrypt_bytes`] under `key`.
pub fn decrypt_bytes(key: &[u8], data: &[u8]) -> (r: Result<Vec<u8>, EncryptionError>)
    ensures
        decrypt_outcome(key@, data@, Seq::empty(), bytes_result(r)),
{
    let no_aad: [u8; 0] = [];
    let r = decrypt_bytes_with_aad(key, data, no_aad.as_slice());
    assert(no_aad@ =~= Seq::<u8>::empty());
    r
}

/// Whatever decryption returns on a blob that encryption made from `pt`
/// under the same key and associated data, it is `pt`.
pub proof fn lemma_round_trip(
    key: Seq<u8>,
    pt: Seq<u8>,
    aad: Seq<u8>,
    blob: Seq<u8>,
    r: Result<Seq<u8>, EncryptionError>,
)
    requires
        key.len() == KEY_SIZE,
        pt.len() <= MAX_PLAINTEXT_LEN,
        aad.len() <= MAX_AAD_LEN,
        seals(key, blob, aad, pt),
        decrypt_outcome(key, blob, aad, r),
    ensures
        r == Ok::<Seq<u8>, EncryptionError>(pt),
{
}

/// A blob of at most a nonce's length decrypts to `DataTooShort`, whatever
/// the key and the associated data.
pub proof fn lemma_decrypt_wrong_length_is_too_short(
    key: Seq<u8>,
    blob: Seq<u8>,
    aad: Seq<u8>,
    r: Result<Seq<u8>, EncryptionError>,
)
    requires
        blob.len() <= NONCE_SIZE,
        decrypt_outcome(key, blob, aad, r),
    ensures
        r == Err::<Seq<u8>, EncryptionError>(EncryptionError::DataTooShort),
{
}

/// Changing one byte after the nonce of a blob that seals `pt` never yields
/// a blob that decrypts to `pt`.
pub proof fn lemma_tampered_tail_never_opens_to_original(
    key: Seq<u8>,
    blob: Seq<u8>,
    aad: Seq<u8>,
    pt: Seq<u8>,
    i: int,
    b: u8,
)
    requires
        seals(key, blob, aad, pt),
        NONCE_SIZE <= i < blob.len(),
        b != blob[i],
    ensures
        !seals(key, blob.update(i, b), aad, pt),
{
    let t = blob.update(i, b);
    assert(t.subrange(0, NONCE_SIZE as int) =~= blob.subrange(0, NONCE_SIZE as int));
    if seals(key, t, aad, pt) {
        let n = NONCE_SIZE as int;
        assert(t.subrange(n, t.len() as int)[i - n] == b);
        assert(blob.subrange(n, blob.len() as int)[i - n] == blob[i]);
    }
}

} // verus!
