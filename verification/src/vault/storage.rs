//! The storage file format: a 16-byte salt followed by the sealed JSON of the entries.
//! Reading and writing the file itself is left to the caller; these functions build and
//! take apart its bytes.
use vstd::prelude::*;
use vstd::string::StringExecFns;
use crate::text::{append_decimal, decimal};
use crate::vault::crypto::{decrypt_aes256gcm, encrypt_aes256gcm, fill_random, opened, KEY_LEN, NONCE_LEN, P_MAX, TAG_LEN};
use crate::vault::error::VaultError;

verus! {

/// Length of the salt that heads a storage file.
pub const SALT_LEN: usize = 16;

/// The message of the error for a storage file of `len` bytes, too short to hold the salt.
pub open spec fn short_storage_message(len: nat) -> Seq<char> {
    "Storage file too short: expected at least "@ + decimal(SALT_LEN as nat) + " bytes, got "@
        + decimal(len)
}

/// The salt a storage file starts with, if it is long enough to hold one.
pub open spec fn stored_salt(data: Seq<u8>) -> Option<Seq<u8>> {
    if data.len() < SALT_LEN {
        None
    } else {
        Some(data.take(SALT_LEN as int))
    }
}

/// The plaintext a storage file holds under `key`, if the file is long enough and opens.
pub open spec fn stored_plaintext(data: Seq<u8>, key: Seq<u8>) -> Option<Seq<u8>> {
    if data.len() < SALT_LEN {
        None
    } else {
        opened(key, data.skip(SALT_LEN as int))
    }
}

/// `file` is a storage file that holds `plaintext` sealed under `key` behind `salt`.
pub open spec fn is_storage_file(file: Seq<u8>, plaintext: Seq<u8>, key: Seq<u8>, salt: Seq<u8>) -> bool {
    &&& file.len() == salt.len() + NONCE_LEN + plaintext.len() + TAG_LEN
    &&& file.take(salt.len() as int) == salt
    &&& opened(key, file.skip(salt.len() as int)) == Some(plaintext)
}

/// Reading gives back what writing wrote: a storage file built by `save_entries` with a
/// 16-byte salt yields that salt to `try_get_salt`, and yields the plaintext to
/// `load_entries` under the key it was sealed with.
pub proof fn lemma_storage_roundtrip(file: Seq<u8>, plaintext: Seq<u8>, key: Seq<u8>, salt: Seq<u8>)
    requires
        salt.len() == SALT_LEN,
        is_storage_file(file, plaintext, key, salt),
    ensures
        stored_salt(file) == Some(salt),
        stored_plaintext(file, key) == Some(plaintext),
{
}

fn short_storage_error(len: usize) -> (e: VaultError)
    ensures
        (e matches VaultError::Storage(m) && m@ == short_storage_message(len as nat)),
{
    let mut m = String::from_str("Storage file too short: expected at least ");
    append_decimal(&mut m, SALT_LEN as u64);
    m.append(" bytes, got ");
    append_decimal(&mut m, len as u64);
    VaultError::Storage(m)
}

/// Splits a storage file into its salt and the sealed rest.
fn split_storage(data: &[u8]) -> (r: Result<([u8; 16], &[u8]), VaultError>)
    ensures
        r is Ok <==> data@.len() >= SALT_LEN,
        r matches Err(e) ==> (e matches VaultError::Storage(m) && m@ == short_storage_message(
            data@.len(),
        )),
        r matches Ok((salt, rest)) ==> salt@ == data@.take(SALT_LEN as int) && rest@
            == data@.skip(SALT_LEN as int),
{
    if data.len() < SALT_LEN {
        return Err(short_storage_error(data.len()));
    }
    let mut salt = [0u8; 16];
    let mut i: usize = 0;
    while i < SALT_LEN
        invariant
            data@.len() >= SALT_LEN,
            i <= SALT_LEN,
            forall|k: int| 0 <= k < i ==> salt@[k] == data@[k],
        decreases SALT_LEN - i,
    {
        salt[i] = data[i];
        i = i + 1;
    }
    let (_, rest) = data.split_at(SALT_LEN);
    assert(salt@ =~= data@.take(SALT_LEN as int));
    Ok((salt, rest))
}

/// Reads the salt at the head of a storage file.
pub fn try_get_salt(data: &[u8]) -> (r: Result<[u8; 16], VaultError>)
    ensures
        r is Ok <==> stored_salt(data@) is Some,
        r matches Ok(salt) ==> Some(salt@) == stored_salt(data@),
        r matches Err(e) ==> (e matches VaultError::Storage(m) && m@ == short_storage_message(
            data@.len(),
        )),
{
    let (salt, _) = split_storage(data)?;
    Ok(salt)
}

/// Opens a storage file with `key` and gives back the plaintext it holds (the JSON of the
/// entries).
pub fn load_entries(data: &[u8], key: &[u8]) -> (r: Result<Vec<u8>, VaultError>)
    ensures
        r is Ok <==> stored_plaintext(data@, key@) is Some,
        r matches Ok(p) ==> Some(p@) == stored_plaintext(data@, key@),
        data@.len() < SALT_LEN ==> (r matches Err(e) && (e matches VaultError::Storage(m) && m@
            == short_storage_message(data@.len()))),
        data@.len() >= SALT_LEN && data@.len() < SALT_LEN + NONCE_LEN ==> (r is Err
            && r->Err_0 is ShortCiphertext),
        data@.len() >= SALT_LEN + NONCE_LEN && key@.len() != KEY_LEN ==> (r is Err
            && r->Err_0 is InvalidKeyLength),
        data@.len() >= SALT_LEN + NONCE_LEN && key@.len() == KEY_LEN ==> (r is Err
            ==> r->Err_0 is AesGcm),
{
    let (_salt, sealed) = split_storage(data)?;
    decrypt_aes256gcm(key, sealed)
}

/// Builds a storage file: `salt` followed by `plaintext` sealed under `key`.
pub fn save_entries(plaintext: &[u8], key: &[u8], salt: &[u8]) -> (r: Result<Vec<u8>, VaultError>)
    ensures
        key@.len() != KEY_LEN ==> (r is Err && r->Err_0 is InvalidKeyLength),
        key@.len() == KEY_LEN ==> (r is Ok <==> plaintext@.len() <= P_MAX),
        r is Err ==> (r->Err_0 is InvalidKeyLength || r->Err_0 is AesGcm),
        r matches Ok(f) ==> is_storage_file(f@, plaintext@, key@, salt@),
{
    let mut sealed = encrypt_aes256gcm(key, plaintext)?;
    let mut file: Vec<u8> = Vec::new();
    file.extend_from_slice(salt);
    let ghost s = salt@;
    let ghost c = sealed@;
    file.append(&mut sealed);
    proof {
        assert(file@ =~= s + c);
        assert(file@.take(s.len() as int) =~= s);
        assert(file@.skip(s.len() as int) =~= c);
    }
    Ok(file)
}

/// A fresh random salt for a new vault or a new master password.
pub fn generate_salt() -> (salt: [u8; 16]) {
    let mut salt = [0u8; 16];
    fill_random(&mut salt);
    salt
}

} // verus!
