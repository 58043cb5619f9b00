//! AES-256-GCM sealing of byte strings under a 32-byte key, with a fresh random
//! nonce prepended to each sealed message, and Argon2 key derivation.
use vstd::prelude::*;
use crate::vault::error::{Argon2Failure, VaultError};
use vstd::utf8::encode_utf8;
use vstd::string::StrSliceExecFns;
use vstd::string::StringExecFns;
use aes_gcm::aead::rand_core::RngCore;
use aes_gcm::aead::{Aead, KeyInit};

verus! {

/// Length of an AES-256 key.
pub const KEY_LEN: usize = 32;

/// Length of an AES-GCM nonce.
pub const NONCE_LEN: usize = 12;

/// Length of an AES-GCM authentication tag.
pub const TAG_LEN: usize = 16;

/// Longest plaintext AES-GCM accepts (`aes_gcm::P_MAX`, 2^36 bytes).
pub const P_MAX: u64 = 0x10_0000_0000;

/// What `Aes256Gcm::encrypt` returns (ciphertext followed by tag) for a key, a nonce and a
/// plaintext, with no associated data.
pub uninterp spec fn aes256gcm_seal(key: Seq<u8>, nonce: Seq<u8>, plaintext: Seq<u8>) -> Seq<u8>;

/// What `Aes256Gcm::decrypt` returns for a key, a nonce and a ciphertext with its tag, with no
/// associated data: the plaintext, or `None` when the call fails.
pub uninterp spec fn aes256gcm_open(key: Seq<u8>, nonce: Seq<u8>, ciphertext: Seq<u8>) -> Option<
    Seq<u8>,
>;

/// The 32-byte key `Argon2::default().hash_password_into` derives from a password and a salt
/// (Argon2id, version 0x13, default cost parameters).
pub uninterp spec fn argon2_default_key(password: Seq<u8>, salt: Seq<u8>) -> Seq<u8>;

/// Fills `buf` from the operating system's generator (`OsRng::fill_bytes`, rand_core 0.6).
/// Only the length of the buffer is stated: the bytes are random. The call panics if the
/// operating system cannot supply randomness; nothing here can rule that out.
#[verifier::external_body]
pub(crate) fn fill_random(buf: &mut [u8])
    ensures
        final(buf)@.len() == old(buf)@.len(),
{
    aes_gcm::aead::OsRng.fill_bytes(buf)
}

/// Encrypts `plaintext` with AES-256-GCM (`Aes256Gcm::new(key).encrypt(nonce, plaintext)`).
/// The source (aes-gcm 0.10, `encrypt_in_place_detached`) fails only when the plaintext is
/// longer than `P_MAX`; the result is the ciphertext followed by the 16-byte tag, and the
/// decryption of that result under the same key and nonce gives the plaintext back, as the
/// crate documents for any AEAD.
#[verifier::external_body]
fn aes256gcm_encrypt(key: &[u8], nonce: &[u8], plaintext: &[u8]) -> (r: Result<Vec<u8>, aes_gcm::Error>)
    requires
        key@.len() == KEY_LEN,
        nonce@.len() == NONCE_LEN,
    ensures
        r is Ok <==> plaintext@.len() <= P_MAX,
        r matches Ok(c) ==> {
            &&& c@ == aes256gcm_seal(key@, nonce@, plaintext@)
            &&& c@.len() == plaintext@.len() + TAG_LEN
            &&& aes256gcm_open(key@, nonce@, c@) == Some(plaintext@)
        },
{
    let cipher = aes_gcm::Aes256Gcm::new(aes_gcm::Key::<aes_gcm::Aes256Gcm>::from_slice(key));
    cipher.encrypt(aes_gcm::Nonce::from_slice(nonce), plaintext)
}

/// Decrypts `ciphertext` (message followed by tag) with AES-256-GCM
/// (`Aes256Gcm::new(key).decrypt(nonce, ciphertext)`). The contract names the outcome
/// `aes256gcm_open`; it fails exactly when that name is `None`.
#[verifier::external_body]
fn aes256gcm_decrypt(key: &[u8], nonce: &[u8], ciphertext: &[u8]) -> (r: Result<Vec<u8>, aes_gcm::Error>)
    requires
        key@.len() == KEY_LEN,
        nonce@.len() == NONCE_LEN,
    ensures
        match r {
            Ok(p) => aes256gcm_open(key@, nonce@, ciphertext@) == Some(p@),
            Err(_) => aes256gcm_open(key@, nonce@, ciphertext@) is None,
        },
{
    let cipher = aes_gcm::Aes256Gcm::new(aes_gcm::Key::<aes_gcm::Aes256Gcm>::from_slice(key));
    cipher.decrypt(aes_gcm::Nonce::from_slice(nonce), ciphertext)
}

/// The failure Argon2 reports for a password and a salt of these lengths, when it fails.
pub open spec fn argon2_failure_for(password_len: nat, salt_len: nat) -> Argon2Failure {
    if password_len > 0xFFFF_FFFF {
        Argon2Failure::PwdTooLong
    } else if salt_len < 8 {
        Argon2Failure::SaltTooShort
    } else {
        Argon2Failure::SaltTooLong
    }
}

/// Derives a 32-byte key with `Argon2::default().hash_password_into(password, salt, out)`,
/// telling the variants of `argon2::Error` apart. By the source (argon2 0.5.3,
/// `hash_password_into_with_memory` and `verify_inputs`) the output length 32 is within the
/// default bounds and the inputs are checked in this order: a password longer than
/// `0xFFFF_FFFF` bytes gives `PwdTooLong`, then a salt shorter than 8 bytes `SaltTooShort`,
/// then a salt longer than `0xFFFF_FFFF` bytes `SaltTooLong`; otherwise the call succeeds.
#[verifier::external_body]
fn argon2_hash(password: &[u8], salt: &[u8]) -> (r: Result<[u8; 32], Argon2Failure>)
    ensures
        r is Ok <==> (password@.len() <= 0xFFFF_FFFF && 8 <= salt@.len() <= 0xFFFF_FFFF),
        r matches Ok(k) ==> k@ == argon2_default_key(password@, salt@),
        r matches Err(f) ==> f == argon2_failure_for(password@.len(), salt@.len()),
{
    let mut out = [0u8; 32];
    match argon2::Argon2::default().hash_password_into(password, salt, &mut out) {
        Ok(()) => Ok(out),
        Err(argon2::Error::PwdTooLong) => Err(Argon2Failure::PwdTooLong),
        Err(argon2::Error::SaltTooShort) => Err(Argon2Failure::SaltTooShort),
        Err(argon2::Error::SaltTooLong) => Err(Argon2Failure::SaltTooLong),
        Err(_) => Err(Argon2Failure::Other),
    }
}

/// What decrypting a sealed blob (nonce followed by ciphertext) under `key` gives, when it
/// succeeds.
pub open spec fn opened(key: Seq<u8>, blob: Seq<u8>) -> Option<Seq<u8>> {
    if blob.len() < NONCE_LEN || key.len() != KEY_LEN {
        None
    } else {
        aes256gcm_open(key, blob.take(NONCE_LEN as int), blob.skip(NONCE_LEN as int))
    }
}

/// `blob` seals `plaintext` under `key`: a nonce, then the AES-256-GCM ciphertext and tag
/// of `plaintext` under that nonce, which decrypts back to `plaintext`.
pub open spec fn is_sealed_blob(blob: Seq<u8>, key: Seq<u8>, plaintext: Seq<u8>) -> bool {
    &&& blob.len() == NONCE_LEN + plaintext.len() + TAG_LEN
    &&& blob.skip(NONCE_LEN as int) == aes256gcm_seal(key, blob.take(NONCE_LEN as int), plaintext)
    &&& aes256gcm_open(key, blob.take(NONCE_LEN as int), blob.skip(NONCE_LEN as int)) == Some(
        plaintext,
    )
}

/// Decryption undoes encryption: a blob that `encrypt_aes256gcm` made under a 32-byte key
/// opens under that key to the plaintext, so `decrypt_aes256gcm` gives the plaintext back.
pub proof fn lemma_sealed_blob_opens(blob: Seq<u8>, key: Seq<u8>, plaintext: Seq<u8>)
    requires
        key.len() == KEY_LEN,
        is_sealed_blob(blob, key, plaintext),
    ensures
        opened(key, blob) == Some(plaintext),
{
}

/// Seals `plaintext` under `key`: a fresh random nonce followed by the AES-256-GCM
/// ciphertext and tag.
pub fn encrypt_aes256gcm(key: &[u8], plaintext: &[u8]) -> (r: Result<Vec<u8>, VaultError>)
    ensures
        key@.len() != KEY_LEN ==> r is Err && r->Err_0 is InvalidKeyLength,
        key@.len() == KEY_LEN ==> (r is Ok <==> plaintext@.len() <= P_MAX),
        key@.len() == KEY_LEN && plaintext@.len() > P_MAX ==> r is Err && r->Err_0 is AesGcm,
        r matches Ok(blob) ==> is_sealed_blob(blob@, key@, plaintext@),
{
    if key.len() != KEY_LEN {
        return Err(VaultError::InvalidKeyLength);
    }
    let mut nonce = [0u8; 12];
    fill_random(&mut nonce);
    match aes256gcm_encrypt(key, nonce.as_slice(), plaintext) {
        Err(e) => Err(VaultError::AesGcm(e)),
        Ok(mut sealed) => {
            let mut blob: Vec<u8> = Vec::new();
            blob.extend_from_slice(nonce.as_slice());
            let ghost n = nonce@;
            let ghost c = sealed@;
            blob.append(&mut sealed);
            proof {
                assert(blob@ =~= n + c);
                assert(blob@.take(NONCE_LEN as int) =~= n);
                assert(blob@.skip(NONCE_LEN as int) =~= c);
            }
            Ok(blob)
        },
    }
}

/// Opens a blob made by `encrypt_aes256gcm`: splits off the nonce and decrypts the rest.
pub fn decrypt_aes256gcm(key: &[u8], blob: &[u8]) -> (r: Result<Vec<u8>, VaultError>)
    ensures
        blob@.len() < NONCE_LEN ==> r is Err && r->Err_0 is ShortCiphertext,
        blob@.len() >= NONCE_LEN && key@.len() != KEY_LEN ==> r is Err
            && r->Err_0 is InvalidKeyLength,
        blob@.len() >= NONCE_LEN && key@.len() == KEY_LEN && r is Err ==> r->Err_0 is AesGcm,
        r is Ok <==> opened(key@, blob@) is Some,
        r matches Ok(p) ==> opened(key@, blob@) == Some(p@),
{
    if blob.len() < NONCE_LEN {
        return Err(VaultError::ShortCiphertext);
    }
    if key.len() != KEY_LEN {
        return Err(VaultError::InvalidKeyLength);
    }
    let (nonce, sealed) = blob.split_at(NONCE_LEN);
    match aes256gcm_decrypt(key, nonce, sealed) {
        Ok(p) => Ok(p),
        Err(e) => Err(VaultError::AesGcm(e)),
    }
}

/// Derives the 32-byte vault key from the master password and the salt with Argon2.
pub fn derive_key(password: &str, salt: &[u8]) -> (r: Result<[u8; 32], VaultError>)
    ensures
        r is Ok <==> (encode_utf8(password@).len() <= 0xFFFF_FFFF && 8 <= salt@.len()
            <= 0xFFFF_FFFF),
        r matches Ok(k) ==> k@ == argon2_default_key(encode_utf8(password@), salt@),
        r matches Err(e) ==> e == VaultError::Argon2(
            argon2_failure_for(encode_utf8(password@).len(), salt@.len()),
        ),
{
    match argon2_hash(password.as_bytes(), salt) {
        Ok(k) => Ok(k),
        Err(e) => Err(VaultError::Argon2(e)),
    }
}

/// The characters generated passwords are drawn from.
pub open spec fn password_alphabet() -> Seq<char> {
    "abcdefghijklmnopqrstuvwxyzABCDEFGHIJKLMNOPQRSTUVWXYZ0123456789!@#$%^&*()-_=+[]{}<>?"@
}

/// The character of the password alphabet that two random bytes pick: the one at index
/// `(hi * 256 + lo) mod` the length of the alphabet.
pub open spec fn picked_char(hi: u8, lo: u8) -> char {
    password_alphabet()[(hi as int * 256 + lo as int) % (password_alphabet().len() as int)]
}

/// The one-character string of the password alphabet that the bytes `hi` and `lo` pick.
pub fn pick_password_char(hi: u8, lo: u8) -> (r: &'static str)
    ensures
        r@ == seq![picked_char(hi, lo)],
        password_alphabet().contains(picked_char(hi, lo)),
{
    let alphabet = "abcdefghijklmnopqrstuvwxyzABCDEFGHIJKLMNOPQRSTUVWXYZ0123456789!@#$%^&*()-_=+[]{}<>?";
    proof {
        reveal_strlit("abcdefghijklmnopqrstuvwxyzABCDEFGHIJKLMNOPQRSTUVWXYZ0123456789!@#$%^&*()-_=+[]{}<>?");
    }
    let n = alphabet.unicode_len();
    assert(n > 0);
    let idx = (hi as usize * 256 + lo as usize) % n;
    let piece = alphabet.substring_char(idx, idx + 1);
    assert(piece@ =~= seq![picked_char(hi, lo)]);
    assert(password_alphabet()[idx as int] == picked_char(hi, lo));
    piece
}

/// A random password of `length` characters, each picked from the password alphabet by
/// two bytes drawn from the operating system's generator.
pub fn generate_password(length: usize) -> (r: String)
    ensures
        r@.len() == length,
        forall|i: int| 0 <= i < length ==> password_alphabet().contains(#[trigger] r@[i]),
{
    let mut r = String::new();
    let mut i: usize = 0;
    while i < length
        invariant
            i <= length,
            r@.len() == i,
            forall|k: int| 0 <= k < i ==> password_alphabet().contains(#[trigger] r@[k]),
        decreases length - i,
    {
        let mut bytes = [0u8; 2];
        fill_random(&mut bytes);
        let piece = pick_password_char(bytes[0], bytes[1]);
        let ghost before = r@;
        r.append(piece);
        proof {
            assert forall|k: int| 0 <= k < i + 1 implies password_alphabet().contains(
                #[trigger] r@[k],
            ) by {
                if k == i {
                    assert(r@[k] == picked_char(bytes[0], bytes[1]));
                } else {
                    assert(r@[k] == before[k]);
                }
            }
        }
        i = i + 1;
    }
    r
}

} // verus!
