//! Errors of the vault layer.
use vstd::prelude::*;
use vstd::string::StringExecFns;

verus! {

/// A failure of the vault layer.
#[derive(Debug)]
pub enum VaultError {
    /// The AEAD cipher refused: authentication failed, or the message was too long.
    AesGcm(aes_gcm::Error),
    /// The key handed to the cipher is not 32 bytes long.
    InvalidKeyLength,
    /// A sealed message is shorter than its nonce.
    ShortCiphertext,
    /// Argon2 refused the password or the salt.
    Argon2(Argon2Failure),
    /// Reading or writing the storage failed; the text says why.
    Storage(String),
}

/// Renders `aes_gcm::Error` with its `Display` impl, which writes the fixed text
/// `aead::Error` (aead 0.5, `impl fmt::Display for Error`).
#[verifier::external_body]
fn aead_error_text(e: &aes_gcm::Error) -> (r: String)
    ensures
        r@ == "aead::Error"@,
{
    format!("{e}")
}

/// Why Argon2 refused to derive a key: the variants of `argon2::Error` that key derivation
/// can meet, and the rest together.
#[derive(Debug, Clone, Copy, PartialEq, Eq, Structural)]
pub enum Argon2Failure {
    /// The password is longer than `0xFFFF_FFFF` bytes.
    PwdTooLong,
    /// The salt is shorter than 8 bytes.
    SaltTooShort,
    /// The salt is longer than `0xFFFF_FFFF` bytes.
    SaltTooLong,
    /// Any other variant of `argon2::Error`; derivation with the default parameters and a
    /// 32-byte output never meets one.
    Other,
}

/// The text of an Argon2 failure, as `argon2::Error`'s `Display` writes it (argon2 0.5.3,
/// `error.rs`).
pub open spec fn argon2_failure_text(f: Argon2Failure) -> Seq<char> {
    match f {
        Argon2Failure::PwdTooLong => "password is too long"@,
        Argon2Failure::SaltTooShort => "salt is too short"@,
        Argon2Failure::SaltTooLong => "salt is too long"@,
        Argon2Failure::Other => "Argon2 failure"@,
    }
}

impl Argon2Failure {
    /// The text of the failure.
    pub fn message(&self) -> (r: String)
        ensures
            r@ == argon2_failure_text(*self),
    {
        match self {
            Argon2Failure::PwdTooLong => String::from_str("password is too long"),
            Argon2Failure::SaltTooShort => String::from_str("salt is too short"),
            Argon2Failure::SaltTooLong => String::from_str("salt is too long"),
            Argon2Failure::Other => String::from_str("Argon2 failure"),
        }
    }
}

/// The message of an error.
pub open spec fn vault_error_text(e: VaultError) -> Seq<char> {
    match e {
        VaultError::AesGcm(_) => "aead::Error"@,
        VaultError::InvalidKeyLength => "Invalid Length"@,
        VaultError::ShortCiphertext => "Ciphertext too short"@,
        VaultError::Argon2(f) => argon2_failure_text(f),
        VaultError::Storage(m) => m@,
    }
}

impl VaultError {
    /// The message of the error, as its `Display` renders it.
    pub fn message(&self) -> (r: String)
        ensures
            r@ == vault_error_text(*self),
    {
        match self {
            VaultError::AesGcm(e) => aead_error_text(e),
            VaultError::InvalidKeyLength => String::from_str("Invalid Length"),
            VaultError::ShortCiphertext => String::from_str("Ciphertext too short"),
            VaultError::Argon2(f) => f.message(),
            VaultError::Storage(m) => m.clone(),
        }
    }
}

} // verus!
