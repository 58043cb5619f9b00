//! Declaration of the error type of the AEAD cipher, so that results carrying them can
//! pass through verified code.
use vstd::prelude::*;

verus! {

/// Declares `aes_gcm::Error` (re-exported `aead::Error`), the opaque failure of an AEAD call.
#[verifier::external_type_specification]
#[verifier::external_body]
pub struct ExAeadError(aes_gcm::Error);

} // verus!
