//! Wiping secrets in place before their memory is let go.
use vstd::prelude::*;
use secrecy::zeroize::Zeroize;

verus! {

/// Overwrites the bytes of `s` with zeros and empties it (`Zeroize for String`, zeroize 1.9:
/// it zeroes the spare capacity and the contents of the buffer, then clears it).
#[verifier::external_body]
pub(crate) fn zeroize_string(s: &mut String)
    ensures
        final(s)@.len() == 0,
{
    s.zeroize()
}

/// Overwrites every byte of `b` with zero (`Zeroize for [Z; N]`, zeroize 1.9, volatile
/// writes that the compiler does not remove).
#[verifier::external_body]
pub(crate) fn zeroize_array<const N: usize>(b: &mut [u8; N])
    ensures
        final(b)@ == Seq::new(N as nat, |i: int| 0u8),
{
    b.zeroize()
}

} // verus!
