//! The network key encoder: raw 32-byte key material to the network's
//! human-readable key text, supplied by the `stellar_strkey` library
//! behind trusted wrappers.

use vstd::prelude::*;

verus! {

/// The network's rendering of a 32-byte public key.
pub uninterp spec fn strkey_public(b: Seq<u8>) -> Seq<char>;

/// The network's rendering of a 32-byte private key.
pub uninterp spec fn strkey_private(b: Seq<u8>) -> Seq<char>;

/// Relies on stellar_strkey's `ed25519::PublicKey::to_string`: a
/// deterministic, lossless base-32 rendering of the 32 key bytes under a
/// fixed version byte and checksum, always 56 characters.
#[verifier::external_body]
pub(crate) fn encode_public_key(b: &Vec<u8>) -> (r: String)
    requires
        b@.len() == 32,
    ensures
        r@ == strkey_public(b@),
        r@.len() == 56,
{
    let bytes: [u8; 32] = b.as_slice().try_into().expect("32 bytes");
    format!("{}", stellar_strkey::ed25519::PublicKey(bytes))
}

/// Relies on stellar_strkey's `ed25519::PrivateKey::to_string`: a
/// deterministic, lossless base-32 rendering of the 32 key bytes under a
/// fixed version byte and checksum, always 56 characters.
#[verifier::external_body]
pub(crate) fn encode_private_key(b: &Vec<u8>) -> (r: String)
    requires
        b@.len() == 32,
    ensures
        r@ == strkey_private(b@),
        r@.len() == 56,
{
    let bytes: [u8; 32] = b.as_slice().try_into().expect("32 bytes");
    format!("{}", stellar_strkey::ed25519::PrivateKey(bytes))
}

} // verus!
