//! The hierarchical path deriver: seed and path text to raw key material,
//! supplied by the `slip10` library behind a trusted wrapper.

use vstd::prelude::*;

use crate::text::dec_str;

verus! {

/// The fixed account-namespace prefix every derivation path starts with.
pub open spec fn path_prefix_sq() -> Seq<char> {
    "m/44'/148'"@
}

/// The full path text assembled from the fixed prefix and a suffix.
pub open spec fn full_path_sq(suffix: Seq<char>) -> Seq<char> {
    path_prefix_sq() + suffix
}

/// The path suffix a numeric index stands for: `/{n}'`, always hardened.
pub open spec fn index_suffix_sq(n: nat) -> Seq<char> {
    seq!['/'] + dec_str(n) + seq!['\'']
}

/// A full path of the form `m/44'/148'/{n}'` for some index below 2^31.
pub open spec fn is_hardened_index_path(path: Seq<char>) -> bool {
    exists|n: nat| n < 0x80000000 && path == full_path_sq(index_suffix_sq(n))
}

/// The curve the deriver works over; ed25519 is the only supported one.
#[derive(Debug, Clone, Copy, PartialEq, Eq, Structural)]
pub enum Curve {
    Ed25519,
}

/// What the deriver yields for a seed and a path text: `None` when the
/// path fails the BIP-32 grammar or holds a component the ed25519 scheme
/// rejects, otherwise the 33-byte public key and the 32-byte private
/// scalar of the derived key.
pub uninterp spec fn derived_key(seed: Seq<u8>, path: Seq<char>) -> Option<(Seq<u8>, Seq<u8>)>;

/// Relies on slip10's `BIP32Path::from_str` and `derive_key_from_path`,
/// pure functions of the path text and the seed, and on `Key::public_key`:
/// the private scalar is 32 bytes, and the public key 33 bytes (a zero
/// prefix byte before the 32-byte ed25519 point). Ed25519 is the only
/// curve, so the result depends on the seed and the path alone. The bare
/// account prefix and any single-index path under it with a hardened
/// index below 2^31 parse, and the master key and hardened children
/// always derive, so those paths succeed for every seed.
#[verifier::external_body]
pub(crate) fn derive_raw(seed: &[u8], curve: Curve, path: &str) -> (r: Option<(Vec<u8>, Vec<u8>)>)
    ensures
        r is Some <==> derived_key(seed@, path@) is Some,
        r matches Some(k) ==> derived_key(seed@, path@) == Some((k.0@, k.1@)) && k.0@.len() == 33
            && k.1@.len() == 32,
        path@ == full_path_sq(Seq::<char>::empty()) ==> r is Some,
        is_hardened_index_path(path@) ==> r is Some,
{
    let slip_curve = match curve {
        Curve::Ed25519 => slip10::Curve::Ed25519,
    };
    let parsed = match <slip10::BIP32Path as core::str::FromStr>::from_str(path) {
        Ok(p) => p,
        Err(_) => return None,
    };
    match slip10::derive_key_from_path(seed, slip_curve, &parsed) {
        Ok(key) => Some((key.public_key().to_vec(), key.key.to_vec())),
        Err(_) => None,
    }
}

} // verus!
