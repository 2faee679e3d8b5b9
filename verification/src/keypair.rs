//! A derived key pair and its typed 32-byte public and private views.

use vstd::prelude::*;
use vstd::slice::{slice_subrange, slice_to_vec};

use crate::encoder::{encode_private_key, encode_public_key, strkey_private, strkey_public};

verus! {

/// A 32-byte public key, ready for the network's encoding.
#[derive(Debug)]
pub struct PublicKey {
    bytes: Vec<u8>,
}

impl PublicKey {
    #[verifier::type_invariant]
    spec fn type_inv(self) -> bool {
        self.bytes@.len() == 32
    }

    /// The key bytes.
    pub closed spec fn bytes_sq(&self) -> Seq<u8> {
        self.bytes@
    }

    /// The raw key bytes; always exactly 32 of them.
    pub fn as_bytes(&self) -> (r: &Vec<u8>)
        ensures
            r@ == self.bytes_sq(),
            r@.len() == 32,
    {
        proof {
            use_type_invariant(self);
        }
        &self.bytes
    }

    /// The network's text rendering of this public key.
    pub fn to_encoded(&self) -> (r: String)
        ensures
            r@ == strkey_public(self.bytes_sq()),
            r@.len() == 56,
    {
        proof {
            use_type_invariant(self);
        }
        encode_public_key(&self.bytes)
    }
}

/// A 32-byte private key scalar, ready for the network's encoding.
#[derive(Debug)]
pub struct PrivateKey {
    bytes: Vec<u8>,
}

impl PrivateKey {
    #[verifier::type_invariant]
    spec fn type_inv(self) -> bool {
        self.bytes@.len() == 32
    }

    /// The key bytes.
    pub closed spec fn bytes_sq(&self) -> Seq<u8> {
        self.bytes@
    }

    /// The raw scalar bytes; always exactly 32 of them.
    pub fn as_bytes(&self) -> (r: &Vec<u8>)
        ensures
            r@ == self.bytes_sq(),
            r@.len() == 32,
    {
        proof {
            use_type_invariant(self);
        }
        &self.bytes
    }

    /// The network's text rendering of this private key.
    pub fn to_encoded(&self) -> (r: String)
        ensures
            r@ == strkey_private(self.bytes_sq()),
            r@.len() == 56,
    {
        proof {
            use_type_invariant(self);
        }
        encode_private_key(&self.bytes)
    }
}

/// One derived raw key: the deriver's 33-byte public key (a one-byte
/// prefix before the key proper) and its 32-byte private scalar.
#[derive(Debug)]
pub struct KeyPair {
    public_raw: Vec<u8>,
    private_raw: Vec<u8>,
}

impl KeyPair {
    #[verifier::type_invariant]
    spec fn type_inv(self) -> bool {
        self.public_raw@.len() == 33 && self.private_raw@.len() == 32
    }

    /// The deriver's public key bytes, prefix byte included.
    pub closed spec fn public_sq(&self) -> Seq<u8> {
        self.public_raw@
    }

    /// The private scalar bytes.
    pub closed spec fn private_sq(&self) -> Seq<u8> {
        self.private_raw@
    }

    /// Wraps a successful derivation result.
    pub(crate) fn from_raw(public_raw: Vec<u8>, private_raw: Vec<u8>) -> (r: KeyPair)
        requires
            public_raw@.len() == 33,
            private_raw@.len() == 32,
        ensures
            r.public_sq() == public_raw@,
            r.private_sq() == private_raw@,
    {
        KeyPair { public_raw, private_raw }
    }

    /// The public key: the deriver's public bytes with the one-byte
    /// prefix stripped, exactly 32 bytes.
    pub fn public(&self) -> (r: PublicKey)
        ensures
            r.bytes_sq() == self.public_sq().subrange(1, 33),
            r.bytes_sq().len() == 32,
    {
        proof {
            use_type_invariant(self);
        }
        let stripped = slice_subrange(self.public_raw.as_slice(), 1, 33);
        PublicKey { bytes: slice_to_vec(stripped) }
    }

    /// The private key: the raw scalar, exactly 32 bytes, unchanged.
    pub fn private(&self) -> (r: PrivateKey)
        ensures
            r.bytes_sq() == self.private_sq(),
            r.bytes_sq().len() == 32,
    {
        proof {
            use_type_invariant(self);
        }
        let stripped = slice_subrange(self.private_raw.as_slice(), 0, 32);
        proof {
            assert(stripped@ =~= self.private_sq());
        }
        PrivateKey { bytes: slice_to_vec(stripped) }
    }
}

} // verus!
