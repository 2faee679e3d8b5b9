//! The derivation surface: a validated mnemonic and the key pairs it
//! yields along paths under the fixed account prefix `m/44'/148'`.

use vstd::pervasive::unreached;
use vstd::prelude::*;

use crate::codec::{
    codec_entropy_from_phrase, codec_phrase_from_entropy, codec_random_phrase, codec_seed_bytes,
    entropy_of_phrase, phrase_of_entropy, phrase_valid, seed_of, valid_entropy_len,
    valid_word_count, WordCount,
};
use crate::deriver::{
    derive_raw, derived_key, full_path_sq, index_suffix_sq, is_hardened_index_path,
    path_prefix_sq, Curve,
};
use crate::error::Error;
use crate::keypair::KeyPair;
use crate::text::{append_decimal, dec_str, is_normalized, normalize, normalize_spec, word_count_sq};

verus! {

/// The 64 seed bytes derived from a phrase and a passphrase.
pub struct Seed {
    bytes: Vec<u8>,
}

impl Seed {
    #[verifier::type_invariant]
    spec fn type_inv(self) -> bool {
        self.bytes@.len() == 64
    }

    /// The seed bytes.
    pub closed spec fn bytes_sq(&self) -> Seq<u8> {
        self.bytes@
    }

    /// The raw seed bytes; always exactly 64 of them.
    pub fn as_bytes(&self) -> (r: &Vec<u8>)
        ensures
            r@ == self.bytes_sq(),
            r@.len() == 64,
    {
        proof {
            use_type_invariant(self);
        }
        &self.bytes
    }
}

/// The passphrase a caller supplied: a missing one stands for the empty
/// passphrase.
pub open spec fn pass_sq(passphrase: Option<&str>) -> Seq<char> {
    match passphrase {
        Some(s) => s@,
        None => Seq::<char>::empty(),
    }
}

/// A checksum-valid, whitespace-normalized mnemonic together with the
/// curve its keys are derived over.
#[derive(Debug)]
pub struct SeedPhrase {
    curve: Curve,
    phrase: String,
}

impl SeedPhrase {
    #[verifier::type_invariant]
    spec fn type_inv(self) -> bool {
        phrase_valid(self.phrase@) && is_normalized(self.phrase@)
    }

    /// The normalized phrase text.
    pub closed spec fn phrase_sq(&self) -> Seq<char> {
        self.phrase@
    }

    /// The configured curve.
    pub closed spec fn curve_sel(&self) -> Curve {
        self.curve
    }

    /// What derivation at a given suffix and passphrase yields for this
    /// phrase.
    pub open spec fn derived_at(&self, suffix: Seq<char>, pass: Seq<char>) -> Option<
        (Seq<u8>, Seq<u8>),
    > {
        derived_key(seed_of(self.phrase_sq(), pass), full_path_sq(suffix))
    }

    /// Wraps an already validated, normalized phrase over the ed25519
    /// curve.
    pub fn new_ed25519(phrase: String) -> (r: SeedPhrase)
        requires
            phrase_valid(phrase@),
            is_normalized(phrase@),
        ensures
            r.phrase_sq() == phrase@,
            r.curve_sel() == Curve::Ed25519,
    {
        SeedPhrase { curve: Curve::Ed25519, phrase }
    }

    /// Encodes raw entropy as a mnemonic. Succeeds exactly on the
    /// supported entropy lengths; the stored phrase is checksum-valid,
    /// single-space separated, three words for every four entropy bytes,
    /// and the entropy can be read back from it unchanged.
    pub fn from_entropy(bytes: &[u8]) -> (r: Result<SeedPhrase, Error>)
        ensures
            r is Ok <==> valid_entropy_len(bytes@.len()),
            r matches Ok(sp) ==> sp.phrase_sq() == phrase_of_entropy(bytes@)
                && entropy_of_phrase(sp.phrase_sq()) == bytes@ && sp.curve_sel() == Curve::Ed25519
                && phrase_valid(sp.phrase_sq()) && is_normalized(sp.phrase_sq())
                && word_count_sq(sp.phrase_sq()) * 4 == bytes@.len() * 3
                && valid_word_count(word_count_sq(sp.phrase_sq())),
            r matches Err(e) ==> e == Error::InvalidEntropy,
    {
        match codec_phrase_from_entropy(bytes) {
            Some(phrase) => Ok(Self::new_ed25519(phrase)),
            None => Err(Error::InvalidEntropy),
        }
    }

    /// Validates a phrase after collapsing whitespace runs to single
    /// spaces and trimming the ends. Succeeds exactly when the normalized
    /// text is a checksum-valid phrase, and stores that normalized text.
    pub fn from_seed_phrase(text: &str) -> (r: Result<SeedPhrase, Error>)
        ensures
            r is Ok <==> phrase_valid(normalize_spec(text@)),
            r matches Ok(sp) ==> sp.phrase_sq() == normalize_spec(text@) && sp.curve_sel()
                == Curve::Ed25519 && phrase_valid(sp.phrase_sq()) && is_normalized(sp.phrase_sq())
                && valid_word_count(word_count_sq(sp.phrase_sq())),
            r matches Err(e) ==> e == Error::InvalidPhrase,
    {
        let normalized = normalize(text);
        match codec_entropy_from_phrase(normalized.as_str()) {
            Some(_) => Ok(Self::new_ed25519(normalized)),
            None => Err(Error::InvalidPhrase),
        }
    }

    /// Draws a fresh random mnemonic of the requested length: a
    /// checksum-valid, single-space separated phrase with the requested
    /// class's word count, over entropy of that class's byte length.
    pub fn random(count: WordCount) -> (r: Result<SeedPhrase, Error>)
        ensures
            r is Ok,
            r matches Ok(sp) ==> sp.curve_sel() == Curve::Ed25519 && phrase_valid(sp.phrase_sq())
                && is_normalized(sp.phrase_sq()) && entropy_of_phrase(sp.phrase_sq()).len()
                == count.entropy_len() && word_count_sq(sp.phrase_sq()) == count.words(),
    {
        Ok(Self::new_ed25519(codec_random_phrase(count)))
    }

    /// The normalized phrase text.
    pub fn phrase(&self) -> (r: &str)
        ensures
            r@ == self.phrase_sq(),
    {
        self.phrase.as_str()
    }

    /// Reads the entropy bytes back out of the stored phrase.
    pub fn entropy(&self) -> (r: Vec<u8>)
        ensures
            r@ == entropy_of_phrase(self.phrase_sq()),
            valid_entropy_len(r@.len()),
    {
        proof {
            use_type_invariant(self);
        }
        match codec_entropy_from_phrase(self.phrase.as_str()) {
            Some(entropy) => entropy,
            None => unreached(),
        }
    }

    /// Derives the 64 seed bytes from the phrase and an optional
    /// passphrase; a missing passphrase means the empty one. Deterministic
    /// in both.
    pub fn to_seed(&self, passphrase: Option<&str>) -> (r: Seed)
        ensures
            r.bytes_sq() == seed_of(self.phrase_sq(), pass_sq(passphrase)),
            r.bytes_sq().len() == 64,
    {
        proof {
            use_type_invariant(self);
        }
        let pass: &str = match passphrase {
            Some(s) => s,
            None => "",
        };
        proof {
            reveal_strlit("");
            assert(pass@ =~= pass_sq(passphrase));
        }
        let bytes = codec_seed_bytes(self.phrase.as_str(), pass);
        Seed { bytes }
    }

    /// Derives the key at `m/44'/148'{path}`. Succeeds exactly when the
    /// deriver accepts the assembled path for this phrase's seed; a
    /// rejection carries that assembled path.
    pub fn from_path_string(&self, path: &str, passphrase: Option<&str>) -> (r: Result<
        KeyPair,
        Error,
    >)
        ensures
            r is Ok <==> self.derived_at(path@, pass_sq(passphrase)) is Some,
            r matches Ok(kp) ==> self.derived_at(path@, pass_sq(passphrase)) == Some(
                (kp.public_sq(), kp.private_sq()),
            ),
            r matches Err(e) ==> (e matches Error::InvalidIndex { path: p } && p@ == full_path_sq(
                path@,
            )),
            path@ == Seq::<char>::empty() ==> r is Ok,
            is_hardened_index_path(full_path_sq(path@)) ==> r is Ok,
    {
        proof {
            use_type_invariant(self);
        }
        let mut full = String::from_str("m/44'/148'");
        full.append(path);
        let seed = self.to_seed(passphrase);
        match derive_raw(seed.as_bytes().as_slice(), self.curve, full.as_str()) {
            Some((public_raw, private_raw)) => Ok(KeyPair::from_raw(public_raw, private_raw)),
            None => Err(Error::InvalidIndex { path: full }),
        }
    }

    /// Derives the key at `m/44'/148'/{num}'`: the index is always
    /// rendered as a hardened component.
    pub fn from_path_index(&self, num: usize, passphrase: Option<&str>) -> (r: Result<
        KeyPair,
        Error,
    >)
        ensures
            r is Ok <==> self.derived_at(index_suffix_sq(num as nat), pass_sq(passphrase)) is Some,
            r matches Ok(kp) ==> self.derived_at(index_suffix_sq(num as nat), pass_sq(passphrase))
                == Some((kp.public_sq(), kp.private_sq())),
            r matches Err(e) ==> (e matches Error::InvalidIndex { path: p } && p@ == full_path_sq(
                index_suffix_sq(num as nat),
            )),
            num < 0x80000000 ==> r is Ok,
    {
        let mut suffix = String::from_str("/");
        append_decimal(&mut suffix, num);
        suffix.append("'");
        proof {
            reveal_strlit("/");
            reveal_strlit("'");
            assert(suffix@ =~= index_suffix_sq(num as nat));
            if num < 0x80000000 {
                assert(is_hardened_index_path(full_path_sq(index_suffix_sq(num as nat))));
            }
        }
        self.from_path_string(suffix.as_str(), passphrase)
    }

    /// Derives the account-root key, at exactly `m/44'/148'` with no
    /// trailing segment; that path always parses and derives.
    pub fn empty_key(&self, passphrase: Option<&str>) -> (r: Result<KeyPair, Error>)
        ensures
            r is Ok,
            r matches Ok(kp) ==> self.derived_at(Seq::<char>::empty(), pass_sq(passphrase))
                == Some((kp.public_sq(), kp.private_sq())),
    {
        proof {
            reveal_strlit("");
            assert(""@ =~= Seq::<char>::empty());
        }
        self.from_path_string("", passphrase)
    }
}

impl Clone for SeedPhrase {
    /// A clone carries the same phrase and curve.
    fn clone(&self) -> (r: Self)
        ensures
            r.phrase_sq() == self.phrase_sq(),
            r.curve_sel() == self.curve_sel(),
    {
        proof {
            use_type_invariant(self);
        }
        SeedPhrase { curve: self.curve, phrase: self.phrase.clone() }
    }
}

impl core::str::FromStr for SeedPhrase {
    type Err = Error;

    fn from_str(s: &str) -> Result<SeedPhrase, Error> {
        SeedPhrase::from_seed_phrase(s)
    }
}

/// Seed derivation is deterministic: any two results derived from the
/// same phrase and passphrase are the same bytes.
pub proof fn lemma_to_seed_deterministic(
    sp: &SeedPhrase,
    passphrase: Option<&str>,
    r1: Seq<u8>,
    r2: Seq<u8>,
)
    requires
        r1 == seed_of(sp.phrase_sq(), pass_sq(passphrase)),
        r2 == seed_of(sp.phrase_sq(), pass_sq(passphrase)),
    ensures
        r1 == r2,
{
}

/// Key derivation is deterministic: any two results derived from the same
/// phrase, suffix and passphrase are the same key material.
pub proof fn lemma_derivation_deterministic(
    sp: &SeedPhrase,
    suffix: Seq<char>,
    pass: Seq<char>,
    k1: Option<(Seq<u8>, Seq<u8>)>,
    k2: Option<(Seq<u8>, Seq<u8>)>,
)
    requires
        k1 == sp.derived_at(suffix, pass),
        k2 == sp.derived_at(suffix, pass),
    ensures
        k1 == k2,
{
}

/// A missing passphrase and a present-but-empty passphrase derive the
/// same seed.
pub proof fn lemma_passphrase_none_is_empty(sp: &SeedPhrase, empty_pass: Option<&str>)
    requires
        empty_pass matches Some(s) && s@ == Seq::<char>::empty(),
    ensures
        seed_of(sp.phrase_sq(), pass_sq(empty_pass)) == seed_of(sp.phrase_sq(), pass_sq(None)),
{
}

/// The account-root derivation path is the fixed prefix itself, with no
/// trailing segment.
pub proof fn lemma_account_root_path()
    ensures
        full_path_sq(Seq::<char>::empty()) == path_prefix_sq(),
{
    assert(full_path_sq(Seq::<char>::empty()) =~= path_prefix_sq());
}

/// A numeric index `n` names the same derivation as the path suffix
/// `/{n}'` written out.
pub proof fn lemma_index_equals_path_string(sp: &SeedPhrase, n: nat, pass: Seq<char>)
    ensures
        sp.derived_at(index_suffix_sq(n), pass) == sp.derived_at(
            seq!['/'] + dec_str(n) + seq!['\''],
            pass,
        ),
{
}

} // verus!
