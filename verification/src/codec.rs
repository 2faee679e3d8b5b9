//! The mnemonic codec: entropy, phrase and seed conversions, supplied by
//! the `bip39` library behind trusted wrappers.

use vstd::prelude::*;

use crate::text::{is_normalized, word_count_sq};

verus! {

/// The entropy byte lengths the wordlist scheme supports; they map to
/// phrases of 12, 15, 18, 21 and 24 words.
pub open spec fn valid_entropy_len(n: nat) -> bool {
    n == 16 || n == 20 || n == 24 || n == 28 || n == 32
}

/// The word counts the wordlist scheme supports.
pub open spec fn valid_word_count(n: nat) -> bool {
    n == 12 || n == 15 || n == 18 || n == 21 || n == 24
}

/// Whether the codec accepts `s` as a checksum-valid English phrase.
pub uninterp spec fn phrase_valid(s: Seq<char>) -> bool;

/// The phrase the codec encodes the entropy bytes `e` into.
pub uninterp spec fn phrase_of_entropy(e: Seq<u8>) -> Seq<char>;

/// The entropy bytes the codec decodes out of the phrase `s`.
pub uninterp spec fn entropy_of_phrase(s: Seq<char>) -> Seq<u8>;

/// The seed bytes the codec derives from a phrase and a passphrase.
pub uninterp spec fn seed_of(phrase: Seq<char>, passphrase: Seq<char>) -> Seq<u8>;

/// The supported phrase lengths, by word count.
#[derive(Debug, Clone, Copy, PartialEq, Eq, Structural)]
pub enum WordCount {
    Words12,
    Words15,
    Words18,
    Words21,
    Words24,
}

impl WordCount {
    /// The entropy byte length behind a phrase of this class.
    pub open spec fn entropy_len(self) -> nat {
        match self {
            WordCount::Words12 => 16,
            WordCount::Words15 => 20,
            WordCount::Words18 => 24,
            WordCount::Words21 => 28,
            WordCount::Words24 => 32,
        }
    }

    /// The number of words in a phrase of this class.
    pub open spec fn words(self) -> nat {
        match self {
            WordCount::Words12 => 12,
            WordCount::Words15 => 15,
            WordCount::Words18 => 18,
            WordCount::Words21 => 21,
            WordCount::Words24 => 24,
        }
    }
}

/// Relies on bip39's `Mnemonic::from_entropy`, which succeeds exactly on
/// entropy of 16, 20, 24, 28 or 32 bytes and encodes it as a checksummed
/// phrase of wordlist words joined by single spaces, and on
/// `Mnemonic::into_phrase`; the stored entropy of that phrase (what
/// `Mnemonic::entropy` returns after re-parsing) is the entropy given
/// here; the phrase holds eleven words per sixteen entropy bytes, that
/// is three words for every four bytes.
#[verifier::external_body]
pub(crate) fn codec_phrase_from_entropy(entropy: &[u8]) -> (r: Option<String>)
    ensures
        r is Some <==> valid_entropy_len(entropy@.len()),
        r matches Some(p) ==> p@ == phrase_of_entropy(entropy@) && phrase_valid(p@)
            && is_normalized(p@) && entropy_of_phrase(p@) == entropy@
            && word_count_sq(p@) * 4 == entropy@.len() * 3,
{
    bip39::Mnemonic::from_entropy(entropy, bip39::Language::English).ok().map(|m| m.into_phrase())
}

/// Relies on bip39's `Mnemonic::from_phrase`, which succeeds exactly on
/// checksum-valid phrases, and on `Mnemonic::entropy`, which returns the
/// entropy the phrase encodes, of a supported length. A phrase it accepts
/// splits on whitespace into three words for every four entropy bytes, so
/// for single-space-separated input the word count stands in that ratio.
#[verifier::external_body]
pub(crate) fn codec_entropy_from_phrase(phrase: &str) -> (r: Option<Vec<u8>>)
    ensures
        r is Some <==> phrase_valid(phrase@),
        r matches Some(e) ==> e@ == entropy_of_phrase(phrase@) && valid_entropy_len(e@.len()),
        r matches Some(e) ==> (is_normalized(phrase@) ==> word_count_sq(phrase@) * 4 == e@.len()
            * 3),
{
    bip39::Mnemonic::from_phrase(phrase, bip39::Language::English).ok().map(|m| m.entropy().to_vec())
}

/// Relies on bip39's `Seed::new` (with `Mnemonic::from_phrase` to rebuild
/// the mnemonic, which cannot fail on a valid phrase): the seed is PBKDF2
/// over the phrase with the passphrase as salt material, a pure function
/// of the two, 64 bytes long.
#[verifier::external_body]
pub(crate) fn codec_seed_bytes(phrase: &str, passphrase: &str) -> (r: Vec<u8>)
    requires
        phrase_valid(phrase@),
    ensures
        r@ == seed_of(phrase@, passphrase@),
        r@.len() == 64,
{
    let mnemonic = bip39::Mnemonic::from_phrase(phrase, bip39::Language::English)
        .expect("checksum-valid phrase");
    bip39::Seed::new(&mnemonic, passphrase).as_bytes().to_vec()
}

/// Relies on bip39's `Mnemonic::new`, which draws entropy of exactly the
/// requested class's byte length from the process-wide secure random
/// source and encodes it; every outcome is a checksum-valid phrase of
/// single-space-joined wordlist words with the class's word count, whose
/// stored entropy has the class's length, and on `Mnemonic::into_phrase`.
#[verifier::external_body]
pub(crate) fn codec_random_phrase(count: WordCount) -> (r: String)
    ensures
        phrase_valid(r@),
        is_normalized(r@),
        entropy_of_phrase(r@).len() == count.entropy_len(),
        word_count_sq(r@) == count.words(),
{
    let mtype = match count {
        WordCount::Words12 => bip39::MnemonicType::Words12,
        WordCount::Words15 => bip39::MnemonicType::Words15,
        WordCount::Words18 => bip39::MnemonicType::Words18,
        WordCount::Words21 => bip39::MnemonicType::Words21,
        WordCount::Words24 => bip39::MnemonicType::Words24,
    };
    bip39::Mnemonic::new(mtype, bip39::Language::English).into_phrase()
}

} // verus!
