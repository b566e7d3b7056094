//! The recovery phrase of a new account.
use vstd::prelude::*;

verus! {

/// How many spaces `s` holds.
pub open spec fn space_count(s: Seq<char>) -> nat
    decreases s.len(),
{
    if s.len() == 0 {
        0
    } else {
        space_count(s.drop_last()) + if s.last() == ' ' {
            1nat
        } else {
            0nat
        }
    }
}

/// `s` is `words` words of lower-case letters `a..z`, one space between two
/// words, no space before the first or after the last.
pub open spec fn is_phrase(s: Seq<char>, words: nat) -> bool {
    &&& s.len() > 0
    &&& s[0] != ' '
    &&& s.last() != ' '
    &&& forall|i: int| 0 <= i < s.len() ==> (#[trigger] s[i] == ' ' || ('a' <= s[i] && s[i] <= 'z'))
    &&& forall|i: int| 0 < i < s.len() && #[trigger] s[i] == ' ' ==> s[i - 1] != ' '
    &&& space_count(s) + 1 == words
}

/// Whether `bip39::Mnemonic::validate(phrase, Language::English)` accepts
/// `phrase`: words of the English list, one space apart, in a count that BIP39
/// allows, whose last bits are the checksum of the rest.
pub uninterp spec fn is_english_mnemonic(phrase: Seq<char>) -> bool;

/// `bip39::Mnemonic::validate(phrase, Language::English)`, told apart by
/// whether it returns `Ok`.
#[verifier::external_body]
fn validate_english(phrase: &str) -> (r: bool)
    ensures
        r == is_english_mnemonic(phrase@),
{
    bip39::Mnemonic::validate(phrase, bip39::Language::English).is_ok()
}

/// `bip39::Mnemonic::new(MnemonicType::Words24, Language::English).phrase()`:
/// 256 random bits and an 8-bit checksum, read 11 bits to a word of the
/// English word list (2048 words of lower-case letters) and joined with single
/// spaces, which makes 24 words that `Mnemonic::validate` accepts. Which words
/// is left to chance.
#[verifier::external_body]
fn random_english_phrase_24() -> (r: String)
    ensures
        is_phrase(r@, 24),
        is_english_mnemonic(r@),
{
    bip39::Mnemonic::new(bip39::MnemonicType::Words24, bip39::Language::English).phrase().to_owned()
}

/// A fresh recovery phrase for a new account: 24 random words that form an
/// English BIP39 mnemonic.
pub fn new_account_phrase() -> (r: String)
    ensures
        is_phrase(r@, 24),
        is_english_mnemonic(r@),
{
    random_english_phrase_24()
}

/// Whether `phrase` is an English BIP39 mnemonic, from which an account can
/// be derived.
pub fn is_valid_phrase(phrase: &str) -> (r: bool)
    ensures
        r == is_english_mnemonic(phrase@),
{
    validate_english(phrase)
}

} // verus!
