//! BIP-0039 English mnemonics.
//!
//! A [`Mnemonic`] is a human-transcribable encoding of 128 to 256 bits of
//! entropy plus a checksum; [`Mnemonic::to_seed`] stretches it
//! (PBKDF2-HMAC-SHA512, 2048 rounds) into a 64-byte seed. Fresh mnemonics are
//! 12 words (128 bits). A mnemonic is held as its entropy and its canonical phrase.

use bip39::{Language, Mnemonic as Bip39Mnemonic};
use vstd::prelude::*;

use crate::bytes::to_vec;
use crate::error::{CoreError, CoreResult};
use crate::random::system_random;

verus! {

/// 128 bits of entropy: a 12-word mnemonic.
pub const ENTROPY_LEN: usize = 16;

/// The canonical English BIP-0039 phrase of `entropy` (words separated by single spaces).
pub uninterp spec fn bip39_phrase_spec(entropy: Seq<u8>) -> Seq<char>;

/// The entropy an English BIP-0039 phrase encodes, if its words and checksum are valid.
pub uninterp spec fn bip39_parse_spec(phrase: Seq<char>) -> Option<Seq<u8>>;

/// The 64-byte BIP-0039 seed of `entropy`'s mnemonic with `passphrase`.
pub uninterp spec fn bip39_seed_spec(entropy: Seq<u8>, passphrase: Seq<char>) -> Seq<u8>;

/// BIP-0039 entropy lengths: 16 to 32 bytes in steps of 4.
pub open spec fn entropy_len_ok(n: nat) -> bool {
    16 <= n <= 32 && n % 4 == 0
}

/// `bip39::Mnemonic::from_entropy_in(Language::English, ..)` followed by its
/// `to_string`: the named phrase of the entropy; the crate refuses exactly the
/// entropy lengths outside 16..=32 bytes or not a multiple of 4.
#[verifier::external_body]
fn bip39_phrase(entropy: &[u8]) -> (r: Option<String>)
    requires
        entropy@.len() <= 64,
    ensures
        r is Some <==> entropy_len_ok(entropy@.len()),
        r matches Some(s) ==> s@ == bip39_phrase_spec(entropy@),
{
    match Bip39Mnemonic::from_entropy_in(Language::English, entropy) {
        Ok(m) => Some(m.to_string()),
        Err(_) => None,
    }
}

/// `bip39::Mnemonic::parse_in(Language::English, ..)` followed by
/// `to_entropy`: the named parse of the phrase. What parses has a valid
/// entropy length, and the canonical phrase of any valid entropy parses back to it.
#[verifier::external_body]
fn bip39_parse(phrase: &str) -> (r: Option<Vec<u8>>)
    ensures
        match r {
            Some(v) => bip39_parse_spec(phrase@) == Some(v@) && entropy_len_ok(v@.len()),
            None => bip39_parse_spec(phrase@) is None,
        },
        forall|e: Seq<u8>|
            entropy_len_ok(e.len()) && phrase@ == #[trigger] bip39_phrase_spec(e) ==> (r is Some
                && r.unwrap()@ == e),
{
    match Bip39Mnemonic::parse_in(Language::English, phrase) {
        Ok(m) => Some(m.to_entropy()),
        Err(_) => None,
    }
}

/// `bip39::Mnemonic::to_seed` for the English mnemonic of `entropy`: the named seed.
#[verifier::external_body]
fn bip39_seed(entropy: &[u8], passphrase: &str) -> (r: [u8; 64])
    requires
        entropy_len_ok(entropy@.len()),
    ensures
        r@ == bip39_seed_spec(entropy@, passphrase@),
{
    match Bip39Mnemonic::from_entropy_in(Language::English, entropy) {
        Ok(m) => m.to_seed(passphrase),
        Err(_) => [0u8; 64],
    }
}

/// A validated BIP-0039 English mnemonic.
pub struct Mnemonic {
    entropy: Vec<u8>,
    phrase: String,
}

impl View for Mnemonic {
    type V = Seq<u8>;

    /// The entropy the mnemonic encodes.
    closed spec fn view(&self) -> Seq<u8> {
        self.entropy@
    }
}

impl Mnemonic {
    #[verifier::type_invariant]
    closed spec fn inv(self) -> bool {
        &&& entropy_len_ok(self.entropy@.len())
        &&& self.phrase@ == bip39_phrase_spec(self.entropy@)
    }

    /// Generate a fresh 12-word mnemonic from 128 bits of operating-system entropy.
    ///
    /// Errors with [`CoreError::Mnemonic`] if the system generator fails.
    pub fn generate() -> (r: CoreResult<Mnemonic>)
        ensures
            r matches Ok(m) ==> m@.len() == ENTROPY_LEN,
            r matches Err(e) ==> e == CoreError::Mnemonic("RNG failure"),
    {
        let e = match system_random(ENTROPY_LEN) {
            Some(e) => e,
            None => { return Err(CoreError::Mnemonic("RNG failure")) },
        };
        let entropy: [u8; 16] = [
            e[0], e[1], e[2], e[3], e[4], e[5], e[6], e[7],
            e[8], e[9], e[10], e[11], e[12], e[13], e[14], e[15],
        ];
        Self::generate_from_entropy(entropy)
    }

    /// Build a 12-word mnemonic from exactly 16 bytes of entropy.
    pub fn generate_from_entropy(entropy: [u8; 16]) -> (r: CoreResult<Mnemonic>)
        ensures
            r matches Ok(m) && m@ == entropy@,
    {
        match bip39_phrase(&entropy) {
            Some(phrase) => Ok(Mnemonic { entropy: to_vec(&entropy), phrase }),
            None => Err(CoreError::Mnemonic("invalid entropy")),
        }
    }

    /// Parse and validate an English mnemonic phrase (any valid word count).
    ///
    /// The input is Unicode-normalized and its checksum verified. Errors with
    /// [`CoreError::Mnemonic`] if a word is unknown or the checksum is wrong.
    pub fn parse(phrase: &str) -> (r: CoreResult<Mnemonic>)
        ensures
            match bip39_parse_spec(phrase@) {
                Some(e) => r matches Ok(m) && m@ == e,
                None => r == Err::<Mnemonic, CoreError>(CoreError::Mnemonic("invalid mnemonic")),
            },
            forall|e: Seq<u8>|
                entropy_len_ok(e.len()) && phrase@ == #[trigger] bip39_phrase_spec(e) ==> (r matches Ok(
                    m,
                ) && m@ == e),
    {
        match bip39_parse(phrase) {
            Some(entropy) => {
                match bip39_phrase(entropy.as_slice()) {
                    Some(canonical) => Ok(Mnemonic { entropy, phrase: canonical }),
                    None => Err(CoreError::Mnemonic("invalid mnemonic")),
                }
            },
            None => Err(CoreError::Mnemonic("invalid mnemonic")),
        }
    }

    /// Derive the 64-byte BIP-0039 seed for an optional `passphrase`.
    pub fn to_seed(&self, passphrase: &str) -> (r: [u8; 64])
        ensures
            r@ == bip39_seed_spec(self@, passphrase@),
    {
        proof {
            use_type_invariant(self);
        }
        bip39_seed(self.entropy.as_slice(), passphrase)
    }

    /// The raw entropy this mnemonic encodes (16 bytes for a 12-word phrase).
    pub fn to_entropy(&self) -> (r: Vec<u8>)
        ensures
            r@ == self@,
            entropy_len_ok(r@.len()),
    {
        proof {
            use_type_invariant(self);
        }
        to_vec(self.entropy.as_slice())
    }

    /// The mnemonic as a space-separated phrase.
    pub fn phrase(&self) -> (r: String)
        ensures
            r@ == bip39_phrase_spec(self@),
    {
        proof {
            use_type_invariant(self);
        }
        self.phrase.clone()
    }

    /// Number of words in the mnemonic: three for every four bytes of entropy.
    pub fn word_count(&self) -> (r: usize)
        ensures
            r == self@.len() * 3 / 4,
    {
        proof {
            use_type_invariant(self);
        }
        self.entropy.len() / 4 * 3
    }
}

} // verus!
