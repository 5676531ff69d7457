//! Symmetric protection for locally stored credential strings.
//!
//! A plaintext secret is encrypted under a key derived from a master secret
//! and returned as a printable base64 string fit for a text field; the
//! companion decryption turns such a string back into the original secret,
//! and answers the empty string to any input it cannot decrypt, instead of
//! raising an error.

use vstd::prelude::*;
use vstd::string::StringExecFns;

pub mod cipher;

use crate::cipher::{cipher_of, decrypt_with, encrypt_with, recovered_of};

verus! {

/// The fixed, process-wide key-derivation input: every call of [`encrypt_key`]
/// and [`decrypt_key`] derives its key material from this string, so that a
/// ciphertext stored by one call is recovered by any later one.
pub closed spec fn master_secret() -> Seq<char> {
    "slideflow-secret-pepper-2024"@
}

fn master_key() -> (r: &'static str)
    ensures
        r@ == master_secret(),
{
    "slideflow-secret-pepper-2024"
}

/// What the fail-silent decryption returns: the recovered plaintext when
/// decryption under `key` succeeds on `encoded`, the empty string on any
/// failure.
pub open spec fn recovered_or_empty(key: Seq<char>, encoded: Seq<char>) -> Seq<char> {
    match recovered_of(key, encoded) {
        Some(plain) => plain,
        None => Seq::<char>::empty(),
    }
}

/// Owns the key-derivation input and performs the two symmetric transforms.
///
/// The master secret is injected at construction, so a later version can
/// source it from a platform key store without changing this interface;
/// [`SecretCodec::with_master_secret`] gives the codec the boundary
/// operations use, keyed by the compiled-in constant.
pub struct SecretCodec {
    master: String,
}

impl SecretCodec {
    /// The key-derivation input this codec encrypts and decrypts under.
    pub closed spec fn key(&self) -> Seq<char> {
        self.master@
    }

    /// A codec over a caller-chosen master secret.
    pub fn new(master: String) -> (codec: SecretCodec)
        ensures
            codec.key() == master@,
    {
        SecretCodec { master }
    }

    /// The codec keyed by the compiled-in master secret.
    pub fn with_master_secret() -> (codec: SecretCodec)
        ensures
            codec.key() == master_secret(),
    {
        SecretCodec { master: String::from_str(master_key()) }
    }

    /// Encrypts any plaintext — the empty string included — under this
    /// codec's key and returns the text-safe ciphertext; decrypting that
    /// ciphertext under the same key recovers the plaintext exactly.
    pub fn encrypt(&self, plaintext: &str) -> (r: String)
        ensures
            r@ == cipher_of(self.key(), plaintext@),
            recovered_of(self.key(), r@) == Some(plaintext@),
    {
        encrypt_with(self.master.as_str(), plaintext)
    }

    /// Decrypts a string produced by [`SecretCodec::encrypt`] — or any other
    /// caller-supplied text — under this codec's key. On success the result
    /// is exactly the recovered plaintext; on any failure it is the empty
    /// string, never an error.
    pub fn decrypt(&self, encoded: &str) -> (r: String)
        ensures
            r@ == recovered_or_empty(self.key(), encoded@),
    {
        match decrypt_with(self.master.as_str(), encoded) {
            Some(plain) => plain,
            None => String::new(),
        }
    }
}

/// Encrypts a secret under the compiled-in master secret and returns the
/// text-safe ciphertext; [`decrypt_key`] recovers the secret from it exactly.
pub fn encrypt_key(key: &str) -> (r: String)
    ensures
        r@ == cipher_of(master_secret(), key@),
        recovered_of(master_secret(), r@) == Some(key@),
{
    let codec = SecretCodec::with_master_secret();
    codec.encrypt(key)
}

/// Decrypts a stored ciphertext under the compiled-in master secret: exactly
/// the original secret when decryption succeeds, the empty string on any
/// failure.
pub fn decrypt_key(encrypted_key: &str) -> (r: String)
    ensures
        r@ == recovered_or_empty(master_secret(), encrypted_key@),
{
    let codec = SecretCodec::with_master_secret();
    codec.decrypt(encrypted_key)
}

/// Round trip: whenever decryption of `encoded` under `key` succeeds with
/// `plain` — as it does, by [`SecretCodec::encrypt`]'s contract, when
/// `encoded` came from encrypting `plain` under `key` — the fail-silent
/// decryption returns exactly `plain`, not a truncation or a default.
pub proof fn lemma_recovery_is_exact(key: Seq<char>, encoded: Seq<char>, plain: Seq<char>)
    requires
        recovered_of(key, encoded) == Some(plain),
    ensures
        recovered_or_empty(key, encoded) == plain,
{
}

/// Stability across calls: the ciphertext is a function of the key and the
/// plaintext alone, so two encryptions of one plaintext under one key
/// coincide, and decrypting either recovers the same string.
pub proof fn lemma_encrypt_stable(key: Seq<char>, plain: Seq<char>, c1: Seq<char>, c2: Seq<char>)
    requires
        c1 == cipher_of(key, plain),
        c2 == cipher_of(key, plain),
    ensures
        c1 == c2,
        recovered_or_empty(key, c1) == recovered_or_empty(key, c2),
{
}

} // verus!
