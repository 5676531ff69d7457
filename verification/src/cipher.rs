//! The trusted boundary around the `magic-crypt` crate.
//!
//! Every claim the library makes about encryption and decryption rests on the
//! two contracts in this module; their bodies call into `magic-crypt` and are
//! believed, not verified.

use magic_crypt::MagicCryptTrait;
use vstd::prelude::*;

verus! {

/// The ciphertext that encryption produces: a function of the key-derivation
/// input and the plaintext alone.
pub uninterp spec fn cipher_of(key: Seq<char>, plain: Seq<char>) -> Seq<char>;

/// What decryption makes of a string: `Some` of the recovered plaintext when
/// decoding, deciphering and the UTF-8 check all succeed, `None` otherwise —
/// again a function of the key-derivation input and the input string alone.
pub uninterp spec fn recovered_of(key: Seq<char>, encoded: Seq<char>) -> Option<Seq<char>>;

/// Relies on `magic_crypt::MagicCrypt256::new` and
/// `magic_crypt::MagicCryptTrait::encrypt_str_to_base64`: the plaintext's
/// UTF-8 bytes are encrypted with AES-256-CBC under the SHA-256 hash of the
/// master string and a fixed IV, PKCS#7-padded, and base64-encoded, so the
/// ciphertext depends on `master` and `plaintext` alone; and
/// `magic_crypt::MagicCryptTrait::decrypt_base64_to_string` inverts each of
/// those steps, so decrypting the result under the same `master` gives back
/// `plaintext` exactly.
#[verifier::external_body]
pub(crate) fn encrypt_with(master: &str, plaintext: &str) -> (r: String)
    ensures
        r@ == cipher_of(master@, plaintext@),
        recovered_of(master@, r@) == Some(plaintext@),
{
    let mc = magic_crypt::MagicCrypt256::new(master, None::<&[u8]>);
    mc.encrypt_str_to_base64(plaintext)
}

/// Relies on `magic_crypt::MagicCrypt256::new` and
/// `magic_crypt::MagicCryptTrait::decrypt_base64_to_string`: base64-decode,
/// decrypt with AES-256-CBC under the SHA-256 hash of the master string and a
/// fixed IV, strip the PKCS#7 padding and check UTF-8 — each step depends on
/// `master` and `encoded` alone, and a failure of any of them comes back as
/// `Err`, never a panic.
#[verifier::external_body]
pub(crate) fn decrypt_with(master: &str, encoded: &str) -> (r: Option<String>)
    ensures
        (match r {
            Some(plain) => recovered_of(master@, encoded@) == Some(plain@),
            None => recovered_of(master@, encoded@) is None,
        }),
{
    let mc = magic_crypt::MagicCrypt256::new(master, None::<&[u8]>);
    match mc.decrypt_base64_to_string(encoded) {
        Ok(plain) => Some(plain),
        Err(_) => None,
    }
}

} // verus!
