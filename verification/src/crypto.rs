//! String encryption helpers over AES-256 in base64, delegated to the
//! `magic_crypt` crate. With a fixed key, what the cipher returns is a
//! function of the plaintext alone, named here by [`encrypt_of`] and
//! [`decrypt_of`]; everything around the two cipher calls is verified against
//! those names.

use vstd::prelude::*;

use magic_crypt::MagicCryptTrait;

use crate::errors::DecryptError;

verus! {

/// What encrypting `value` under `key` returns: the ciphertext in base64.
pub uninterp spec fn encrypt_of(key: Seq<char>, value: Seq<char>) -> Seq<char>;

/// What decrypting the base64 string `value` under `key` returns: the
/// plaintext, or `None` where `value` is not a valid ciphertext under `key`.
pub uninterp spec fn decrypt_of(key: Seq<char>, value: Seq<char>) -> Option<Seq<char>>;

/// Relies on `magic_crypt::MagicCrypt256` (AES-256, key derived from the key
/// string, fixed zero nonce): encrypting a string to base64 is a function of
/// the key and the plaintext alone, and decrypting the result with the same
/// key yields the plaintext back.
#[verifier::external_body]
fn mc_encrypt_base64(value: &str, key: &str) -> (r: String)
    ensures
        r@ == encrypt_of(key@, value@),
        decrypt_of(key@, r@) == Some(value@),
{
    let mc = magic_crypt::MagicCrypt256::new(key, None::<&str>);
    mc.encrypt_str_to_base64(value)
}

/// Relies on `magic_crypt::MagicCrypt256`: decrypting a base64 string is a
/// function of the key and the ciphertext alone, and fails exactly where the
/// input is not a valid ciphertext under the key; the error's rendering is
/// handed back as text.
#[verifier::external_body]
fn mc_decrypt_base64(value: &str, key: &str) -> (r: Result<String, String>)
    ensures
        r is Ok <==> decrypt_of(key@, value@) is Some,
        r is Ok ==> r->Ok_0@ == decrypt_of(key@, value@)->0,
{
    let mc = magic_crypt::MagicCrypt256::new(key, None::<&str>);
    match mc.decrypt_base64_to_string(value) {
        Ok(plain) => Ok(plain),
        Err(e) => Err(format!("{}", e)),
    }
}

/// Returns the encrypted string in base64.
pub fn encrypt_by_key(value: String, key: &str) -> (r: String)
    ensures
        r@ == encrypt_of(key@, value@),
        decrypt_of(key@, r@) == Some(value@),
{
    mc_encrypt_base64(value.as_str(), key)
}

/// Returns the decrypted string from base64. Callable only where the input
/// is a valid ciphertext under the key; [`decrypt_by_key_with_default`] and
/// [`decrypt_by_key_with_error`] decide that at run time.
pub fn decrypt_by_key(value: String, key: &str) -> (r: String)
    requires
        decrypt_of(key@, value@) is Some,
    ensures
        r@ == decrypt_of(key@, value@)->0,
{
    match mc_decrypt_base64(value.as_str(), key) {
        Ok(plain) => plain,
        Err(_) => vstd::pervasive::unreached(),
    }
}

/// Returns the decrypted string from base64, or the default where the input
/// is not a valid ciphertext under the key.
pub fn decrypt_by_key_with_default(value: String, key: &str, default: &str) -> (r: String)
    ensures
        r@ == match decrypt_of(key@, value@) {
            Some(plain) => plain,
            None => default@,
        },
{
    if mc_decrypt_base64(value.as_str(), key).is_ok() {
        decrypt_by_key(value, key)
    } else {
        default.to_owned()
    }
}

/// Returns the decrypted result from base64: the plaintext, or an error
/// carrying the cause, exactly where the input is not a valid ciphertext
/// under the key.
pub fn decrypt_by_key_with_error(value: String, key: &str) -> (r: Result<String, DecryptError>)
    ensures
        r is Ok <==> decrypt_of(key@, value@) is Some,
        r is Ok ==> r->Ok_0@ == decrypt_of(key@, value@)->0,
{
    match mc_decrypt_base64(value.as_str(), key) {
        Ok(plain) => Ok(plain),
        Err(details) => Err(DecryptError { details }),
    }
}

} // verus!
