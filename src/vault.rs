//! Secrets at rest: connection passwords are kept encrypted with a fixed
//! application key, user passwords as salted bcrypt hashes.

use vstd::prelude::*;
use vstd::string::*;

use magic_crypt::MagicCryptTrait;

verus! {

#[verifier::external_type_specification]
#[verifier::external_body]
pub struct ExMagicCryptError(magic_crypt::MagicCryptError);

#[verifier::external_type_specification]
#[verifier::external_body]
pub struct ExBcryptError(bcrypt::BcryptError);

/// The base64 text of `plain` encrypted with AES-256 under `key`, as
/// magic_crypt produces it.
pub uninterp spec fn aes256_base64_encryption(key: Seq<char>, plain: Seq<char>) -> Seq<char>;

/// The text that the base64 ciphertext `encoded` decrypts to under `key`, if
/// it is valid base64, correctly padded and decrypts to UTF-8.
pub uninterp spec fn aes256_base64_decryption(key: Seq<char>, encoded: Seq<char>) -> Option<
    Seq<char>,
>;

/// Whether `password` matches the bcrypt `hash`, if the hash is well formed.
pub uninterp spec fn bcrypt_verdict(password: Seq<char>, hash: Seq<char>) -> Option<bool>;

/// Relies on magic_crypt's `MagicCrypt256` (built without an IV) and its
/// `encrypt_str_to_base64`: AES-256-CBC under the SHA-256 of the key with a
/// zero IV, so the result depends on key and text alone.
#[verifier::external_body]
fn aes256_encrypt(key: &str, plain: &str) -> (r: String)
    ensures
        r@ == aes256_base64_encryption(key@, plain@),
{
    magic_crypt::MagicCrypt256::new(key, None::<String>).encrypt_str_to_base64(plain)
}

/// Relies on magic_crypt's `MagicCrypt256` (built without an IV) and its
/// `decrypt_base64_to_string`, which fails on bad base64, bad padding or
/// non-UTF-8 plaintext and otherwise depends on key and text alone.
#[verifier::external_body]
fn aes256_decrypt(key: &str, encoded: &str) -> (r: Result<String, magic_crypt::MagicCryptError>)
    ensures
        match r {
            Ok(p) => aes256_base64_decryption(key@, encoded@) == Some(p@),
            Err(_) => aes256_base64_decryption(key@, encoded@) is None,
        },
{
    magic_crypt::MagicCrypt256::new(key, None::<String>).decrypt_base64_to_string(encoded)
}

/// Relies on bcrypt's `hash` at its `DEFAULT_COST`: a random salt, so nothing
/// is known of the hash but its format, which is 60 characters long.
#[verifier::external_body]
fn bcrypt_hash(password: &str) -> (r: Result<String, bcrypt::BcryptError>)
    ensures
        r matches Ok(h) ==> h@.len() == 60,
{
    bcrypt::hash(password, bcrypt::DEFAULT_COST)
}

/// Relies on bcrypt's `verify`, which reads cost and salt from the hash and
/// fails on a malformed hash.
#[verifier::external_body]
fn bcrypt_verify(password: &str, hash: &str) -> (r: Result<bool, bcrypt::BcryptError>)
    ensures
        match r {
            Ok(b) => bcrypt_verdict(password@, hash@) == Some(b),
            Err(_) => bcrypt_verdict(password@, hash@) is None,
        },
{
    bcrypt::verify(password, hash)
}

pub const ENCRYPTION_KEY: &'static str = "ZppB2dU5srj32H5erPodjbZohz6TKVFm";

pub const DECRYPT_FAILED: &'static str = "Failed to decrypt password";

/// Encrypts a connection password for storage.
pub fn encrypt_data(data: &str) -> (r: String)
    ensures
        r@ == aes256_base64_encryption(ENCRYPTION_KEY@, data@),
{
    aes256_encrypt(ENCRYPTION_KEY, data)
}

/// Decrypts a stored connection password; any failure is reported by one
/// fixed message that reveals nothing of the input.
pub fn decrypt_data(encrypted_data: &str) -> (r: Result<String, String>)
    ensures
        match aes256_base64_decryption(ENCRYPTION_KEY@, encrypted_data@) {
            Some(p) => r matches Ok(s) && s@ == p,
            None => r matches Err(e) && e@ == DECRYPT_FAILED@,
        },
{
    match aes256_decrypt(ENCRYPTION_KEY, encrypted_data) {
        Ok(p) => Ok(p),
        Err(_) => Err(String::from_str(DECRYPT_FAILED)),
    }
}

/// A bcrypt hash of `password`; should hashing fail, the password itself.
pub fn hash_password(password: &str) -> (r: String)
    ensures
        r@.len() == 60 || r@ == password@,
{
    match bcrypt_hash(password) {
        Ok(h) => h,
        Err(_) => String::from_str(password),
    }
}

/// Whether `password` matches `hash`; a malformed hash matches nothing.
pub fn verify_password(password: &str, hash: &str) -> (r: bool)
    ensures
        r == (bcrypt_verdict(password@, hash@) == Some(true)),
{
    match bcrypt_verify(password, hash) {
        Ok(b) => b,
        Err(_) => false,
    }
}

} // verus!
