//! Password hashing: a password is stored as an Argon2 hash in PHC string
//! form, made with a fresh random salt, and checked against such a hash later.
//!
//! The hashing itself is `argon2`'s, with its default parameters. No rule on
//! what makes a good password is applied here.

use vstd::prelude::*;

verus! {

/// `argon2::password_hash::Error`: why the crate refused a salt or a password.
#[verifier::external_type_specification]
#[verifier::external_body]
pub struct ExPasswordHashError(argon2::password_hash::Error);

/// Why a password could not be hashed or checked.
#[derive(Debug, Clone, Copy, PartialEq, Eq)]
pub enum PasswordError {
    /// The hasher refused the password or the salt.
    Hashing,
    /// The stored hash is not a PHC string.
    MalformedHash,
}

/// The PHC string that `Argon2::default().hash_password` makes of the
/// password's bytes and of the salt that `SaltString::from_b64` reads from
/// `salt`; `None` where either returns an error.
pub uninterp spec fn argon2_phc(password: Seq<char>, salt: Seq<char>) -> Option<Seq<char>>;

/// Whether `Argon2::default().verify_password` accepts the password's bytes for
/// the hash that `PasswordHash::new` reads from `phc`; `None` where `phc`
/// cannot be read.
pub uninterp spec fn argon2_verdict(password: Seq<char>, phc: Seq<char>) -> Option<bool>;

/// A character of unpadded standard Base64: a letter, a digit, `+` or `/`.
pub open spec fn is_b64_char(c: char) -> bool {
    let n = c as u32;
    ||| 0x41 <= n <= 0x5a
    ||| 0x61 <= n <= 0x7a
    ||| 0x30 <= n <= 0x39
    ||| n == 0x2b
    ||| n == 0x2f
}

/// The shape of a generated salt: sixteen bytes in Base64, so 22 characters.
pub open spec fn is_fresh_salt(salt: Seq<char>) -> bool {
    &&& salt.len() == 22
    &&& forall|i: int| 0 <= i < salt.len() ==> is_b64_char(#[trigger] salt[i])
}

/// The shape of a digest in a hash: 32 bytes in Base64, so 43 characters.
pub open spec fn is_digest(digest: Seq<char>) -> bool {
    &&& digest.len() == 43
    &&& forall|i: int| 0 <= i < digest.len() ==> is_b64_char(#[trigger] digest[i])
}

/// The layout of a hash: the algorithm, its version, the cost parameters, the
/// salt as it was given and a digest, each after a `$`. Everything needed to
/// check a password against the hash can be read from it.
pub open spec fn is_hash_with(phc: Seq<char>, salt: Seq<char>) -> bool {
    exists|digest: Seq<char>|
        #[trigger] is_digest(digest) && phc == "$argon2id$v=19$m=19456,t=2,p=1$"@ + salt + "$"@
            + digest
}

/// What hashing `password` with `salt` gives.
pub open spec fn hash_outcome(password: Seq<char>, salt: Seq<char>) -> Result<
    Seq<char>,
    PasswordError,
> {
    match argon2_phc(password, salt) {
        Some(phc) => Ok(phc),
        None => Err(PasswordError::Hashing),
    }
}

/// What checking `password` against the stored hash `phc` gives.
pub open spec fn verify_outcome(password: Seq<char>, phc: Seq<char>) -> Result<
    bool,
    PasswordError,
> {
    match argon2_verdict(password, phc) {
        Some(accepted) => Ok(accepted),
        None => Err(PasswordError::MalformedHash),
    }
}

/// The outcome of hashing, with the hash as its characters.
pub open spec fn hash_result_view(r: Result<String, PasswordError>) -> Result<
    Seq<char>,
    PasswordError,
> {
    match r {
        Ok(phc) => Ok(phc@),
        Err(e) => Err(e),
    }
}

/// `SaltString::generate` on `rand::thread_rng()`: sixteen random bytes in
/// unpadded Base64. Which bytes is left open; the length and the alphabet are
/// what the crate documents.
#[verifier::external_body]
fn fresh_salt() -> (salt: String)
    ensures
        is_fresh_salt(salt@),
{
    argon2::password_hash::SaltString::generate(&mut rand::thread_rng()).as_str().to_owned()
}

/// `SaltString::from_b64`, then `Argon2::default().hash_password` on the
/// password's bytes, then the hash written as a PHC string.
///
/// The result is a function of the two arguments, which `argon2_phc` names.
/// Its layout is the one that the crate writes for its defaults: Argon2id,
/// version 19, 19456 KiB of memory, two passes, one lane, then the salt and a
/// digest of 32 bytes. It is believed of the crate as well that the string
/// that comes out can be read back and is accepted for the same password:
/// `verify_password` computes the hash again from the parameters and the salt
/// in the string.
#[verifier::external_body]
fn argon2_hash(password: &str, salt: &str) -> (r: Result<String, argon2::password_hash::Error>)
    ensures
        r matches Ok(phc) ==> argon2_phc(password@, salt@) == Some(phc@),
        r matches Ok(phc) ==> is_hash_with(phc@, salt@),
        r matches Ok(phc) ==> argon2_verdict(password@, phc@) == Some(true),
        r is Err ==> argon2_phc(password@, salt@) is None,
{
    let salt = argon2::password_hash::SaltString::from_b64(salt)?;
    let hasher = argon2::Argon2::default();
    let hash = argon2::PasswordHasher::hash_password(&hasher, password.as_bytes(), &salt)?;
    Ok(hash.to_string())
}

/// `PasswordHash::new` on the stored string, then
/// `Argon2::default().verify_password` on the password's bytes: `None` where
/// the string cannot be read, else whether the password was accepted.
#[verifier::external_body]
fn argon2_check(password: &str, phc: &str) -> (r: Option<bool>)
    ensures
        r == argon2_verdict(password@, phc@),
{
    match argon2::PasswordHash::new(phc) {
        Ok(hash) => {
            let hasher = argon2::Argon2::default();
            let checked =
                argon2::PasswordVerifier::verify_password(&hasher, password.as_bytes(), &hash);
            Some(checked.is_ok())
        },
        Err(_) => None,
    }
}

/// Hashes a password with the given salt, a Base64 string.
///
/// The hash is the one the hasher makes of the two; `Hashing` exactly when the
/// hasher refuses them. A hash that comes out names its algorithm and
/// parameters and holds the salt, and it is accepted for the same password by
/// `verify_password`.
pub fn hash_password_with_salt(plaintext: &str, salt: &str) -> (r: Result<String, PasswordError>)
    ensures
        hash_result_view(r) == hash_outcome(plaintext@, salt@),
        r matches Ok(phc) ==> is_hash_with(phc@, salt@),
        r matches Ok(phc) ==> verify_outcome(plaintext@, phc@) == Ok::<bool, PasswordError>(true),
{
    match argon2_hash(plaintext, salt) {
        Ok(phc) => Ok(phc),
        Err(_) => Err(PasswordError::Hashing),
    }
}

/// Hashes a password with a fresh random salt.
///
/// The result is what `hash_password_with_salt` gives for some salt of
/// sixteen random bytes. A hash that comes out is accepted for the same
/// password by `verify_password`.
pub fn hash_password(plaintext: &str) -> (r: Result<String, PasswordError>)
    ensures
        exists|salt: Seq<char>|
            {
                &&& is_fresh_salt(salt)
                &&& hash_result_view(r) == #[trigger] hash_outcome(plaintext@, salt)
                &&& r matches Ok(phc) ==> is_hash_with(phc@, salt)
            },
        r matches Ok(phc) ==> verify_outcome(plaintext@, phc@) == Ok::<bool, PasswordError>(true),
{
    let salt = fresh_salt();
    hash_password_with_salt(plaintext, salt.as_str())
}

/// Checks a password against a stored hash.
///
/// `Ok(true)` where the hasher accepts the password for the hash, `Ok(false)`
/// where it does not, `MalformedHash` exactly when the stored string is not a
/// PHC string.
pub fn verify_password(plaintext: &str, stored: &str) -> (r: Result<bool, PasswordError>)
    ensures
        r == verify_outcome(plaintext@, stored@),
{
    match argon2_check(plaintext, stored) {
        Some(accepted) => Ok(accepted),
        None => Err(PasswordError::MalformedHash),
    }
}

} // verus!
