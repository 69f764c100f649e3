//! Password hashing and comparison. The hashing scheme is Argon2id with the
//! salt and parameters embedded in the hash string, so a stored hash is all
//! that is needed to check a password later.

use vstd::prelude::*;
use argon2::{PasswordHasher, PasswordVerifier};

verus! {

/// The hash string that `Argon2::default().hash_password` gives for
/// `password` under the salt that `SaltString::from_b64` reads from `salt`;
/// `None` where `salt` is no salt or the hasher gives no hash.
pub uninterp spec fn argon2_phc(password: Seq<char>, salt: Seq<char>) -> Option<Seq<char>>;

/// Whether `argon2` accepts `password` for the stored hash string `hash`:
/// the string parses as a password hash, and hashing the password again with
/// the salt and parameters it carries gives the output it carries.
pub uninterp spec fn password_verifies(password: Seq<char>, hash: Seq<char>) -> bool;

/// Hashing failed; no hash string was produced.
#[derive(Clone, Copy, Debug, PartialEq, Eq, Structural)]
pub struct HashError;

/// Calls `SaltString::generate` with the operating system's random number
/// generator and hands the salt out as text. Every call may give another
/// salt, so nothing is claimed. The call does not return where the
/// operating system gives no random bytes.
#[verifier::external_body]
fn fresh_salt() -> String {
    let salt = argon2::password_hash::SaltString::generate(
        &mut argon2::password_hash::rand_core::OsRng,
    );
    salt.as_str().to_string()
}

/// Reads `salt` with `SaltString::from_b64`, calls
/// `Argon2::default().hash_password` and renders the result as a hash
/// string. The contract names the result, which password and salt decide
/// alone, and claims one thing of it: a hash that comes back is one that
/// `verify_password` accepts for the same password, since verification
/// repeats the computation with the salt and parameters found in the hash.
#[verifier::external_body]
fn argon2_hash(password: &str, salt: &str) -> (r: Option<String>)
    ensures
        match r {
            Some(h) => argon2_phc(password@, salt@) == Some(h@) && password_verifies(
                password@,
                h@,
            ),
            None => argon2_phc(password@, salt@) is None,
        },
{
    let salt = argon2::password_hash::SaltString::from_b64(salt).ok()?;
    let hash = argon2::Argon2::default().hash_password(password.as_bytes(), &salt).ok()?;
    Some(hash.to_string())
}

/// Parses `stored_hash` with `PasswordHash::new` and calls
/// `Argon2::default().verify_password` on it. A string that does not parse
/// verifies nothing. The contract names the answer.
#[verifier::external_body]
fn argon2_verify(password: &str, stored_hash: &str) -> (ok: bool)
    ensures
        ok == password_verifies(password@, stored_hash@),
{
    match argon2::PasswordHash::new(stored_hash) {
        Ok(parsed) => argon2::Argon2::default().verify_password(
            password.as_bytes(),
            &parsed,
        ).is_ok(),
        Err(_) => false,
    }
}

/// Hashes `password` under the given salt. The hash is the one that the
/// hasher gives for this password and this salt, and it verifies against
/// the password; there is an error exactly where the hasher gives none.
pub fn hash_with_salt(password: &str, salt: &str) -> (r: Result<String, HashError>)
    ensures
        match r {
            Ok(h) => argon2_phc(password@, salt@) == Some(h@) && password_verifies(password@, h@),
            Err(_) => argon2_phc(password@, salt@) is None,
        },
{
    match argon2_hash(password, salt) {
        Some(hash) => Ok(hash),
        None => Err(HashError),
    }
}

/// Hashes `password` under a freshly generated salt. For the salt that was
/// drawn, the hash is the one that the hasher gives for this password and
/// this salt, and it verifies against the password; there is an error
/// exactly where the hasher gives none.
pub fn hash_password(password: &str) -> (r: Result<String, HashError>)
    ensures
        exists|salt: Seq<char>|
            match r {
                Ok(h) => #[trigger] argon2_phc(password@, salt) == Some(h@) && password_verifies(
                    password@,
                    h@,
                ),
                Err(_) => argon2_phc(password@, salt) is None,
            },
{
    let salt = fresh_salt();
    let r = hash_with_salt(password, salt.as_str());
    proof {
        let drawn = salt@;
        assert(match r {
            Ok(h) => argon2_phc(password@, drawn) == Some(h@) && password_verifies(password@, h@),
            Err(_) => argon2_phc(password@, drawn) is None,
        });
    }
    r
}

/// Compares a plaintext password with a stored hash. The comparison always
/// goes through the hashing scheme, never through equality of the strings.
pub fn verify(plaintext: &str, stored_hash: &str) -> (ok: bool)
    ensures
        ok == password_verifies(plaintext@, stored_hash@),
{
    argon2_verify(plaintext, stored_hash)
}

} // verus!
