//! Password credential module: hashing with a memory-hard key-derivation
//! function and per-credential random salt, and constant-time
//! verification. A credential is a self-describing encoded string that is
//! safe to persist; the plaintext never is.

use vstd::prelude::*;

use argon2::{PasswordHasher, PasswordVerifier};

use crate::error::ServiceError;

verus! {

/// Outcome of checking a plaintext password against a stored credential.
#[derive(Clone, Copy, Debug, PartialEq, Eq, Structural)]
pub enum PasswordVerdict {
    /// The credential is well formed and was derived from this password.
    Match,
    /// The credential is well formed but was derived from another
    /// password.
    Mismatch,
    /// The credential cannot be checked: the stored string is malformed,
    /// names unsupported parameters, or the password exceeds the
    /// algorithm's length bound.
    Unreadable,
}

/// What argon2's password verification decides for a plaintext and a
/// stored credential string. It is a function of the two strings alone:
/// the credential carries the algorithm parameters and the salt.
pub uninterp spec fn password_verify(password: Seq<char>, credential: Seq<char>) -> PasswordVerdict;

/// Relies on argon2's `PasswordVerifier::verify_password` for `str`
/// hashes: it decodes the PHC string, recomputes the derivation with the
/// parameters and salt found there, and compares in constant time.
/// `PasswordInvalid` is its mismatch error; every other error means the
/// credential could not be checked.
#[verifier::external_body]
fn check_password(password: &str, credential: &str) -> (r: PasswordVerdict)
    ensures
        r == password_verify(password@, credential@),
{
    match argon2::Argon2::default().verify_password(password.as_bytes(), credential) {
        Ok(()) => PasswordVerdict::Match,
        Err(argon2::password_hash::Error::PasswordInvalid) => PasswordVerdict::Mismatch,
        Err(_) => PasswordVerdict::Unreadable,
    }
}

/// Relies on argon2's `PasswordHasher::hash_password`: it draws a fresh
/// random salt from the system generator, derives the hash with the
/// default cost parameters, and returns a self-describing PHC string.
/// Such a string verifies as a match against the password it was derived
/// from; nothing more is known of it, since the salt is random.
#[verifier::external_body]
fn derive_credential(password: &str) -> (r: Result<String, ()>)
    ensures
        r matches Ok(c) ==> password_verify(password@, c@) == PasswordVerdict::Match,
{
    match argon2::Argon2::default().hash_password(password.as_bytes()) {
        Ok(hash) => Ok(hash.to_string()),
        Err(_) => Err(()),
    }
}

/// The decision `verify_password` is specified to return: `Some(true)`
/// for a match, `Some(false)` for a normal mismatch, `None` where the
/// stored credential cannot be checked at all.
pub open spec fn spec_verify(password: Seq<char>, credential: Seq<char>) -> Option<bool> {
    match password_verify(password, credential) {
        PasswordVerdict::Match => Some(true),
        PasswordVerdict::Mismatch => Some(false),
        PasswordVerdict::Unreadable => None,
    }
}

/// Derive a storable credential from a plaintext password. The returned
/// string verifies as a match against the same plaintext; failure is an
/// internal error (it does not depend on ordinary caller input).
pub fn hash_password(password: &str) -> (r: Result<String, ServiceError>)
    ensures
        r matches Ok(c) ==> spec_verify(password@, c@) == Some(true),
        r matches Err(e) ==> e is Internal,
{
    match derive_credential(password) {
        Ok(credential) => Ok(credential),
        Err(()) => Err(ServiceError::internal("Password hashing failed")),
    }
}

/// Check a plaintext password against a stored credential. A normal
/// mismatch is `Ok(false)`, never an error; only a structurally
/// uncheckable credential is an internal error.
pub fn verify_password(password: &str, credential: &str) -> (r: Result<bool, ServiceError>)
    ensures
        spec_verify(password@, credential@) matches Some(b) ==> r == Result::<bool, ServiceError>::Ok(b),
        spec_verify(password@, credential@) is None ==> (r matches Err(e) && e is Internal),
{
    match check_password(password, credential) {
        PasswordVerdict::Match => Ok(true),
        PasswordVerdict::Mismatch => Ok(false),
        PasswordVerdict::Unreadable => Err(ServiceError::internal("Password hash parsing failed")),
    }
}

/// Law: a credential derived from a password verifies against it. For
/// every credential that `hash_password` returned for a plaintext (its
/// contract gives `Match`), `verify_password` on the same plaintext
/// decides `true`.
pub proof fn lemma_hash_then_verify(password: Seq<char>, credential: Seq<char>)
    requires
        password_verify(password, credential) == PasswordVerdict::Match,
    ensures
        spec_verify(password, credential) == Some(true),
{
}

} // verus!
