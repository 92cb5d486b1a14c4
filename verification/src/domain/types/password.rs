use vstd::prelude::*;

use crate::domain::errors::{Error, ErrorModel};
use crate::handlers::password_hasher::{
    argon2_encoded, argon2_matches, hash_outcome, hash_password, hash_password_with_salt,
    hashed_model, hashed_with, holds_salt, is_tagged,
};

verus! {

/// The least number of characters of a password.
pub const MIN_PASSWORD_CHARS: usize = 8;

/// The encoded hash of a password, kept under `secrecy::Secret` so that it
/// is wiped when dropped and never printed. Verus does not look inside:
/// `Secret` is bounded by a trait of its crate, which stops its declaration.
#[verifier::external_body]
#[derive(Debug)]
pub struct PasswordHash(secrecy::SecretString);

/// The text that a password hash keeps.
pub uninterp spec fn secret_text(hash: PasswordHash) -> Seq<char>;

/// Puts a text under `secrecy::Secret::new`. Trusted: the secret keeps that
/// text.
#[verifier::external_body]
fn seal(text: String) -> (r: PasswordHash)
    ensures
        secret_text(r) == text@,
{
    PasswordHash(secrecy::Secret::new(text))
}

/// The text under a secret, from `secrecy::ExposeSecret::expose_secret`.
/// Trusted: it is the text that the secret keeps.
#[verifier::external_body]
fn unseal(hash: &PasswordHash) -> (r: &str)
    ensures
        r@ == secret_text(*hash),
{
    secrecy::ExposeSecret::expose_secret(&hash.0).as_str()
}

/// A second secret with the same text, from `Clone` for `secrecy::Secret`.
/// Trusted: the copy keeps the text of the first.
#[verifier::external_body]
fn copy_secret(hash: &PasswordHash) -> (r: PasswordHash)
    ensures
        secret_text(r) == secret_text(*hash),
{
    PasswordHash(hash.0.clone())
}

impl Clone for PasswordHash {
    fn clone(&self) -> (r: PasswordHash)
        ensures
            r@ == self@,
    {
        copy_secret(self)
    }
}

impl View for PasswordHash {
    type V = Seq<char>;

    open spec fn view(&self) -> Seq<char> {
        secret_text(*self)
    }
}

/// Whether `password` is too short to be accepted: under eight characters.
pub open spec fn too_short(password: Seq<char>) -> bool {
    password.len() < MIN_PASSWORD_CHARS
}

/// The error for a password that is too short.
pub open spec fn short_password() -> ErrorModel {
    ErrorModel::InvalidPassword("Password must be at least 8 characters long"@)
}

/// The error for a password that could not be hashed.
pub open spec fn unhashed_password() -> ErrorModel {
    ErrorModel::InvalidPassword("Failed to hash password"@)
}

/// What becomes of `password` when it is hashed with `salt`: the encoded
/// hash, or the error.
pub open spec fn password_outcome(password: Seq<char>, salt: Seq<char>) -> Result<
    Seq<char>,
    ErrorModel,
> {
    if too_short(password) {
        Err(short_password())
    } else {
        match argon2_encoded(password, salt) {
            Some(encoded) => Ok(encoded),
            None => Err(unhashed_password()),
        }
    }
}

/// The mathematical value of what the constructors return.
pub open spec fn sealed_model(r: Result<PasswordHash, Error>) -> Result<Seq<char>, ErrorModel> {
    match r {
        Ok(hash) => Ok(hash@),
        Err(e) => Err(e@),
    }
}

impl PasswordHash {
    /// Validates `password` and hashes it with a fresh random salt: the
    /// result is what some salt gives. A password of under eight characters
    /// is refused, whatever the salt. A hash that comes back matches the
    /// password.
    pub fn new(password: &str) -> (r: Result<PasswordHash, Error>)
        ensures
            exists|salt: Seq<char>| #[trigger] password_outcome(password@, salt) == sealed_model(r),
            too_short(password@) ==> sealed_model(r) == Err::<Seq<char>, ErrorModel>(
                short_password(),
            ),
            r matches Ok(hash) ==> (is_tagged(hash@) && argon2_matches(password@, hash@)),
    {
        if password.unicode_len() < MIN_PASSWORD_CHARS {
            let r = Err(
                Error::InvalidPassword("Password must be at least 8 characters long".to_owned()),
            );
            assert(password_outcome(password@, Seq::<char>::empty()) == sealed_model(r));
            return r;
        }
        let hashed = hash_password(password);
        let ghost model = hashed_model(hashed);
        let r = match hashed {
            Ok(encoded) => Ok(seal(encoded)),
            Err(_) => Err(Error::InvalidPassword("Failed to hash password".to_owned())),
        };
        proof {
            let salt = choose|salt: Seq<char>| #[trigger] hashed_with(password@, salt, hashed);
            assert(hash_outcome(password@, salt) == model);
            assert(password_outcome(password@, salt) == sealed_model(r));
        }
        r
    }

    /// Validates `password` and hashes it with the salt `salt`.
    pub fn with_salt(password: &str, salt: &str) -> (r: Result<PasswordHash, Error>)
        ensures
            sealed_model(r) == password_outcome(password@, salt@),
            r matches Ok(hash) ==> (is_tagged(hash@) && argon2_matches(password@, hash@)
                && holds_salt(hash@, salt@)),
    {
        if password.unicode_len() < MIN_PASSWORD_CHARS {
            return Err(
                Error::InvalidPassword("Password must be at least 8 characters long".to_owned()),
            );
        }
        match hash_password_with_salt(password, salt) {
            Ok(encoded) => Ok(seal(encoded)),
            Err(_) => Err(Error::InvalidPassword("Failed to hash password".to_owned())),
        }
    }

    /// Wraps an encoded hash that was stored earlier, as it is.
    pub fn new_unchecked(stored: String) -> (r: PasswordHash)
        ensures
            r@ == stored@,
    {
        seal(stored)
    }

    /// The encoded hash.
    pub fn expose_secret(&self) -> (r: &str)
        ensures
            r@ == self@,
    {
        unseal(self)
    }
}

} // verus!
