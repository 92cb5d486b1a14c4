use vstd::prelude::*;

verus! {

/// Whether `s` begins with `prefix`.
pub open spec fn begins_with(s: Seq<char>, prefix: Seq<char>) -> bool {
    prefix.len() <= s.len() && s.subrange(0, prefix.len() as int) == prefix
}

/// Whether `s` is marked as an encoded Argon2id hash.
pub open spec fn is_tagged(s: Seq<char>) -> bool {
    begins_with(s, "$argon2id$"@)
}

/// How every encoded hash that is made with `salt` begins: the algorithm,
/// its version, the default work parameters and the salt, each after a
/// dollar sign, and the dollar sign before the digest.
pub open spec fn salted_prefix(salt: Seq<char>) -> Seq<char> {
    "$argon2id$v=19$m=19456,t=2,p=1$"@ + salt + "$"@
}

/// Whether the encoded hash `encoded` holds the salt `salt`.
pub open spec fn holds_salt(encoded: Seq<char>, salt: Seq<char>) -> bool {
    begins_with(encoded, salted_prefix(salt))
}

/// Whether no dollar sign occurs in `salt`.
pub open spec fn plain_salt(salt: Seq<char>) -> bool {
    forall|i: int| 0 <= i < salt.len() ==> #[trigger] salt[i] != '$'
}

/// Two encoded hashes that hold different salts are different texts.
pub proof fn lemma_salts_tell_hashes_apart(
    first: Seq<char>,
    second: Seq<char>,
    salt: Seq<char>,
    other_salt: Seq<char>,
)
    requires
        holds_salt(first, salt),
        holds_salt(second, other_salt),
        plain_salt(salt),
        plain_salt(other_salt),
        salt != other_salt,
    ensures
        first != second,
{
    reveal_strlit("$");
    let head = "$argon2id$v=19$m=19456,t=2,p=1$"@;
    let a = salted_prefix(salt);
    let b = salted_prefix(other_salt);
    let at = head.len() as int;
    if first == second {
        assert forall|i: int| 0 <= i < a.len() implies first[i] == a[i] by {
            assert(first.subrange(0, a.len() as int)[i] == first[i]);
        }
        assert forall|i: int| 0 <= i < b.len() implies first[i] == b[i] by {
            assert(second.subrange(0, b.len() as int)[i] == second[i]);
        }
        if salt.len() < other_salt.len() {
            assert(a[at + salt.len()] == '$');
            assert(b[at + salt.len()] == other_salt[salt.len() as int]);
        } else if other_salt.len() < salt.len() {
            assert(b[at + other_salt.len()] == '$');
            assert(a[at + other_salt.len()] == salt[other_salt.len() as int]);
        } else {
            assert forall|i: int| 0 <= i < salt.len() implies salt[i] == other_salt[i] by {
                assert(a[at + i] == salt[i]);
                assert(b[at + i] == other_salt[i]);
            }
            assert(salt =~= other_salt);
        }
    }
}

/// The encoded hash that Argon2id, with its default work parameters, gives
/// for a password and a salt; `None` where it refuses them.
pub uninterp spec fn argon2_encoded(password: Seq<char>, salt: Seq<char>) -> Option<Seq<char>>;

/// Whether Argon2 finds that an encoded hash is that of a password.
pub uninterp spec fn argon2_matches(password: Seq<char>, encoded: Seq<char>) -> bool;

/// The message of every failure to hash.
pub open spec fn hashing_failed() -> Seq<char> {
    "Failed to hash password, please try again or contact support if the problem persists"@
}

/// A salt from the operating system's random numbers, as text, from
/// `SaltString::generate` with `OsRng`. Nothing is claimed of it.
#[verifier::external_body]
fn fresh_salt() -> (r: String) {
    argon2::password_hash::SaltString::generate(&mut rand_core::OsRng).as_str().to_owned()
}

/// Hashes a password with a salt, with `PasswordHasher::hash_password` of
/// `Argon2::default()`, and writes the hash with its `Display`; `None` where
/// the salt or the password is refused. Trusted: the result depends on the
/// two texts alone; what is written begins with the name of the algorithm,
/// its version, the default parameters and the salt as it was given, each
/// after a dollar sign; a salt that is accepted holds no dollar sign; and
/// `verify_password` finds that what is written matches the password it was
/// made from.
#[verifier::external_body]
fn argon2_hash(password: &str, salt: &str) -> (r: Option<String>)
    ensures
        match r {
            Some(encoded) => {
                &&& argon2_encoded(password@, salt@) == Some(encoded@)
                &&& is_tagged(encoded@)
                &&& holds_salt(encoded@, salt@)
                &&& plain_salt(salt@)
                &&& argon2_matches(password@, encoded@)
            },
            None => argon2_encoded(password@, salt@) is None,
        },
{
    let salt = match argon2::password_hash::SaltString::from_b64(salt) {
        Ok(salt) => salt,
        Err(_) => return None,
    };
    let hasher = argon2::Argon2::default();
    match argon2::PasswordHasher::hash_password(&hasher, password.as_bytes(), &salt) {
        Ok(hash) => Some(hash.to_string()),
        Err(_) => None,
    }
}

/// Checks a password against an encoded hash, with `PasswordHash::new` and
/// `PasswordVerifier::verify_password` of `Argon2::default()`. Trusted: the
/// result depends on the two texts alone, and a text that does not begin
/// with a dollar sign is refused as an encoded hash, so it matches nothing.
#[verifier::external_body]
fn argon2_verify(password: &str, encoded: &str) -> (r: bool)
    ensures
        r == argon2_matches(password@, encoded@),
        !begins_with(encoded@, "$"@) ==> !r,
{
    match argon2::PasswordHash::new(encoded) {
        Ok(parsed) => argon2::PasswordVerifier::verify_password(
            &argon2::Argon2::default(),
            password.as_bytes(),
            &parsed,
        ).is_ok(),
        Err(_) => false,
    }
}

/// What hashing `password` with `salt` gives.
pub open spec fn hash_outcome(password: Seq<char>, salt: Seq<char>) -> Result<
    Seq<char>,
    Seq<char>,
> {
    match argon2_encoded(password, salt) {
        Some(encoded) => Ok(encoded),
        None => Err(hashing_failed()),
    }
}

/// The mathematical value of what the hashing functions return.
pub open spec fn hashed_model(r: Result<String, String>) -> Result<Seq<char>, Seq<char>> {
    match r {
        Ok(encoded) => Ok(encoded@),
        Err(message) => Err(message@),
    }
}

/// Whether `r` is what hashing `password` with `salt` gives: the outcome
/// for that salt, and, where it is a hash, one that holds that salt.
pub open spec fn hashed_with(password: Seq<char>, salt: Seq<char>, r: Result<String, String>)
    -> bool {
    &&& hash_outcome(password, salt) == hashed_model(r)
    &&& r matches Ok(encoded) ==> holds_salt(encoded@, salt) && plain_salt(salt)
}

/// Hashes `password` with a fresh random salt: the result is what hashing
/// with some salt gives, and holds that salt. The encoded hash that comes
/// back matches the password, is marked as an Argon2id hash, and so differs
/// from every password that is not so marked.
pub fn hash_password(password: &str) -> (r: Result<String, String>)
    ensures
        exists|salt: Seq<char>| #[trigger] hashed_with(password@, salt, r),
        r matches Ok(encoded) ==> {
            &&& is_tagged(encoded@)
            &&& argon2_matches(password@, encoded@)
            &&& !is_tagged(password@) ==> encoded@ != password@
        },
{
    let salt = fresh_salt();
    let r = hash_password_with_salt(password, salt.as_str());
    assert(hashed_with(password@, salt@, r));
    r
}

/// Hashes `password` with the salt `salt`. A hash that comes back holds the
/// salt, so that two salts never give the same hash.
pub fn hash_password_with_salt(password: &str, salt: &str) -> (r: Result<String, String>)
    ensures
        hashed_with(password@, salt@, r),
        r matches Ok(encoded) ==> (is_tagged(encoded@) && argon2_matches(password@, encoded@)),
{
    match argon2_hash(password, salt) {
        Some(encoded) => Ok(encoded),
        None => Err(
            "Failed to hash password, please try again or contact support if the problem persists".to_owned(),
        ),
    }
}

/// Whether `db_hash` is an encoded hash of `password_sent`. A text that
/// does not begin with a dollar sign matches no password.
pub fn verify(password_sent: &str, db_hash: &str) -> (r: bool)
    ensures
        r == argon2_matches(password_sent@, db_hash@),
        !begins_with(db_hash@, "$"@) ==> !r,
{
    argon2_verify(password_sent, db_hash)
}

} // verus!
