use vstd::prelude::*;

use crate::clock::{clock_range, unix_now};
use crate::domain::errors::{Error, ErrorModel};
use crate::domain::types::claim_map::{distinct_keys, entries_of, map_of, ClaimMap};
use crate::domain::types::jwt_claims::{
    claims_map, claims_of_map, malformed_token, valid_at, ClaimsModel, JwtClaims,
};

verus! {

/// The token that signing a flat mapping with a secret gives, by HMAC with
/// SHA-256, or the text of the error with which signing is refused.
pub uninterp spec fn hs256_signed(secret: Seq<char>, claims: Map<Seq<char>, Seq<char>>) -> Result<
    Seq<char>,
    Seq<char>,
>;

/// The flat mapping that a token holds, if the token is well formed and its
/// signature is that of the secret; `None` for every other token.
pub uninterp spec fn hs256_verified(secret: Seq<char>, token: Seq<char>) -> Option<
    Map<Seq<char>, Seq<char>>,
>;

/// Signs a flat mapping, with `jwt::SignWithKey::sign_with_key` on a
/// `BTreeMap` of its pairs and a key that `hmac::Mac::new_from_slice` makes
/// of the secret's bytes. Trusted: the token depends on the secret and the
/// mapping alone, and `verify_with_key` with the same secret reads the same
/// mapping out of it.
#[verifier::external_body]
fn sign_pairs(secret: &str, pairs: &Vec<(String, String)>) -> (r: Result<String, String>)
    requires
        distinct_keys(entries_of(pairs@)),
    ensures
        match r {
            Ok(token) => {
                &&& hs256_signed(secret@, map_of(entries_of(pairs@))) == Ok::<
                    Seq<char>,
                    Seq<char>,
                >(token@)
                &&& hs256_verified(secret@, token@) == Some(map_of(entries_of(pairs@)))
            },
            Err(text) => hs256_signed(secret@, map_of(entries_of(pairs@))) == Err::<
                Seq<char>,
                Seq<char>,
            >(text@),
        },
{
    let key: hmac::Hmac<sha2::Sha256> = match hmac::Mac::new_from_slice(secret.as_bytes()) {
        Ok(key) => key,
        Err(e) => return Err(e.to_string()),
    };
    let tree: std::collections::BTreeMap<String, String> = pairs.iter().cloned().collect();
    match jwt::SignWithKey::sign_with_key(tree, &key) {
        Ok(token) => Ok(token),
        Err(e) => Err(e.to_string()),
    }
}

/// Checks a token's signature and reads its flat mapping, with
/// `jwt::VerifyWithKey::verify_with_key` into a `BTreeMap` and a key that
/// `hmac::Mac::new_from_slice` makes of the secret's bytes. Trusted: the
/// outcome depends on the secret and the token alone, and no key of the
/// mapping comes twice.
#[verifier::external_body]
fn verify_pairs(secret: &str, token: &str) -> (r: Option<Vec<(String, String)>>)
    ensures
        match r {
            Some(pairs) => {
                &&& distinct_keys(entries_of(pairs@))
                &&& hs256_verified(secret@, token@) == Some(map_of(entries_of(pairs@)))
            },
            None => hs256_verified(secret@, token@) is None,
        },
{
    let key: hmac::Hmac<sha2::Sha256> = match hmac::Mac::new_from_slice(secret.as_bytes()) {
        Ok(key) => key,
        Err(_) => return None,
    };
    let verified: Result<std::collections::BTreeMap<String, String>, jwt::Error> =
        jwt::VerifyWithKey::verify_with_key(token, &key);
    match verified {
        Ok(tree) => Some(tree.into_iter().collect()),
        Err(_) => None,
    }
}

/// The error for claims that could not be signed, with the signer's words.
pub open spec fn signing_failed(text: Seq<char>) -> ErrorModel {
    ErrorModel::InternalError("Failed to sign token: "@ + text)
}

/// What issuing a token for `claims` under `secret` gives.
pub open spec fn token_outcome(secret: Seq<char>, claims: ClaimsModel) -> Result<
    Seq<char>,
    ErrorModel,
> {
    match hs256_signed(secret, claims_map(claims)) {
        Ok(token) => Ok(token),
        Err(text) => Err(signing_failed(text)),
    }
}

/// The claims that `token` holds under `secret`, if its signature is that of
/// the secret and its mapping holds claims.
pub open spec fn decoded_claims(secret: Seq<char>, token: Seq<char>) -> Option<ClaimsModel> {
    match hs256_verified(secret, token) {
        Some(m) => claims_of_map(m),
        None => None,
    }
}

/// The error for a session that has not begun or has ended.
pub open spec fn stale_session() -> ErrorModel {
    ErrorModel::LoginFailed("Session is not valid at this time"@)
}

/// What a token's bearer is allowed to be taken for at `now`: the identity
/// in its claims, if the token decodes and its session is running.
pub open spec fn authorized_at(secret: Seq<char>, token: Seq<char>, now: i64) -> Result<
    IdentityModel,
    ErrorModel,
> {
    match decoded_claims(secret, token) {
        None => Err(malformed_token()),
        Some(c) => if valid_at(c, now) {
            Ok(IdentityModel { user_id: c.user_id, role: c.role })
        } else {
            Err(stale_session())
        },
    }
}

/// Who a token's bearer is: what a route needs to decide on access.
#[derive(Debug)]
pub struct Identity {
    pub user_id: u128,
    pub role: String,
}

/// The mathematical value of an [`Identity`].
pub ghost struct IdentityModel {
    pub user_id: u128,
    pub role: Seq<char>,
}

impl View for Identity {
    type V = IdentityModel;

    open spec fn view(&self) -> IdentityModel {
        IdentityModel { user_id: self.user_id, role: self.role@ }
    }
}

/// Issues and checks session tokens under one secret, which is fixed when
/// the handler is made.
pub struct JwtHandler {
    secret: String,
}

impl JwtHandler {
    /// The secret under which the handler signs.
    pub closed spec fn secret(&self) -> Seq<char> {
        self.secret@
    }

    /// A handler that signs under `secret`.
    pub fn new(secret: String) -> (r: Result<JwtHandler, Error>)
        ensures
            r matches Ok(handler) && handler.secret() == secret@,
    {
        Ok(JwtHandler { secret })
    }

    /// The error for claims that could not be signed, from the signer's
    /// words.
    pub fn signing_error(text: &str) -> (e: Error)
        ensures
            e@ == signing_failed(text@),
    {
        let mut message = "Failed to sign token: ".to_owned();
        message.append(text);
        Error::InternalError(message)
    }

    /// Signs `claims` into a token. The token decodes, under the same
    /// secret, to the same claims.
    pub fn generate_token(&self, claims: JwtClaims) -> (r: Result<String, Error>)
        ensures
            match r {
                Ok(token) => {
                    &&& token_outcome(self.secret(), claims@) == Ok::<Seq<char>, ErrorModel>(
                        token@,
                    )
                    &&& decoded_claims(self.secret(), token@) == Some(claims@)
                },
                Err(e) => token_outcome(self.secret(), claims@) == Err::<Seq<char>, ErrorModel>(
                    e@,
                ),
            },
    {
        let map = claims.to_tree_map();
        match sign_pairs(self.secret.as_str(), map.pairs()) {
            Ok(token) => Ok(token),
            Err(text) => Err(JwtHandler::signing_error(text.as_str())),
        }
    }

    /// Checks the signature of `token` and reads its claims. Whether the
    /// session is running is not looked at. Every token that is refused gives
    /// the same error.
    pub fn decode_token(&self, token: &str) -> (r: Result<JwtClaims, Error>)
        ensures
            match r {
                Ok(claims) => decoded_claims(self.secret(), token@) == Some(claims@),
                Err(e) => decoded_claims(self.secret(), token@) is None && e@ == malformed_token(),
            },
    {
        match verify_pairs(self.secret.as_str(), token) {
            Some(pairs) => JwtClaims::try_from(ClaimMap::from_pairs(pairs)),
            None => Err(Error::LoginFailed("Error in JWT formatting".to_owned())),
        }
    }

    /// Who the bearer of `token` is, if the token decodes and its session is
    /// running at `now`.
    pub fn authorize_at(&self, token: &str, now: i64) -> (r: Result<Identity, Error>)
        ensures
            match r {
                Ok(who) => authorized_at(self.secret(), token@, now) == Ok::<
                    IdentityModel,
                    ErrorModel,
                >(who@),
                Err(e) => authorized_at(self.secret(), token@, now) == Err::<
                    IdentityModel,
                    ErrorModel,
                >(e@),
            },
    {
        match self.decode_token(token) {
            Err(e) => Err(e),
            Ok(claims) => {
                if claims.is_valid_at(now) {
                    Ok(Identity { user_id: claims.user_id, role: claims.role })
                } else {
                    Err(Error::LoginFailed("Session is not valid at this time".to_owned()))
                }
            },
        }
    }

    /// Who the bearer of `token` is, if the token decodes and its session is
    /// running now: the result is that of some time of the clock.
    pub fn authorize(&self, token: &str) -> (r: Result<Identity, Error>)
        ensures
            exists|now: i64|
                clock_range(now) && match r {
                    Ok(who) => #[trigger] authorized_at(self.secret(), token@, now) == Ok::<
                        IdentityModel,
                        ErrorModel,
                    >(who@),
                    Err(e) => authorized_at(self.secret(), token@, now) == Err::<
                        IdentityModel,
                        ErrorModel,
                    >(e@),
                },
    {
        let now = unix_now();
        self.authorize_at(token, now)
    }
}

} // verus!
