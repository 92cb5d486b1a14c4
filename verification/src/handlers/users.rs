use vstd::prelude::*;

use crate::clock::{clock_range, unix_now, SESSION_SECONDS};
use crate::domain::dtos::user_dtos::UserLoginInputDto;
use crate::domain::errors::{Error, ErrorModel};
use crate::domain::types::jwt_claims::{claims_issued_at, JwtClaims};
use crate::domain::types::user_types::{InternalUseUser, InternalUserModel};
use crate::handlers::jwt_handler::{decoded_claims, token_outcome, JwtHandler};
use crate::handlers::password_hasher::{argon2_matches, verify};

verus! {

/// The one error of every login that is refused, whether the user is not
/// known or the password is wrong.
pub open spec fn login_failed() -> ErrorModel {
    ErrorModel::LoginFailed("Invalid username or password"@)
}

/// The mathematical value of what looking a user up gives.
pub open spec fn found_model(found: Result<Option<InternalUseUser>, Error>) -> Result<
    Option<InternalUserModel>,
    ErrorModel,
> {
    match found {
        Ok(Some(user)) => Ok(Some(user@)),
        Ok(None) => Ok(None),
        Err(e) => Err(e@),
    }
}

/// The mathematical value of what a login returns.
pub open spec fn token_model(r: Result<String, Error>) -> Result<Seq<char>, ErrorModel> {
    match r {
        Ok(token) => Ok(token@),
        Err(e) => Err(e@),
    }
}

/// What a login at `now` comes to. A user that is not there and a password
/// that does not match give the same error; a failure of the store is
/// handed on; a password that matches gives a token for a session that
/// begins at `now`.
pub open spec fn login_outcome(
    password: Seq<char>,
    found: Result<Option<InternalUserModel>, ErrorModel>,
    secret: Seq<char>,
    now: i64,
) -> Result<Seq<char>, ErrorModel> {
    match found {
        Ok(Some(user)) => if argon2_matches(password, user.password_hash) {
            token_outcome(secret, claims_issued_at(user.username, user.id, user.role, now))
        } else {
            Err(login_failed())
        },
        Ok(None) => Err(login_failed()),
        Err(ErrorModel::UserNotFound) => Err(login_failed()),
        Err(e) => Err(e),
    }
}

/// A login that finds no user and a login with a password that does not
/// match come to the same error, whatever the name, the password, the
/// secret and the time.
pub proof fn lemma_login_refusals_agree(
    password: Seq<char>,
    other_password: Seq<char>,
    user: InternalUserModel,
    secret: Seq<char>,
    now: i64,
    other_now: i64,
)
    requires
        !argon2_matches(password, user.password_hash),
    ensures
        login_outcome(password, Ok(Some(user)), secret, now) == login_outcome(
            other_password,
            Ok(None),
            secret,
            other_now,
        ),
        login_outcome(password, Ok(Some(user)), secret, now) == login_outcome(
            other_password,
            Err(ErrorModel::UserNotFound),
            secret,
            other_now,
        ),
        login_outcome(password, Ok(Some(user)), secret, now) == Err::<Seq<char>, ErrorModel>(
            login_failed(),
        ),
{
}

/// A login with a password that matches the stored hash comes to what
/// issuing a token for that user gives, for a session that begins at the
/// time of the login.
pub proof fn lemma_matching_password_logs_in(
    password: Seq<char>,
    user: InternalUserModel,
    secret: Seq<char>,
    now: i64,
)
    requires
        argon2_matches(password, user.password_hash),
    ensures
        login_outcome(password, Ok(Some(user)), secret, now) == token_outcome(
            secret,
            claims_issued_at(user.username, user.id, user.role, now),
        ),
{
}

/// Decides a login at `now`, from what the store gave for the name that was
/// sent. A token that comes back decodes, under the handler's secret, to
/// claims of that user for a session that begins at `now`.
pub fn login_user_at(
    user_login_input: &UserLoginInputDto,
    found: Result<Option<InternalUseUser>, Error>,
    jwt_handler: &JwtHandler,
    now: i64,
) -> (r: Result<String, Error>)
    requires
        now + SESSION_SECONDS <= i64::MAX,
    ensures
        token_model(r) == login_outcome(
            user_login_input.password@,
            found_model(found),
            jwt_handler.secret(),
            now,
        ),
        r matches Ok(token) ==> (found_model(found) matches Ok(Some(user)) && decoded_claims(
            jwt_handler.secret(),
            token@,
        ) == Some(claims_issued_at(user.username, user.id, user.role, now))),
{
    match found {
        Ok(Some(db_user)) => {
            if verify(user_login_input.password.as_str(), db_user.password_hash.expose_secret()) {
                let claims = JwtClaims::issued_at(
                    db_user.username.as_ref().to_owned(),
                    db_user.id,
                    db_user.role.as_ref().to_owned(),
                    now,
                );
                jwt_handler.generate_token(claims)
            } else {
                Err(Error::LoginFailed("Invalid username or password".to_owned()))
            }
        },
        Ok(None) => Err(Error::LoginFailed("Invalid username or password".to_owned())),
        Err(Error::UserNotFound) => Err(
            Error::LoginFailed("Invalid username or password".to_owned()),
        ),
        Err(e) => Err(e),
    }
}

/// Decides a login now, from what the store gave for the name that was
/// sent: the result is that of a login at some time of the clock, and a
/// token that comes back decodes to claims of that user for a session that
/// begins at that time.
pub fn login_user(
    user_login_input: &UserLoginInputDto,
    found: Result<Option<InternalUseUser>, Error>,
    jwt_handler: &JwtHandler,
) -> (r: Result<String, Error>)
    ensures
        exists|now: i64|
            {
                &&& clock_range(now)
                &&& token_model(r) == #[trigger] login_outcome(
                    user_login_input.password@,
                    found_model(found),
                    jwt_handler.secret(),
                    now,
                )
                &&& r matches Ok(token) ==> (found_model(found) matches Ok(Some(user))
                    && decoded_claims(jwt_handler.secret(), token@) == Some(
                    claims_issued_at(user.username, user.id, user.role, now),
                ))
            },
{
    let now = unix_now();
    login_user_at(user_login_input, found, jwt_handler, now)
}

/// Why a store did not create a user.
#[derive(Debug)]
pub enum CreateFailure {
    /// The name is taken.
    Conflict,
    /// Anything else, in the store's words.
    Other(String),
}

/// Decides what a registration comes to, from what the store's create
/// operation gave: the new identifier; for a name that is taken, the error
/// of its own; for any other failure, the store's words.
pub fn register_user(created: Result<u128, CreateFailure>) -> (r: Result<u128, Error>)
    ensures
        match created {
            Ok(id) => r == Ok::<u128, Error>(id),
            Err(CreateFailure::Conflict) => (r matches Err(e) && e@
                == ErrorModel::UsernameAlreadyExists),
            Err(CreateFailure::Other(words)) => (r matches Err(e) && e@
                == ErrorModel::UserCreationFailed(words@)),
        },
{
    match created {
        Ok(id) => Ok(id),
        Err(CreateFailure::Conflict) => Err(Error::UsernameAlreadyExists),
        Err(CreateFailure::Other(words)) => Err(Error::UserCreationFailed(words)),
    }
}

} // verus!
