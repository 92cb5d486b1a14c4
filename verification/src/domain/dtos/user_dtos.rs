use vstd::prelude::*;

use crate::domain::errors::{Error, ErrorModel};
use crate::domain::types::password::password_outcome;
use crate::domain::types::role::{is_role, lowercase};
use crate::domain::types::user_types::{NewUser, NewUserModel, User};
use crate::domain::types::username::username_outcome;
use crate::domain::types::{PasswordHash, Role, Username};
use crate::handlers::password_hasher::argon2_matches;

verus! {

/// What a caller sends to register a user.
#[derive(Debug)]
pub struct NewUserDto {
    pub username: String,
    pub password: String,
    pub role: String,
}

/// What a caller sends to log in.
#[derive(Debug)]
pub struct UserLoginInputDto {
    pub username: String,
    pub password: String,
}

/// What a caller is told of a user.
#[derive(Debug)]
pub struct UserDto {
    pub id: u128,
    pub username: String,
    pub role: String,
}

/// What becomes of a registration when the password is hashed with `salt`:
/// the name is validated first, then the role, then the password; the first
/// that fails gives the error.
pub open spec fn new_user_outcome(
    username: Seq<char>,
    password: Seq<char>,
    role: Seq<char>,
    salt: Seq<char>,
) -> Result<NewUserModel, ErrorModel> {
    match username_outcome(username) {
        Err(e) => Err(e),
        Ok(name) => if !is_role(lowercase(role)) {
            Err(ErrorModel::InvalidRole(lowercase(role)))
        } else {
            match password_outcome(password, salt) {
                Err(e) => Err(e),
                Ok(hash) => Ok(
                    NewUserModel { username: name, password_hash: hash, role: lowercase(role) },
                ),
            }
        },
    }
}

/// The mathematical value of what validating a registration returns.
pub open spec fn new_user_model(r: Result<NewUser, Error>) -> Result<NewUserModel, ErrorModel> {
    match r {
        Ok(user) => Ok(user@),
        Err(e) => Err(e@),
    }
}

impl NewUser {
    /// Validates a registration and hashes its password with a fresh random
    /// salt: the result is what some salt gives. A hash that comes back
    /// matches the password.
    pub fn try_from(value: NewUserDto) -> (r: Result<NewUser, Error>)
        ensures
            exists|salt: Seq<char>| #[trigger]
                new_user_outcome(value.username@, value.password@, value.role@, salt)
                    == new_user_model(r),
            r matches Ok(user) ==> argon2_matches(value.password@, user@.password_hash),
    {
        let username = match Username::new(value.username.as_str()) {
            Ok(name) => name,
            Err(e) => {
                let r = Err(e);
                assert(new_user_outcome(
                    value.username@,
                    value.password@,
                    value.role@,
                    Seq::<char>::empty(),
                ) == new_user_model(r));
                return r;
            },
        };
        let role = match Role::new(value.role) {
            Ok(role) => role,
            Err(e) => {
                let r = Err(e);
                assert(new_user_outcome(
                    value.username@,
                    value.password@,
                    value.role@,
                    Seq::<char>::empty(),
                ) == new_user_model(r));
                return r;
            },
        };
        let hashed = PasswordHash::new(value.password.as_str());
        let ghost salt = choose|salt: Seq<char>| #[trigger]
            password_outcome(value.password@, salt) == crate::domain::types::password::sealed_model(
                hashed,
            );
        let r = match hashed {
            Ok(password_hash) => Ok(NewUser { username, password_hash, role }),
            Err(e) => Err(e),
        };
        assert(new_user_outcome(value.username@, value.password@, value.role@, salt)
            == new_user_model(r));
        r
    }

    /// Validates a registration and hashes its password with the salt
    /// `salt`.
    pub fn with_salt(value: NewUserDto, salt: &str) -> (r: Result<NewUser, Error>)
        ensures
            new_user_model(r) == new_user_outcome(
                value.username@,
                value.password@,
                value.role@,
                salt@,
            ),
            r matches Ok(user) ==> argon2_matches(value.password@, user@.password_hash),
    {
        let username = match Username::new(value.username.as_str()) {
            Ok(name) => name,
            Err(e) => { return Err(e); },
        };
        let role = match Role::new(value.role) {
            Ok(role) => role,
            Err(e) => { return Err(e); },
        };
        match PasswordHash::with_salt(value.password.as_str(), salt) {
            Ok(password_hash) => Ok(NewUser { username, password_hash, role }),
            Err(e) => Err(e),
        }
    }
}

impl UserDto {
    /// What a caller is told of `user`: its identifier, name and role.
    pub fn from(user: User) -> (r: UserDto)
        ensures
            r.id == user.id,
            r.username@ == user.username@,
            r.role@ == user.role@,
    {
        UserDto {
            id: user.id,
            username: user.username.as_ref().to_owned(),
            role: user.role.as_ref().to_owned(),
        }
    }
}

} // verus!
