use vstd::prelude::*;

use crate::domain::errors::{Error, ErrorModel};
use crate::domain::types::role::{is_role, lowercase};
use crate::domain::types::username::username_outcome;
use crate::domain::types::{PasswordHash, Role, Username};

verus! {

/// A user as others may see it.
pub struct User {
    pub id: u128,
    pub username: Username,
    pub role: Role,
}

/// A user with its stored credential, for the login path only.
pub struct InternalUseUser {
    pub id: u128,
    pub username: Username,
    pub password_hash: PasswordHash,
    pub role: Role,
}

/// A user that is about to be stored.
pub struct NewUser {
    pub username: Username,
    pub password_hash: PasswordHash,
    pub role: Role,
}

/// The mathematical value of a [`User`].
pub ghost struct UserModel {
    pub id: u128,
    pub username: Seq<char>,
    pub role: Seq<char>,
}

/// The mathematical value of an [`InternalUseUser`].
pub ghost struct InternalUserModel {
    pub id: u128,
    pub username: Seq<char>,
    pub password_hash: Seq<char>,
    pub role: Seq<char>,
}

/// The mathematical value of a [`NewUser`].
pub ghost struct NewUserModel {
    pub username: Seq<char>,
    pub password_hash: Seq<char>,
    pub role: Seq<char>,
}

impl View for User {
    type V = UserModel;

    open spec fn view(&self) -> UserModel {
        UserModel { id: self.id, username: self.username@, role: self.role@ }
    }
}

impl View for InternalUseUser {
    type V = InternalUserModel;

    open spec fn view(&self) -> InternalUserModel {
        InternalUserModel {
            id: self.id,
            username: self.username@,
            password_hash: self.password_hash@,
            role: self.role@,
        }
    }
}

impl View for NewUser {
    type V = NewUserModel;

    open spec fn view(&self) -> NewUserModel {
        NewUserModel {
            username: self.username@,
            password_hash: self.password_hash@,
            role: self.role@,
        }
    }
}

/// What a stored name and role are read as: the name validated, the role
/// folded and validated, the name looked at first.
pub open spec fn stored_outcome(username: Seq<char>, role: Seq<char>) -> Result<
    (Seq<char>, Seq<char>),
    ErrorModel,
> {
    match username_outcome(username) {
        Err(e) => Err(e),
        Ok(name) => if is_role(lowercase(role)) {
            Ok((name, lowercase(role)))
        } else {
            Err(ErrorModel::InvalidRole(lowercase(role)))
        },
    }
}

impl User {
    /// Reads a user from what the store holds of it.
    pub fn from_stored(id: u128, username: &str, role: String) -> (r: Result<User, Error>)
        ensures
            match r {
                Ok(user) => stored_outcome(username@, role@) == Ok::<
                    (Seq<char>, Seq<char>),
                    ErrorModel,
                >((user@.username, user@.role)) && user.id == id,
                Err(e) => stored_outcome(username@, role@) == Err::<
                    (Seq<char>, Seq<char>),
                    ErrorModel,
                >(e@),
            },
    {
        let username = match Username::new(username) {
            Ok(name) => name,
            Err(e) => { return Err(e); },
        };
        let role = match Role::new(role) {
            Ok(role) => role,
            Err(e) => { return Err(e); },
        };
        Ok(User { id, username, role })
    }
}

impl InternalUseUser {
    /// Reads a user and its credential from what the store holds of them.
    /// The stored hash is taken as it is.
    pub fn from_stored(id: u128, username: &str, password_hash: String, role: String) -> (r: Result<
        InternalUseUser,
        Error,
    >)
        ensures
            match r {
                Ok(user) => stored_outcome(username@, role@) == Ok::<
                    (Seq<char>, Seq<char>),
                    ErrorModel,
                >((user@.username, user@.role)) && user.id == id && user@.password_hash
                    == password_hash@,
                Err(e) => stored_outcome(username@, role@) == Err::<
                    (Seq<char>, Seq<char>),
                    ErrorModel,
                >(e@),
            },
    {
        let username = match Username::new(username) {
            Ok(name) => name,
            Err(e) => { return Err(e); },
        };
        let role = match Role::new(role) {
            Ok(role) => role,
            Err(e) => { return Err(e); },
        };
        Ok(
            InternalUseUser {
                id,
                username,
                password_hash: PasswordHash::new_unchecked(password_hash),
                role,
            },
        )
    }
}

} // verus!
