use vstd::prelude::*;

verus! {

/// Everything that can go wrong in the domain. The variants that carry a
/// `String` hold a human-readable reason; the storage variants hold the
/// message that the store gave.
#[derive(Debug)]
pub enum Error {
    InternalError(String),
    UsernameAlreadyExists,
    UserNotFound,
    UserCreationFailed(String),
    UserFetchFailed(String),
    UserUpdateFailed(String),
    UserDeletionFailed(String),
    TicketFetchFailed(String),
    TicketNotFound,
    TicketCreationFailed(String),
    TicketUpdateFailed(String),
    TicketDeletionFailed(String),
    InvalidPassword(String),
    InvalidUsername(String),
    InvalidRole(String),
    LoginFailed(String),
}

/// The mathematical value of an [`Error`]: the same variants, with the
/// reasons as sequences of characters.
pub ghost enum ErrorModel {
    InternalError(Seq<char>),
    UsernameAlreadyExists,
    UserNotFound,
    UserCreationFailed(Seq<char>),
    UserFetchFailed(Seq<char>),
    UserUpdateFailed(Seq<char>),
    UserDeletionFailed(Seq<char>),
    TicketFetchFailed(Seq<char>),
    TicketNotFound,
    TicketCreationFailed(Seq<char>),
    TicketUpdateFailed(Seq<char>),
    TicketDeletionFailed(Seq<char>),
    InvalidPassword(Seq<char>),
    InvalidUsername(Seq<char>),
    InvalidRole(Seq<char>),
    LoginFailed(Seq<char>),
}

impl View for Error {
    type V = ErrorModel;

    open spec fn view(&self) -> ErrorModel {
        match self {
            Error::InternalError(m) => ErrorModel::InternalError(m@),
            Error::UsernameAlreadyExists => ErrorModel::UsernameAlreadyExists,
            Error::UserNotFound => ErrorModel::UserNotFound,
            Error::UserCreationFailed(m) => ErrorModel::UserCreationFailed(m@),
            Error::UserFetchFailed(m) => ErrorModel::UserFetchFailed(m@),
            Error::UserUpdateFailed(m) => ErrorModel::UserUpdateFailed(m@),
            Error::UserDeletionFailed(m) => ErrorModel::UserDeletionFailed(m@),
            Error::TicketFetchFailed(m) => ErrorModel::TicketFetchFailed(m@),
            Error::TicketNotFound => ErrorModel::TicketNotFound,
            Error::TicketCreationFailed(m) => ErrorModel::TicketCreationFailed(m@),
            Error::TicketUpdateFailed(m) => ErrorModel::TicketUpdateFailed(m@),
            Error::TicketDeletionFailed(m) => ErrorModel::TicketDeletionFailed(m@),
            Error::InvalidPassword(m) => ErrorModel::InvalidPassword(m@),
            Error::InvalidUsername(m) => ErrorModel::InvalidUsername(m@),
            Error::InvalidRole(m) => ErrorModel::InvalidRole(m@),
            Error::LoginFailed(m) => ErrorModel::LoginFailed(m@),
        }
    }
}

impl ErrorModel {
    /// The error in words.
    pub open spec fn message(self) -> Seq<char> {
        match self {
            ErrorModel::InternalError(m) => "internal server error: "@ + m,
            ErrorModel::UsernameAlreadyExists => "username already exists"@,
            ErrorModel::UserNotFound => "user not found"@,
            ErrorModel::UserCreationFailed(m) => "user creation failed: "@ + m,
            ErrorModel::UserFetchFailed(m) => "user fetch failed: "@ + m,
            ErrorModel::UserUpdateFailed(m) => "user update failed: "@ + m,
            ErrorModel::UserDeletionFailed(m) => "could not delete user: "@ + m,
            ErrorModel::TicketFetchFailed(m) => "ticket fetch failed: "@ + m,
            ErrorModel::TicketNotFound => "ticket not found"@,
            ErrorModel::TicketCreationFailed(m) => "ticket creation failed: "@ + m,
            ErrorModel::TicketUpdateFailed(m) => "ticket update failed: "@ + m,
            ErrorModel::TicketDeletionFailed(m) => "could not delete ticket: "@ + m,
            ErrorModel::InvalidPassword(m) => "invalid password: "@ + m,
            ErrorModel::InvalidUsername(m) => "invalid username: "@ + m,
            ErrorModel::InvalidRole(m) => "invalid role: "@ + m + " does not exist"@,
            ErrorModel::LoginFailed(m) => "login failed: "@ + m,
        }
    }
}

/// `prefix` followed by `rest`.
fn joined(prefix: &str, rest: &str) -> (r: String)
    ensures
        r@ == prefix@ + rest@,
{
    let mut text = prefix.to_owned();
    text.append(rest);
    text
}

impl Error {
    /// The error in words.
    pub fn message(&self) -> (r: String)
        ensures
            r@ == self@.message(),
    {
        match self {
            Error::InternalError(m) => joined("internal server error: ", m.as_str()),
            Error::UsernameAlreadyExists => "username already exists".to_owned(),
            Error::UserNotFound => "user not found".to_owned(),
            Error::UserCreationFailed(m) => joined("user creation failed: ", m.as_str()),
            Error::UserFetchFailed(m) => joined("user fetch failed: ", m.as_str()),
            Error::UserUpdateFailed(m) => joined("user update failed: ", m.as_str()),
            Error::UserDeletionFailed(m) => joined("could not delete user: ", m.as_str()),
            Error::TicketFetchFailed(m) => joined("ticket fetch failed: ", m.as_str()),
            Error::TicketNotFound => "ticket not found".to_owned(),
            Error::TicketCreationFailed(m) => joined("ticket creation failed: ", m.as_str()),
            Error::TicketUpdateFailed(m) => joined("ticket update failed: ", m.as_str()),
            Error::TicketDeletionFailed(m) => joined("could not delete ticket: ", m.as_str()),
            Error::InvalidPassword(m) => joined("invalid password: ", m.as_str()),
            Error::InvalidUsername(m) => joined("invalid username: ", m.as_str()),
            Error::InvalidRole(m) => {
                let mut text = joined("invalid role: ", m.as_str());
                text.append(" does not exist");
                text
            },
            Error::LoginFailed(m) => joined("login failed: ", m.as_str()),
        }
    }
}

} // verus!
