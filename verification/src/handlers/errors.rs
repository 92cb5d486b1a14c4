use vstd::prelude::*;

use crate::domain::errors::{Error, ErrorModel};

verus! {

/// The status of every reply that carries a result.
pub const STATUS_ACCEPTED: u16 = 202;

/// The HTTP status that stands for an error.
pub open spec fn status_of(e: ErrorModel) -> u16 {
    match e {
        ErrorModel::InternalError(_) => 500,
        ErrorModel::UsernameAlreadyExists => 409,
        ErrorModel::UserNotFound => 204,
        ErrorModel::UserCreationFailed(_) => 500,
        ErrorModel::UserFetchFailed(_) => 500,
        ErrorModel::UserUpdateFailed(_) => 500,
        ErrorModel::UserDeletionFailed(_) => 500,
        ErrorModel::TicketFetchFailed(_) => 500,
        ErrorModel::TicketNotFound => 204,
        ErrorModel::TicketCreationFailed(_) => 500,
        ErrorModel::TicketUpdateFailed(_) => 500,
        ErrorModel::TicketDeletionFailed(_) => 500,
        ErrorModel::InvalidPassword(_) => 400,
        ErrorModel::InvalidUsername(_) => 400,
        ErrorModel::InvalidRole(_) => 400,
        ErrorModel::LoginFailed(_) => 401,
    }
}

/// The HTTP status with which `e` is reported.
pub fn to_http_status_code(e: &Error) -> (r: u16)
    ensures
        r == status_of(e@),
{
    match e {
        Error::InternalError(_) => 500,
        Error::UsernameAlreadyExists => 409,
        Error::UserNotFound => 204,
        Error::UserCreationFailed(_) => 500,
        Error::UserFetchFailed(_) => 500,
        Error::UserUpdateFailed(_) => 500,
        Error::UserDeletionFailed(_) => 500,
        Error::TicketFetchFailed(_) => 500,
        Error::TicketNotFound => 204,
        Error::TicketCreationFailed(_) => 500,
        Error::TicketUpdateFailed(_) => 500,
        Error::TicketDeletionFailed(_) => 500,
        Error::InvalidPassword(_) => 400,
        Error::InvalidUsername(_) => 400,
        Error::InvalidRole(_) => 400,
        Error::LoginFailed(_) => 401,
    }
}

/// What a reply to a result is made of, apart from the result itself.
pub struct ReplyParts {
    /// The HTTP status.
    pub status: u16,
    /// For a failure, the error in words.
    pub message: Option<String>,
}

/// The status and the message of the reply to `result`: a result is
/// accepted; an error is reported with its status and in its words.
pub fn result_to_reply_parts<T>(result: &Result<T, Error>) -> (r: ReplyParts)
    ensures
        match result {
            Ok(_) => r.status == STATUS_ACCEPTED && r.message is None,
            Err(e) => r.status == status_of(e@) && (r.message matches Some(m) && m@
                == e@.message()),
        },
{
    match result {
        Ok(_) => ReplyParts { status: STATUS_ACCEPTED, message: None },
        Err(e) => ReplyParts { status: to_http_status_code(e), message: Some(e.message()) },
    }
}

} // verus!
