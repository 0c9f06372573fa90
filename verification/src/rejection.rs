//! How failures are told to the one who asked: which status a failure gets,
//! and which words.

use crate::error::Error;
use crate::model::text_view;
use crate::responses::StatusResponse;
use vstd::prelude::*;
use vstd::string::StringExecFns;

verus! {

/// The status line that `http::StatusCode` shows for a code: the code and
/// its canonical reason; `None` for a number that is no status code.
pub uninterp spec fn http_status_line(code: u16) -> Option<Seq<char>>;

/// Calls `http::StatusCode::from_u16` and the code's `to_string`. The line
/// depends on the code alone, and there is one exactly for the numbers from
/// 100 to 999.
#[verifier::external_body]
fn status_line(code: u16) -> (r: Option<String>)
    ensures
        text_view(r) == http_status_line(code),
        r is Some <==> 100 <= code < 1000,
{
    match warp::http::StatusCode::from_u16(code) {
        Ok(status) => Some(status.to_string()),
        Err(_) => None,
    }
}

/// What kind of failure an error is.
#[derive(Debug, Clone, Copy, PartialEq, Eq, Structural)]
pub enum ErrorKind {
    /// Something asked for does not exist.
    NotFound,
    /// The game is not in a state that allows the request.
    StateViolation,
    /// The riddle was solved before.
    AlreadySolved,
    /// The store failed.
    StoreFailure,
    /// The one who asks is not known or may not ask.
    Unauthorized,
    /// Any other failure.
    Other,
}

impl Error {
    /// The kind of this failure.
    pub open spec fn kind(self) -> ErrorKind {
        match self {
            Error::UserNotFoundError
            | Error::RoomNotFoundError
            | Error::RiddleNotFoundError
            | Error::NeighborNotFoundError
            | Error::RoomBehindNotFoundError => ErrorKind::NotFound,
            Error::UserIsInNoRoom
            | Error::RiddleHasNotBeenSeenByUser
            | Error::DoorwayNotAccessible
            | Error::RiddleNotSolvedError
            | Error::UserNotAssociatedWithRiddle => ErrorKind::StateViolation,
            Error::AlreadySolved => ErrorKind::AlreadySolved,
            Error::MongoError(_)
            | Error::MongoQueryError(_)
            | Error::MongoDataError(_)
            | Error::GridFSError(_)
            | Error::DatabaseQueryError(_) => ErrorKind::StoreFailure,
            Error::JWTTokenError
            | Error::NoAuthHeaderError
            | Error::InvalidAuthHeaderError
            | Error::NoPermissionError => ErrorKind::Unauthorized,
            _ => ErrorKind::Other,
        }
    }

    /// The kind of this failure.
    pub fn classify(&self) -> (r: ErrorKind)
        ensures
            r == self.kind(),
    {
        match self {
            Error::UserNotFoundError
            | Error::RoomNotFoundError
            | Error::RiddleNotFoundError
            | Error::NeighborNotFoundError
            | Error::RoomBehindNotFoundError => ErrorKind::NotFound,
            Error::UserIsInNoRoom
            | Error::RiddleHasNotBeenSeenByUser
            | Error::DoorwayNotAccessible
            | Error::RiddleNotSolvedError
            | Error::UserNotAssociatedWithRiddle => ErrorKind::StateViolation,
            Error::AlreadySolved => ErrorKind::AlreadySolved,
            Error::MongoError(_)
            | Error::MongoQueryError(_)
            | Error::MongoDataError(_)
            | Error::GridFSError(_)
            | Error::DatabaseQueryError(_) => ErrorKind::StoreFailure,
            Error::JWTTokenError
            | Error::NoAuthHeaderError
            | Error::InvalidAuthHeaderError
            | Error::NoPermissionError => ErrorKind::Unauthorized,
            _ => ErrorKind::Other,
        }
    }
}

/// Why a request was turned away: no route leads to what it asks for, the
/// game has failed, its body cannot be read, its method is not allowed, or
/// something else.
#[derive(Debug)]
pub enum Rejection {
    NotFound,
    Custom(Error),
    BodyDeserializeError,
    MethodNotAllowed,
    Other,
}

/// What the one who asked is told of a failure.
#[derive(Debug)]
pub struct ErrorResponse {
    pub ok: bool,
    pub code: u16,
    pub status: String,
    pub message: String,
}

/// The words of a failure that is not to be explained.
pub open spec fn internal_error_text() -> Seq<char> {
    "Internal Server Error"@
}

/// The status code of a failure of the game. A failure of the rules of the
/// game is told in the answer itself, under the code 200; a failure of the
/// store, and one to issue a token, is an internal error; and of the others,
/// each has the code that says best what went wrong.
pub open spec fn error_code(e: Error) -> u16 {
    match e.kind() {
        ErrorKind::NotFound | ErrorKind::StateViolation | ErrorKind::AlreadySolved => 200,
        ErrorKind::StoreFailure => 500,
        _ => match e {
            Error::CheatError => 402,
            Error::UnsafePasswordError
            | Error::InvalidEmailError
            | Error::UsernameNotAvailableError => 409,
            Error::WrongCredentialsError => 403,
            Error::NoPermissionError | Error::JWTTokenError => 401,
            Error::JWTTokenCreationError => 500,
            _ => 400,
        },
    }
}

/// The words for a failure of the game: its own, unless it is an internal
/// error, which is not explained.
pub open spec fn error_message(e: Error) -> Seq<char> {
    if error_code(e) == 500 {
        internal_error_text()
    } else {
        e.text()
    }
}

/// The status code of a rejection.
pub open spec fn rejection_code(r: Rejection) -> u16 {
    match r {
        Rejection::NotFound => 404,
        Rejection::Custom(e) => error_code(e),
        Rejection::BodyDeserializeError => 400,
        Rejection::MethodNotAllowed => 405,
        Rejection::Other => 500,
    }
}

/// The words for a rejection.
pub open spec fn rejection_message(r: Rejection) -> Seq<char> {
    match r {
        Rejection::NotFound => "Not Found"@,
        Rejection::Custom(e) => error_message(e),
        Rejection::BodyDeserializeError => "BodyDeserializeError"@,
        Rejection::MethodNotAllowed => "Method Not Allowed"@,
        Rejection::Other => internal_error_text(),
    }
}

/// The status code of a failure of the game.
pub fn status_of_error(e: &Error) -> (r: u16)
    ensures
        r == error_code(*e),
        100 <= r < 1000,
{
    match e.classify() {
        ErrorKind::NotFound | ErrorKind::StateViolation | ErrorKind::AlreadySolved => 200,
        ErrorKind::StoreFailure => 500,
        _ => match e {
            Error::CheatError => 402,
            Error::UnsafePasswordError
            | Error::InvalidEmailError
            | Error::UsernameNotAvailableError => 409,
            Error::WrongCredentialsError => 403,
            Error::NoPermissionError | Error::JWTTokenError => 401,
            Error::JWTTokenCreationError => 500,
            _ => 400,
        },
    }
}

/// Tells the one who asked of a rejection: that it went wrong, with which
/// status, and in which words.
pub fn handle_rejection(err: &Rejection) -> (r: ErrorResponse)
    ensures
        !r.ok,
        r.code == rejection_code(*err),
        Some(r.status@) == http_status_line(r.code),
        r.message@ == rejection_message(*err),
{
    let (code, message): (u16, String) = match err {
        Rejection::NotFound => (404, String::from_str("Not Found")),
        Rejection::Custom(e) => {
            let code = status_of_error(e);
            if code == 500 {
                (code, String::from_str("Internal Server Error"))
            } else {
                (code, e.to_string())
            }
        },
        Rejection::BodyDeserializeError => (400, String::from_str("BodyDeserializeError")),
        Rejection::MethodNotAllowed => (405, String::from_str("Method Not Allowed")),
        Rejection::Other => (500, String::from_str("Internal Server Error")),
    };
    let status = match status_line(code) {
        Some(status) => status,
        None => String::new(),
    };
    ErrorResponse { ok: false, code, status, message }
}

/// Tells the one who asked that the request went wrong, in the answer
/// itself.
pub fn err_response(message: Option<String>) -> (r: StatusResponse)
    ensures
        !r.ok,
        r.message == message,
{
    StatusResponse::bad(message)
}

} // verus!
