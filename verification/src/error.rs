//! What can go wrong, and the words for it.

use vstd::prelude::*;
use vstd::string::StringExecFns;

verus! {

/// Every failure that the game reports.
#[derive(Debug)]
pub enum Error {
    /// The store failed; the text is the store's own.
    MongoError(String),
    /// A query to the store failed; the text is the store's own.
    MongoQueryError(String),
    /// A stored document lacks a field.
    MongoDataError(String),
    /// The text is no identifier.
    BsonOidError(String),
    /// An attached file could not be loaded.
    GridFSError(String),
    /// An identifier that names nothing.
    InvalidIDError(String),
    /// A query failed; the text says how.
    DatabaseQueryError(String),
    HashingError,
    UnsafePasswordError,
    PasswordTooShortError,
    TotpKeyMissingError,
    TotpQrCodeGenerationError,
    UserNotFoundError,
    InvalidUsernameError,
    UsernameNotAvailableError,
    UsernameOrEmailNotAvailableError,
    MalformedAddressError,
    InvalidEmailError,
    MailBuilderError,
    SmtpTransportError,
    UserUpdateError,
    UserCannotChangeOwnRoleError,
    CannotChangeToSameRole,
    CannotPromoteUserError,
    UnsufficentRightsError,
    RiddleNotFoundError,
    /// The user answers a riddle that was not shown to them.
    RiddleHasNotBeenSeenByUser,
    UserNotAssociatedWithRiddle,
    /// The riddle is in the user's solved history already.
    AlreadySolved,
    /// No doorway of the user's room is locked by the riddle.
    DoorwayNotAccessible,
    RoomNotFoundError,
    /// The user stands in no room.
    UserIsInNoRoom,
    /// The room has no doorway in that direction.
    NeighborNotFoundError,
    /// No room holds the other side of the doorway.
    RoomBehindNotFoundError,
    /// The doorway's riddle is not in the user's solved history.
    RiddleNotSolvedError,
    WrongCredentialsError,
    PointlessFido2Error,
    PointlessTotpError,
    TotpMissingError,
    JWTTokenError,
    JWTTokenCreationError,
    NoAuthHeaderError,
    InvalidAuthHeaderError,
    NoPermissionError,
    CheatError,
    WebauthnError,
}

impl Clone for Error {
    fn clone(&self) -> (r: Self)
        ensures
            r == *self,
    {
        match self {
            Error::MongoError(s) => Error::MongoError(s.clone()),
            Error::MongoQueryError(s) => Error::MongoQueryError(s.clone()),
            Error::MongoDataError(s) => Error::MongoDataError(s.clone()),
            Error::BsonOidError(s) => Error::BsonOidError(s.clone()),
            Error::GridFSError(s) => Error::GridFSError(s.clone()),
            Error::InvalidIDError(s) => Error::InvalidIDError(s.clone()),
            Error::DatabaseQueryError(s) => Error::DatabaseQueryError(s.clone()),
            Error::HashingError => Error::HashingError,
            Error::UnsafePasswordError => Error::UnsafePasswordError,
            Error::PasswordTooShortError => Error::PasswordTooShortError,
            Error::TotpKeyMissingError => Error::TotpKeyMissingError,
            Error::TotpQrCodeGenerationError => Error::TotpQrCodeGenerationError,
            Error::UserNotFoundError => Error::UserNotFoundError,
            Error::InvalidUsernameError => Error::InvalidUsernameError,
            Error::UsernameNotAvailableError => Error::UsernameNotAvailableError,
            Error::UsernameOrEmailNotAvailableError => Error::UsernameOrEmailNotAvailableError,
            Error::MalformedAddressError => Error::MalformedAddressError,
            Error::InvalidEmailError => Error::InvalidEmailError,
            Error::MailBuilderError => Error::MailBuilderError,
            Error::SmtpTransportError => Error::SmtpTransportError,
            Error::UserUpdateError => Error::UserUpdateError,
            Error::UserCannotChangeOwnRoleError => Error::UserCannotChangeOwnRoleError,
            Error::CannotChangeToSameRole => Error::CannotChangeToSameRole,
            Error::CannotPromoteUserError => Error::CannotPromoteUserError,
            Error::UnsufficentRightsError => Error::UnsufficentRightsError,
            Error::RiddleNotFoundError => Error::RiddleNotFoundError,
            Error::RiddleHasNotBeenSeenByUser => Error::RiddleHasNotBeenSeenByUser,
            Error::UserNotAssociatedWithRiddle => Error::UserNotAssociatedWithRiddle,
            Error::AlreadySolved => Error::AlreadySolved,
            Error::DoorwayNotAccessible => Error::DoorwayNotAccessible,
            Error::RoomNotFoundError => Error::RoomNotFoundError,
            Error::UserIsInNoRoom => Error::UserIsInNoRoom,
            Error::NeighborNotFoundError => Error::NeighborNotFoundError,
            Error::RoomBehindNotFoundError => Error::RoomBehindNotFoundError,
            Error::RiddleNotSolvedError => Error::RiddleNotSolvedError,
            Error::WrongCredentialsError => Error::WrongCredentialsError,
            Error::PointlessFido2Error => Error::PointlessFido2Error,
            Error::PointlessTotpError => Error::PointlessTotpError,
            Error::TotpMissingError => Error::TotpMissingError,
            Error::JWTTokenError => Error::JWTTokenError,
            Error::JWTTokenCreationError => Error::JWTTokenCreationError,
            Error::NoAuthHeaderError => Error::NoAuthHeaderError,
            Error::InvalidAuthHeaderError => Error::InvalidAuthHeaderError,
            Error::NoPermissionError => Error::NoPermissionError,
            Error::CheatError => Error::CheatError,
            Error::WebauthnError => Error::WebauthnError,
        }
    }
}

impl Error {
    /// The words for this failure. A failure that carries a text of its own
    /// appends it.
    pub open spec fn text(self) -> Seq<char> {
        match self {
            Error::MongoError(s) => "mongodb error: "@ + s@,
            Error::MongoQueryError(s) => "error during mongodb query: "@ + s@,
            Error::MongoDataError(s) => "could not access field in document: "@ + s@,
            Error::BsonOidError(s) => "could not parse ObjectID "@ + s@,
            Error::GridFSError(s) => "could not load file "@ + s@,
            Error::InvalidIDError(s) => "invalid id used: "@ + s@,
            Error::DatabaseQueryError(s) => "database query failed: "@ + s@,
            Error::HashingError => "unsafe password"@,
            Error::UnsafePasswordError => "hashing error"@,
            Error::PasswordTooShortError => "password too short"@,
            Error::TotpKeyMissingError => "TOTP key missing error"@,
            Error::TotpQrCodeGenerationError => "TOTP QR code generation error"@,
            Error::UserNotFoundError => "user not found"@,
            Error::InvalidUsernameError => "username is not valid"@,
            Error::UsernameNotAvailableError => "username not available"@,
            Error::UsernameOrEmailNotAvailableError => "username or mail address not available"@,
            Error::MalformedAddressError => "combination of username and mail address is not valid"@,
            Error::InvalidEmailError => "mail address is not valid"@,
            Error::MailBuilderError => "building mail failed"@,
            Error::SmtpTransportError => "sending mail failed"@,
            Error::UserUpdateError => "user update failed"@,
            Error::UserCannotChangeOwnRoleError => "user cannot change own role"@,
            Error::CannotChangeToSameRole => "cannot change to same or lower role"@,
            Error::CannotPromoteUserError => "cannot promote user"@,
            Error::UnsufficentRightsError => "insufficient rights"@,
            Error::RiddleNotFoundError => "riddle not found"@,
            Error::RiddleHasNotBeenSeenByUser => "riddle has not been seen by user"@,
            Error::UserNotAssociatedWithRiddle => "user not associated with riddle"@,
            Error::AlreadySolved => "riddle already solved"@,
            Error::DoorwayNotAccessible => "doorway not accessible"@,
            Error::RoomNotFoundError => "room not found"@,
            Error::UserIsInNoRoom => "user is in no room"@,
            Error::NeighborNotFoundError => "neighbor not found"@,
            Error::RoomBehindNotFoundError => "room behind not found"@,
            Error::RiddleNotSolvedError => "riddle not solved"@,
            Error::WrongCredentialsError => "wrong credentials"@,
            Error::PointlessFido2Error => "pointless FIDO2"@,
            Error::PointlessTotpError => "pointless TOTP"@,
            Error::TotpMissingError => "TOTP missing"@,
            Error::JWTTokenError => "jwt token not valid"@,
            Error::JWTTokenCreationError => "jwt token creation error"@,
            Error::NoAuthHeaderError => "no auth header"@,
            Error::InvalidAuthHeaderError => "invalid auth header"@,
            Error::NoPermissionError => "no permission"@,
            Error::CheatError => "cheating is taboo"@,
            Error::WebauthnError => "WebAuthn error"@,
        }
    }

    /// The words for this failure.
    pub fn to_string(&self) -> (r: String)
        ensures
            r@ == self.text(),
    {
        match self {
            Error::MongoError(s) => String::from_str("mongodb error: ").concat(s.as_str()),
            Error::MongoQueryError(s) => String::from_str("error during mongodb query: ").concat(s.as_str()),
            Error::MongoDataError(s) => String::from_str("could not access field in document: ").concat(s.as_str()),
            Error::BsonOidError(s) => String::from_str("could not parse ObjectID ").concat(s.as_str()),
            Error::GridFSError(s) => String::from_str("could not load file ").concat(s.as_str()),
            Error::InvalidIDError(s) => String::from_str("invalid id used: ").concat(s.as_str()),
            Error::DatabaseQueryError(s) => String::from_str("database query failed: ").concat(s.as_str()),
            Error::HashingError => String::from_str("unsafe password"),
            Error::UnsafePasswordError => String::from_str("hashing error"),
            Error::PasswordTooShortError => String::from_str("password too short"),
            Error::TotpKeyMissingError => String::from_str("TOTP key missing error"),
            Error::TotpQrCodeGenerationError => String::from_str("TOTP QR code generation error"),
            Error::UserNotFoundError => String::from_str("user not found"),
            Error::InvalidUsernameError => String::from_str("username is not valid"),
            Error::UsernameNotAvailableError => String::from_str("username not available"),
            Error::UsernameOrEmailNotAvailableError => String::from_str("username or mail address not available"),
            Error::MalformedAddressError => String::from_str("combination of username and mail address is not valid"),
            Error::InvalidEmailError => String::from_str("mail address is not valid"),
            Error::MailBuilderError => String::from_str("building mail failed"),
            Error::SmtpTransportError => String::from_str("sending mail failed"),
            Error::UserUpdateError => String::from_str("user update failed"),
            Error::UserCannotChangeOwnRoleError => String::from_str("user cannot change own role"),
            Error::CannotChangeToSameRole => String::from_str("cannot change to same or lower role"),
            Error::CannotPromoteUserError => String::from_str("cannot promote user"),
            Error::UnsufficentRightsError => String::from_str("insufficient rights"),
            Error::RiddleNotFoundError => String::from_str("riddle not found"),
            Error::RiddleHasNotBeenSeenByUser => String::from_str("riddle has not been seen by user"),
            Error::UserNotAssociatedWithRiddle => String::from_str("user not associated with riddle"),
            Error::AlreadySolved => String::from_str("riddle already solved"),
            Error::DoorwayNotAccessible => String::from_str("doorway not accessible"),
            Error::RoomNotFoundError => String::from_str("room not found"),
            Error::UserIsInNoRoom => String::from_str("user is in no room"),
            Error::NeighborNotFoundError => String::from_str("neighbor not found"),
            Error::RoomBehindNotFoundError => String::from_str("room behind not found"),
            Error::RiddleNotSolvedError => String::from_str("riddle not solved"),
            Error::WrongCredentialsError => String::from_str("wrong credentials"),
            Error::PointlessFido2Error => String::from_str("pointless FIDO2"),
            Error::PointlessTotpError => String::from_str("pointless TOTP"),
            Error::TotpMissingError => String::from_str("TOTP missing"),
            Error::JWTTokenError => String::from_str("jwt token not valid"),
            Error::JWTTokenCreationError => String::from_str("jwt token creation error"),
            Error::NoAuthHeaderError => String::from_str("no auth header"),
            Error::InvalidAuthHeaderError => String::from_str("invalid auth header"),
            Error::NoPermissionError => String::from_str("no permission"),
            Error::CheatError => String::from_str("cheating is taboo"),
            Error::WebauthnError => String::from_str("WebAuthn error"),
        }
    }
}

} // verus!
