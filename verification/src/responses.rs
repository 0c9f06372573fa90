//! What the game is asked and what it answers, as plain values.

use crate::auth::Role;
use crate::ident::Oid;
use crate::model::{
    Direction, PinType, RiddleAttempt, Room, RoomView, SecondFactor, Timestamp, doorways_view,
    text_view,
};
use vstd::prelude::*;
use vstd::string::StringExecFns;

verus! {

/// The answer to a ping.
#[derive(Debug)]
pub struct PingResponse {
    pub ok: bool,
    pub message: Option<String>,
    pub version: String,
}

/// A request for a new account.
#[derive(Debug)]
pub struct UserRegistrationRequest {
    pub username: String,
    pub email: String,
    pub password: String,
    pub locale: String,
    pub second_factor: Option<SecondFactor>,
}

/// A request for a new password.
#[derive(Debug)]
pub struct UserPasswordChangeRequest {
    pub password: String,
}

/// Whether a request went well, and if not, why.
#[derive(Debug)]
pub struct StatusResponse {
    pub ok: bool,
    pub message: Option<String>,
}

/// A request to activate an account with its pin.
#[derive(Debug)]
pub struct UserActivationRequest {
    pub username: String,
    pub pin: PinType,
}

/// A request to log in.
#[derive(Debug)]
pub struct UserLoginRequest {
    pub username: String,
    pub password: String,
    pub totp: Option<String>,
}

/// A one-time password, sent after the password was accepted.
#[derive(Debug)]
pub struct UserTotpRequest {
    pub username: String,
    pub totp: String,
}

/// An answer to a riddle.
#[derive(Debug)]
pub struct RiddleSolveRequest {
    pub solution: String,
}

/// A room as it is shown to a player.
#[derive(Debug)]
pub struct RoomResponse {
    pub ok: bool,
    pub message: Option<String>,
    pub id: Oid,
    pub number: u32,
    pub coords: Option<String>,
    pub neighbors: Vec<Direction>,
    pub game_id: Oid,
    pub entry: Option<bool>,
    pub exit: Option<bool>,
}

impl RoomResponse {
    /// The room that the response shows.
    pub open spec fn room(self) -> RoomView {
        RoomView {
            id: self.id,
            number: self.number,
            coords: text_view(self.coords),
            neighbors: doorways_view(self.neighbors@),
            game_id: self.game_id,
            entry: self.entry,
            exit: self.exit,
        }
    }

    /// The room without a feature: identifiers of twelve zero bytes, no
    /// doorway, no mark.
    pub open spec fn no_room() -> RoomView {
        RoomView {
            id: Oid { hi: 0, lo: 0 },
            number: 0,
            coords: None,
            neighbors: Seq::empty(),
            game_id: Oid { hi: 0, lo: 0 },
            entry: None,
            exit: None,
        }
    }

    /// The words that a refusal carries where none are given.
    pub open spec fn default_message() -> Seq<char> {
        "room not found"@
    }

    /// Shows a room.
    pub fn found(room: Room) -> (r: RoomResponse)
        ensures
            r.ok,
            r.message is None,
            r.room() == room@,
    {
        RoomResponse {
            ok: true,
            message: None,
            id: room.id,
            number: room.number,
            coords: room.coords,
            neighbors: room.neighbors,
            game_id: room.game_id,
            entry: room.entry,
            exit: room.exit,
        }
    }

    /// Shows no room, and says why: in the words given, or, without them,
    /// that the room was not found.
    pub fn bad_with_message(message: Option<String>) -> (r: RoomResponse)
        ensures
            !r.ok,
            r.room() == RoomResponse::no_room(),
            match message {
                Some(m) => r.message == Some(m),
                None => r.message matches Some(m) && m@ == RoomResponse::default_message(),
            },
    {
        let message = match message {
            Some(m) => m,
            None => String::from_str("room not found"),
        };
        let r = RoomResponse {
            ok: false,
            message: Some(message),
            id: Oid { hi: 0, lo: 0 },
            number: 0,
            coords: None,
            neighbors: Vec::new(),
            game_id: Oid { hi: 0, lo: 0 },
            entry: None,
            exit: None,
        };
        assert(doorways_view(r.neighbors@) =~= Seq::empty());
        r
    }

    /// Shows no room, and says that the room was not found.
    pub fn bad() -> (r: RoomResponse)
        ensures
            !r.ok,
            r.room() == RoomResponse::no_room(),
            r.message matches Some(m) && m@ == RoomResponse::default_message(),
    {
        RoomResponse::bad_with_message(None)
    }
}

/// What an authenticator app needs to produce one-time passwords: the secret
/// as text and as a picture, and how the passwords are made of it.
#[derive(Debug)]
pub struct TotpResponseRaw {
    pub qrcode: Vec<u8>,
    pub secret: String,
    pub hash: String,
    pub interval: u32,
    pub digits: u32,
}

impl TotpResponseRaw {
    /// The hash function that the one-time passwords are made with.
    pub open spec fn hash_name() -> Seq<char> {
        "SHA1"@
    }

    /// Six-digit passwords, made with SHA-1, a new one every thirty seconds.
    pub fn new(qrcode: Vec<u8>, secret: String) -> (r: TotpResponseRaw)
        ensures
            r.qrcode == qrcode,
            r.secret == secret,
            r.hash@ == TotpResponseRaw::hash_name(),
            r.interval == 30,
            r.digits == 6,
    {
        TotpResponseRaw { qrcode, secret, hash: String::from_str("SHA1"), interval: 30, digits: 6 }
    }
}

/// The answer to a request for one-time passwords.
#[derive(Debug)]
pub struct TotpResponse {
    pub ok: bool,
    pub message: Option<String>,
    pub totp: TotpResponseRaw,
}

/// A user as they are shown to themselves.
#[derive(Debug)]
pub struct UserWhoamiResponse {
    pub ok: bool,
    pub message: Option<String>,
    pub username: String,
    pub email: String,
    pub role: Role,
    pub activated: bool,
    pub created: Option<Timestamp>,
    pub registered: Option<Timestamp>,
    pub last_login: Option<Timestamp>,
    pub level: u32,
    pub score: i32,
    pub in_room: RoomResponse,
    pub solved: Vec<RiddleAttempt>,
    pub rooms_entered: Vec<Oid>,
    pub jwt: Option<String>,
    pub totp: Option<TotpResponseRaw>,
    pub recovery_keys: Option<Vec<String>>,
    pub configured_2fa: Vec<SecondFactor>,
}

/// One resolution of an attached picture, with its bytes.
#[derive(Debug)]
pub struct FileVariantResponse {
    pub name: String,
    pub data: Vec<u8>,
    pub scale: Option<u32>,
}

/// An attached file with its bytes.
#[derive(Debug)]
pub struct FileResponse {
    pub ok: bool,
    pub message: Option<String>,
    pub id: Oid,
    pub name: String,
    pub data: Vec<u8>,
    pub mime_type: String,
    pub width: Option<u32>,
    pub height: Option<u32>,
    pub scale: Option<u32>,
    pub variants: Option<Vec<FileVariantResponse>>,
}

/// A riddle as it is shown to a player: without its solution and without its
/// debriefing.
#[derive(Debug)]
pub struct RiddleResponse {
    pub ok: bool,
    pub message: Option<String>,
    pub id: Oid,
    pub level: u32,
    pub files: Option<Vec<FileResponse>>,
    pub task: Option<String>,
    pub difficulty: i32,
    pub deduction: i32,
    pub ignore_case: bool,
    pub credits: Option<String>,
}

/// What a player reads once a riddle is solved.
#[derive(Debug)]
pub struct DebriefingResponse {
    pub ok: bool,
    pub message: Option<String>,
    pub debriefing: Option<String>,
}

/// The verdict on an answer, with the score and the level that the player
/// has after it.
#[derive(Debug)]
pub struct RiddleSolvedResponse {
    pub ok: bool,
    pub riddle_id: Oid,
    pub solved: bool,
    pub score: i32,
    pub level: u32,
    pub message: Option<String>,
}

/// The room that a player has stepped into.
#[derive(Debug)]
pub struct SteppedThroughResponse {
    pub ok: bool,
    pub message: Option<String>,
    pub room: RoomResponse,
}

/// The size of a game.
#[derive(Debug)]
pub struct GameStatsResponse {
    pub ok: bool,
    pub message: Option<String>,
    pub num_rooms: i32,
    pub num_riddles: i32,
    pub max_score: i32,
}

/// The refusal of a login that lacks its second factor, with the factors
/// that the user has set up.
#[derive(Debug)]
pub struct SecondFactorRequiredResponse {
    pub ok: bool,
    pub message: String,
    pub second_factors: Vec<SecondFactor>,
}

/// A request to begin the registration of a security key.
#[derive(Debug)]
pub struct WebAuthnRegisterStartRequest {
    pub username: String,
}

/// The answer to the registration of a security key.
#[derive(Debug)]
pub struct WebAuthnRegisterFinishResponse {
    pub ok: bool,
    pub message: Option<String>,
}

/// The answer to a change of a user's role.
#[derive(Debug)]
pub struct PromoteUserResponse {
    pub ok: bool,
    pub message: Option<String>,
    pub username: String,
    pub role: Role,
}

impl StatusResponse {
    /// The answer to a request that went well.
    pub fn good() -> (r: StatusResponse)
        ensures
            r.ok,
            r.message is None,
    {
        StatusResponse { ok: true, message: None }
    }

    /// The answer to a request that went wrong, with the words for it.
    pub fn bad(message: Option<String>) -> (r: StatusResponse)
        ensures
            !r.ok,
            r.message == message,
    {
        StatusResponse { ok: false, message }
    }
}

} // verus!
