//! Logging in and looking at oneself: the password, the second factor, and
//! what a user is shown of their own account.

use crate::auth::{JwtSecretKey, Role};
use crate::clock::unix_now;
use crate::db::{DB, DBView};
use crate::error::Error;
use crate::ident::Oid;
use crate::model::{
    RiddleAttempt, RoomView, SecondFactor, Timestamp, User, UserView, text_view, texts_view,
};
use crate::passwd::{Password, argon2_verified};
use crate::responses::{
    RoomResponse, SecondFactorRequiredResponse, TotpResponseRaw, UserLoginRequest, UserTotpRequest,
    UserWhoamiResponse,
};
use crate::tokens::{create_jwt_at, issued_token};
use crate::totp::{check_totp, seconds_of, totp_accepted, totp_seconds};
use vstd::prelude::*;
use vstd::string::StringExecFns;

verus! {

/// What an authenticator app is told, as it is shown.
pub struct TotpResponseRawView {
    pub qrcode: Seq<u8>,
    pub secret: Seq<char>,
    pub hash: Seq<char>,
    pub interval: u32,
    pub digits: u32,
}

impl View for TotpResponseRaw {
    type V = TotpResponseRawView;

    open spec fn view(&self) -> TotpResponseRawView {
        TotpResponseRawView {
            qrcode: self.qrcode@,
            secret: self.secret@,
            hash: self.hash@,
            interval: self.interval,
            digits: self.digits,
        }
    }
}

/// The view of what an authenticator app is told, if anything.
pub open spec fn totp_view(o: Option<TotpResponseRaw>) -> Option<TotpResponseRawView> {
    match o {
        Some(t) => Some(t@),
        None => None,
    }
}

/// The view of an optional list of texts.
pub open spec fn keys_view(o: Option<Vec<String>>) -> Option<Seq<Seq<char>>> {
    match o {
        Some(v) => Some(texts_view(v@)),
        None => None,
    }
}

/// A user as they are shown to themselves.
pub struct WhoamiView {
    pub ok: bool,
    pub message: Option<Seq<char>>,
    pub username: Seq<char>,
    pub email: Seq<char>,
    pub role: Role,
    pub activated: bool,
    pub created: Option<Timestamp>,
    pub registered: Option<Timestamp>,
    pub last_login: Option<Timestamp>,
    pub level: u32,
    pub score: i32,
    pub in_room_ok: bool,
    pub in_room_message: Option<Seq<char>>,
    pub in_room: RoomView,
    pub solved: Seq<RiddleAttempt>,
    pub rooms_entered: Seq<Oid>,
    pub jwt: Option<Seq<char>>,
    pub totp: Option<TotpResponseRawView>,
    pub recovery_keys: Option<Seq<Seq<char>>>,
    pub configured_2fa: Seq<SecondFactor>,
}

impl View for UserWhoamiResponse {
    type V = WhoamiView;

    open spec fn view(&self) -> WhoamiView {
        WhoamiView {
            ok: self.ok,
            message: text_view(self.message),
            username: self.username@,
            email: self.email@,
            role: self.role,
            activated: self.activated,
            created: self.created,
            registered: self.registered,
            last_login: self.last_login,
            level: self.level,
            score: self.score,
            in_room_ok: self.in_room.ok,
            in_room_message: text_view(self.in_room.message),
            in_room: self.in_room.room(),
            solved: self.solved@,
            rooms_entered: self.rooms_entered@,
            jwt: text_view(self.jwt),
            totp: totp_view(self.totp),
            recovery_keys: keys_view(self.recovery_keys),
            configured_2fa: self.configured_2fa@,
        }
    }
}

/// What a user is shown of themselves: their account and their progress,
/// the room in which they stand, and, where there are any, a token, the
/// secret for one-time passwords, and recovery keys.
pub open spec fn whoami(
    user: UserView,
    room: RoomView,
    jwt: Option<Seq<char>>,
    totp: Option<TotpResponseRawView>,
    recovery_keys: Option<Seq<Seq<char>>>,
    configured_2fa: Seq<SecondFactor>,
) -> WhoamiView {
    WhoamiView {
        ok: true,
        message: None,
        username: user.username,
        email: user.email,
        role: user.role,
        activated: user.activated,
        created: user.created,
        registered: user.registered,
        last_login: user.last_login,
        level: user.level,
        score: user.score,
        in_room_ok: true,
        in_room_message: None,
        in_room: room,
        solved: user.solved,
        rooms_entered: user.rooms_entered,
        jwt,
        totp,
        recovery_keys,
        configured_2fa,
    }
}

/// What a user is shown of themselves, with the room as a response shows it:
/// found or not, and with its words.
pub open spec fn in_room_of(shown: WhoamiView, in_room: RoomResponse) -> WhoamiView {
    WhoamiView {
        in_room_ok: in_room.ok,
        in_room_message: text_view(in_room.message),
        in_room: in_room.room(),
        ..shown
    }
}

impl UserWhoamiResponse {
    /// Shows a user to themselves, in the room that `in_room` shows.
    pub fn of(
        user: User,
        in_room: RoomResponse,
        jwt: Option<String>,
        totp: Option<TotpResponseRaw>,
        recovery_keys: Option<Vec<String>>,
        configured_2fa: Vec<SecondFactor>,
    ) -> (r: UserWhoamiResponse)
        ensures
            r@ == in_room_of(
                whoami(
                    user@,
                    in_room.room(),
                    text_view(jwt),
                    totp_view(totp),
                    keys_view(recovery_keys),
                    configured_2fa@,
                ),
                in_room,
            ),
    {
        UserWhoamiResponse {
            ok: true,
            message: None,
            username: user.username,
            email: user.email,
            role: user.role,
            activated: user.activated,
            created: user.created,
            registered: user.registered,
            last_login: user.last_login,
            level: user.level,
            score: user.score,
            in_room,
            solved: user.solved,
            rooms_entered: user.rooms_entered,
            jwt,
            totp,
            recovery_keys,
            configured_2fa,
        }
    }
}

/// The second factors that a user has set up: the one-time password where
/// they have a secret for it, and the security key where they have
/// registered one. `keys_first` says which of the two is named first.
pub open spec fn configured_factors(user: UserView, keys_first: bool) -> Seq<SecondFactor> {
    let totp = if user.totp_key.len() > 0 {
        seq![SecondFactor::Totp]
    } else {
        Seq::empty()
    };
    let keys = if user.webauthn.credentials.len() > 0 {
        seq![SecondFactor::Fido2]
    } else {
        Seq::empty()
    };
    if keys_first {
        keys + totp
    } else {
        totp + keys
    }
}

/// Lists the second factors that a user has set up.
pub fn list_configured_factors(user: &User, keys_first: bool) -> (r: Vec<SecondFactor>)
    ensures
        r@ == configured_factors(user@, keys_first),
{
    let mut configured: Vec<SecondFactor> = Vec::new();
    let has_totp = user.totp_key.len() > 0;
    let has_keys = user.webauthn.credentials.len() > 0;
    assert(user@.webauthn.credentials.len() == user.webauthn.credentials@.len());
    if keys_first {
        if has_keys {
            configured.push(SecondFactor::Fido2);
        }
        if has_totp {
            configured.push(SecondFactor::Totp);
        }
    } else {
        if has_totp {
            configured.push(SecondFactor::Totp);
        }
        if has_keys {
            configured.push(SecondFactor::Fido2);
        }
    }
    assert(configured@ =~= configured_factors(user@, keys_first));
    configured
}

impl DBView {
    /// The room in which a user stands as the store holds it, or the error
    /// `missing` where the user stands nowhere and `RoomNotFoundError` where
    /// the store does not hold the room.
    pub open spec fn room_shown(self, user: UserView, missing: Error) -> Result<RoomView, Error> {
        match user.in_room {
            None => Err(missing),
            Some(room_id) => match self.room_at(room_id) {
                None => Err(Error::RoomNotFoundError),
                Some(r) => Ok(self.rooms[r]),
            },
        }
    }

    /// What the user of that name is shown of themselves.
    pub open spec fn whoami_of(self, username: Seq<char>) -> Result<WhoamiView, Error> {
        match self.user_named(username) {
            None => Err(Error::UserNotFoundError),
            Some(u) => match self.room_shown(self.users[u], Error::RoomNotFoundError) {
                Err(e) => Err(e),
                Ok(room) => Ok(
                    whoami(
                        self.users[u],
                        room,
                        None,
                        None,
                        None,
                        configured_factors(self.users[u], false),
                    ),
                ),
            },
        }
    }
}

impl DB {
    /// Shows the room with that identifier, or fails with
    /// `RoomNotFoundError`.
    pub fn get_room_by_id(&self, room_id: &Oid) -> (r: Result<RoomResponse, Error>)
        ensures
            match self@.room_at(*room_id) {
                Some(i) => r matches Ok(resp) && resp.ok && resp.message is None && resp.room()
                    == self@.rooms[i],
                None => r matches Err(e) && e == Error::RoomNotFoundError,
            },
    {
        match self.get_room(room_id) {
            Ok(room) => Ok(RoomResponse::found(room)),
            Err(e) => Err(e),
        }
    }

    /// Shows the room in which a user stands.
    pub fn show_room_of(&self, user: &User, missing: Error) -> (r: Result<RoomResponse, Error>)
        ensures
            match self@.room_shown(user@, missing) {
                Ok(room) => r matches Ok(resp) && resp.ok && resp.message is None && resp.room()
                    == room,
                Err(e) => r matches Err(x) && x == e,
            },
    {
        match user.in_room {
            Some(room_id) => self.get_room_by_id(&room_id),
            None => Err(missing),
        }
    }
}

/// Shows the user `username` to themselves.
pub fn user_whoami_handler(username: String, db: &DB) -> (r: Result<UserWhoamiResponse, Error>)
    ensures
        match db@.whoami_of(username@) {
            Ok(shown) => r matches Ok(resp) && resp@ == shown,
            Err(e) => r matches Err(x) && x == e,
        },
{
    let user = match db.get_user(&username) {
        Ok(user) => user,
        Err(e) => {
            return Err(e);
        },
    };
    let room_response = match db.show_room_of(&user, Error::RoomNotFoundError) {
        Ok(room_response) => room_response,
        Err(e) => {
            return Err(e);
        },
    };
    let configured_2fa = list_configured_factors(&user, false);
    Ok(UserWhoamiResponse::of(user, room_response, None, None, None, configured_2fa))
}

/// The words that refuse a login for want of a second factor.
pub open spec fn second_factor_required() -> Seq<char> {
    "second factor required"@
}

impl SecondFactorRequiredResponse {
    /// The refusal of a login that owes second factors.
    pub fn owing(second_factors: Vec<SecondFactor>) -> (r: SecondFactorRequiredResponse)
        ensures
            !r.ok,
            r.message@ == second_factor_required(),
            r.second_factors == second_factors,
    {
        SecondFactorRequiredResponse {
            ok: false,
            message: String::from_str("second factor required"),
            second_factors,
        }
    }
}

/// The answer to a login: the user, logged in, or the second factors of
/// which one is still owed.
#[derive(Debug)]
pub enum LoginResponse {
    LoggedIn(UserWhoamiResponse),
    SecondFactorRequired(SecondFactorRequiredResponse),
}

/// The answer to a login, as it is shown.
pub enum LoginView {
    LoggedIn(WhoamiView),
    SecondFactorRequired(Seq<SecondFactor>),
}

/// What a login with a password comes to, given what the checks of the
/// password and of the one-time password have said: the second factors that
/// are still owed, none where the user is to be let in. `password_verdict`
/// says whether the password is the user's, and is `None` where the stored
/// hash cannot be read; `totp_verdict` says of a one-time password that was
/// sent whether it is the one of now, and is `None` where none was sent. A
/// user with a secret for one-time passwords who sends one must send the
/// right one, and owes one where they send none; a user with a security key
/// owes the key.
pub open spec fn first_step_given(
    user: UserView,
    password_verdict: Option<bool>,
    totp_verdict: Option<bool>,
) -> Result<Seq<SecondFactor>, Error> {
    let has_totp = user.totp_key.len() > 0;
    let has_keys = user.webauthn.credentials.len() > 0;
    match password_verdict {
        None => Err(Error::HashingError),
        Some(false) => Err(Error::WrongCredentialsError),
        Some(true) => if has_totp && totp_verdict == Some(false) {
            Err(Error::WrongCredentialsError)
        } else {
            Ok(
                (if has_totp && totp_verdict is None {
                    seq![SecondFactor::Totp]
                } else {
                    Seq::empty()
                }) + (if has_keys {
                    seq![SecondFactor::Fido2]
                } else {
                    Seq::empty()
                }),
            )
        },
    }
}

/// What is said at `now` of a one-time password that a user sends with their
/// password: whether it is the one of now; `None` where none is sent.
pub open spec fn sent_totp_verdict(user: UserView, totp: Option<Seq<char>>, now: Timestamp) -> Option<
    bool,
> {
    match totp {
        Some(t) => Some(totp_accepted(t, user.totp_key, totp_seconds(now), false)),
        None => None,
    }
}

/// What a login with a password comes to at `now`: the second factors that
/// are still owed, none where the user is to be let in.
pub open spec fn first_step(
    user: UserView,
    password: Seq<char>,
    totp: Option<Seq<char>>,
    now: Timestamp,
) -> Result<Seq<SecondFactor>, Error> {
    first_step_given(
        user,
        argon2_verified(user.hash, password),
        sent_totp_verdict(user, totp, now),
    )
}

/// What a one-time password comes to, sent after the password was accepted,
/// given whether it was found right: the second factors that the user has
/// set up. The user must await a second factor; where they have a secret for
/// one-time passwords, the password sent must be right.
pub open spec fn second_step_given(user: UserView, accepted: bool) -> Result<
    Seq<SecondFactor>,
    Error,
> {
    if !user.awaiting_second_factor {
        Err(Error::PointlessTotpError)
    } else if user.totp_key.len() > 0 && !accepted {
        Err(Error::WrongCredentialsError)
    } else {
        Ok(configured_factors(user, true))
    }
}

/// What a one-time password comes to at `now`, sent after the password was
/// accepted: it is right where it is the one of now or of thirty seconds
/// ago.
pub open spec fn second_step(user: UserView, totp: Seq<char>, now: Timestamp) -> Result<
    Seq<SecondFactor>,
    Error,
> {
    second_step_given(user, totp_accepted(totp, user.totp_key, totp_seconds(now), true))
}

/// Decides what a login with a password comes to, given what the checks of
/// the password and of the one-time password have said.
pub fn decide_login_given(
    user: &User,
    password_verdict: Option<bool>,
    totp_verdict: Option<bool>,
) -> (r: Result<Vec<SecondFactor>, Error>)
    ensures
        match first_step_given(user@, password_verdict, totp_verdict) {
            Ok(owed) => r matches Ok(o) && o@ == owed,
            Err(e) => r matches Err(x) && x == e,
        },
{
    match password_verdict {
        None => {
            return Err(Error::HashingError);
        },
        Some(false) => {
            return Err(Error::WrongCredentialsError);
        },
        Some(true) => {},
    }
    let mut owed: Vec<SecondFactor> = Vec::new();
    if user.totp_key.len() > 0 {
        match totp_verdict {
            Some(false) => {
                return Err(Error::WrongCredentialsError);
            },
            Some(true) => {},
            None => {
                owed.push(SecondFactor::Totp);
            },
        }
    }
    assert(user@.webauthn.credentials.len() == user.webauthn.credentials@.len());
    if user.webauthn.credentials.len() > 0 {
        owed.push(SecondFactor::Fido2);
    }
    assert(owed@ =~= first_step_given(user@, password_verdict, totp_verdict).unwrap());
    Ok(owed)
}

/// Decides what a one-time password comes to, sent after the password was
/// accepted, given whether it was found right.
pub fn decide_totp_login_given(user: &User, accepted: bool) -> (r: Result<
    Vec<SecondFactor>,
    Error,
>)
    ensures
        match second_step_given(user@, accepted) {
            Ok(factors) => r matches Ok(f) && f@ == factors,
            Err(e) => r matches Err(x) && x == e,
        },
{
    if !user.awaiting_second_factor {
        return Err(Error::PointlessTotpError);
    }
    if user.totp_key.len() > 0 && !accepted {
        return Err(Error::WrongCredentialsError);
    }
    Ok(list_configured_factors(user, true))
}

/// Decides what a login with a password comes to at `now`: checks the
/// password against the stored hash and a one-time password that was sent
/// against the secret, and decides on what they say.
pub fn decide_login(user: &User, password: &String, totp: &Option<String>, now: Timestamp) -> (r:
    Result<Vec<SecondFactor>, Error>)
    ensures
        match first_step(user@, password@, text_view(*totp), now) {
            Ok(owed) => r matches Ok(o) && o@ == owed,
            Err(e) => r matches Err(x) && x == e,
        },
{
    let password_verdict = match Password::matches(&user.hash, password) {
        Ok(matches) => Some(matches),
        Err(_) => None,
    };
    let totp_verdict = match totp {
        Some(totp) => Some(check_totp(totp.as_str(), &user.totp_key, seconds_of(now), false)),
        None => None,
    };
    decide_login_given(user, password_verdict, totp_verdict)
}

/// Decides what a one-time password comes to at `now`, sent after the
/// password was accepted.
pub fn decide_totp_login(user: &User, totp: &str, now: Timestamp) -> (r: Result<
    Vec<SecondFactor>,
    Error,
>)
    ensures
        match second_step(user@, totp@, now) {
            Ok(factors) => r matches Ok(f) && f@ == factors,
            Err(e) => r matches Err(x) && x == e,
        },
{
    let accepted = check_totp(totp, &user.totp_key, seconds_of(now), true);
    decide_totp_login_given(user, accepted)
}

impl DBView {
    /// What the user is shown once they are let in at `now`: the store has
    /// the login written, a token is issued to `subject`, and the user sees
    /// themselves in their room. `factors` are the second factors that are
    /// named to them.
    pub open spec fn let_in(
        self,
        user: UserView,
        subject: Seq<char>,
        secret: Seq<u8>,
        now: Timestamp,
        factors: Seq<SecondFactor>,
    ) -> Result<WhoamiView, Error> {
        match issued_token(subject, user.role, secret, now) {
            None => Err(Error::JWTTokenCreationError),
            Some(jwt) => match self.room_shown(user, Error::UserIsInNoRoom) {
                Err(e) => Err(e),
                Ok(room) => Ok(whoami(user, room, Some(jwt), None, None, factors)),
            },
        }
    }

    /// What a one-time password does at `now`, sent after the password was
    /// accepted. The user must exist and await a second factor; where they
    /// have a secret for one-time passwords, the password sent must be the
    /// one of now or of thirty seconds ago. Then the login is written and
    /// they are let in.
    pub open spec fn totp_login(
        self,
        username: Seq<char>,
        totp: Seq<char>,
        secret: Seq<u8>,
        now: Timestamp,
    ) -> (DBView, Result<WhoamiView, Error>) {
        match self.user_named(username) {
            None => (self, Err(Error::UserNotFoundError)),
            Some(u) => {
                let user = self.users[u];
                match second_step(user, totp, now) {
                    Err(e) => (self, Err(e)),
                    Ok(factors) => {
                        let after = self.logged_in(user.username, now);
                        (after, after.let_in(user, user.username, secret, now, factors))
                    },
                }
            },
        }
    }

    /// What a login with a password does at `now`. The user must exist and
    /// the password must be theirs. A user with a secret for one-time
    /// passwords who sends one must send the one of now. A user who has a
    /// security key, or who has that secret and sends no one-time password,
    /// is not let in: the store has it written that they await a second
    /// factor, and they are told which. Every other user is let in.
    pub open spec fn login(
        self,
        username: Seq<char>,
        password: Seq<char>,
        totp: Option<Seq<char>>,
        secret: Seq<u8>,
        now: Timestamp,
    ) -> (DBView, Result<LoginView, Error>) {
        match self.user_named(username) {
            None => (self, Err(Error::UserNotFoundError)),
            Some(u) => {
                let user = self.users[u];
                match first_step(user, password, totp, now) {
                    Err(e) => (self, Err(e)),
                    Ok(owed) => if owed.len() > 0 {
                        (
                            self.awaiting_set(user.id, true),
                            Ok(LoginView::SecondFactorRequired(owed)),
                        )
                    } else {
                        let after = self.logged_in(user.username, now);
                        (
                            after,
                            match after.let_in(user, user.username, secret, now, Seq::empty()) {
                                Ok(shown) => Ok(LoginView::LoggedIn(shown)),
                                Err(e) => Err(e),
                            },
                        )
                    },
                }
            },
        }
    }

    /// What the end of a login with a security key does at `now`, given
    /// whether the key has proved itself. The user must exist and the key
    /// must have proved itself. Then the store has it written that the user
    /// awaits no second factor, and they are let in.
    pub open spec fn webauthn_login(
        self,
        username: Seq<char>,
        proved: bool,
        secret: Seq<u8>,
        now: Timestamp,
    ) -> (DBView, Result<WhoamiView, Error>) {
        match self.user_named(username) {
            None => (self, Err(Error::UserNotFoundError)),
            Some(u) => {
                let user = self.users[u];
                if !proved {
                    (self, Err(Error::WebauthnError))
                } else {
                    let after = self.awaiting_set(user.id, false);
                    (
                        after,
                        after.let_in(user, username, secret, now, configured_factors(user, false)),
                    )
                }
            },
        }
    }
}

impl DB {
    /// Lets a user in at `now`: issues a token to `subject` and shows the
    /// user to themselves.
    pub fn let_in(
        &self,
        user: User,
        subject: &str,
        key: &JwtSecretKey,
        now: Timestamp,
        factors: Vec<SecondFactor>,
    ) -> (r: Result<UserWhoamiResponse, Error>)
        ensures
            match self@.let_in(user@, subject@, key.token@, now, factors@) {
                Ok(shown) => r matches Ok(resp) && resp@ == shown,
                Err(e) => r matches Err(x) && x == e,
            },
    {
        let jwt = match create_jwt_at(subject, &user.role, key, now) {
            Ok(jwt) => jwt,
            Err(e) => {
                return Err(e);
            },
        };
        let room_response = match self.show_room_of(&user, Error::UserIsInNoRoom) {
            Ok(room_response) => room_response,
            Err(e) => {
                return Err(e);
            },
        };
        Ok(UserWhoamiResponse::of(user, room_response, Some(jwt), None, None, factors))
    }
}

/// Takes a one-time password at `now`, sent after the password was accepted.
pub fn user_totp_login_handler_at(
    body: UserTotpRequest,
    db: &mut DB,
    key: &JwtSecretKey,
    now: Timestamp,
) -> (r: Result<UserWhoamiResponse, Error>)
    ensures
        ({
            let (after, outcome) = old(db)@.totp_login(body.username@, body.totp@, key.token@, now);
            &&& final(db)@ == after
            &&& match outcome {
                Ok(shown) => r matches Ok(resp) && resp@ == shown,
                Err(e) => r matches Err(x) && x == e,
            }
        }),
{
    let user = match db.get_user(&body.username) {
        Ok(user) => user,
        Err(e) => {
            return Err(e);
        },
    };
    let configured_2fa = match decide_totp_login(&user, body.totp.as_str(), now) {
        Ok(configured_2fa) => configured_2fa,
        Err(e) => {
            return Err(e);
        },
    };
    let _ = db.login_user_at(&user, now);
    let subject = user.username.clone();
    db.let_in(user, subject.as_str(), key, now, configured_2fa)
}

/// Takes a one-time password at the time that the clock shows.
pub fn user_totp_login_handler(body: UserTotpRequest, db: &mut DB, key: &JwtSecretKey) -> (r:
    Result<UserWhoamiResponse, Error>)
    ensures
        exists|now: Timestamp|
            {
                let (after, outcome) = #[trigger] old(db)@.totp_login(
                    body.username@,
                    body.totp@,
                    key.token@,
                    now,
                );
                &&& final(db)@ == after
                &&& match outcome {
                    Ok(shown) => r matches Ok(resp) && resp@ == shown,
                    Err(e) => r matches Err(x) && x == e,
                }
            },
{
    let now = unix_now();
    user_totp_login_handler_at(body, db, key, now)
}

/// Takes a login with a password at `now`.
pub fn user_login_handler_at(
    body: UserLoginRequest,
    db: &mut DB,
    key: &JwtSecretKey,
    now: Timestamp,
) -> (r: Result<LoginResponse, Error>)
    ensures
        ({
            let (after, outcome) = old(db)@.login(
                body.username@,
                body.password@,
                text_view(body.totp),
                key.token@,
                now,
            );
            &&& final(db)@ == after
            &&& match outcome {
                Ok(LoginView::LoggedIn(shown)) => r matches Ok(LoginResponse::LoggedIn(resp))
                    && resp@ == shown,
                Ok(LoginView::SecondFactorRequired(factors)) => r matches Ok(
                    LoginResponse::SecondFactorRequired(resp),
                ) && !resp.ok && resp.message@ == second_factor_required()
                    && resp.second_factors@ == factors,
                Err(e) => r matches Err(x) && x == e,
            }
        }),
{
    let user = match db.get_user(&body.username) {
        Ok(user) => user,
        Err(e) => {
            return Err(e);
        },
    };
    let owed = match decide_login(&user, &body.password, &body.totp, now) {
        Ok(owed) => owed,
        Err(e) => {
            return Err(e);
        },
    };
    if owed.len() > 0 {
        let _ = db.set_user_awaiting_2fa(&user, true);
        Ok(LoginResponse::SecondFactorRequired(SecondFactorRequiredResponse::owing(owed)))
    } else {
        let _ = db.login_user_at(&user, now);
        let subject = user.username.clone();
        assert(owed@ =~= Seq::empty());
        match db.let_in(user, subject.as_str(), key, now, owed) {
            Ok(resp) => Ok(LoginResponse::LoggedIn(resp)),
            Err(e) => Err(e),
        }
    }
}

/// Takes a login with a password at the time that the clock shows.
pub fn user_login_handler(body: UserLoginRequest, db: &mut DB, key: &JwtSecretKey) -> (r: Result<
    LoginResponse,
    Error,
>)
    ensures
        exists|now: Timestamp|
            {
                let (after, outcome) = #[trigger] old(db)@.login(
                    body.username@,
                    body.password@,
                    text_view(body.totp),
                    key.token@,
                    now,
                );
                &&& final(db)@ == after
                &&& match outcome {
                    Ok(LoginView::LoggedIn(shown)) => r matches Ok(LoginResponse::LoggedIn(resp))
                        && resp@ == shown,
                    Ok(LoginView::SecondFactorRequired(factors)) => r matches Ok(
                        LoginResponse::SecondFactorRequired(resp),
                    ) && !resp.ok && resp.message@ == second_factor_required()
                        && resp.second_factors@ == factors,
                    Err(e) => r matches Err(x) && x == e,
                }
            },
{
    let now = unix_now();
    user_login_handler_at(body, db, key, now)
}

/// Ends a login with a security key at `now`. `proved` says whether the key
/// has proved itself.
pub fn webauthn_login_finish_handler_at(
    username: String,
    proved: bool,
    db: &mut DB,
    key: &JwtSecretKey,
    now: Timestamp,
) -> (r: Result<UserWhoamiResponse, Error>)
    ensures
        ({
            let (after, outcome) = old(db)@.webauthn_login(username@, proved, key.token@, now);
            &&& final(db)@ == after
            &&& match outcome {
                Ok(shown) => r matches Ok(resp) && resp@ == shown,
                Err(e) => r matches Err(x) && x == e,
            }
        }),
{
    let user = match db.get_user(&username) {
        Ok(user) => user,
        Err(e) => {
            return Err(e);
        },
    };
    if !proved {
        return Err(Error::WebauthnError);
    }
    let _ = db.set_user_awaiting_2fa(&user, false);
    let configured_2fa = list_configured_factors(&user, false);
    db.let_in(user, username.as_str(), key, now, configured_2fa)
}

/// Ends a login with a security key at the time that the clock shows.
pub fn webauthn_login_finish_handler(
    username: String,
    proved: bool,
    db: &mut DB,
    key: &JwtSecretKey,
) -> (r: Result<UserWhoamiResponse, Error>)
    ensures
        exists|now: Timestamp|
            {
                let (after, outcome) = #[trigger] old(db)@.webauthn_login(
                    username@,
                    proved,
                    key.token@,
                    now,
                );
                &&& final(db)@ == after
                &&& match outcome {
                    Ok(shown) => r matches Ok(resp) && resp@ == shown,
                    Err(e) => r matches Err(x) && x == e,
                }
            },
{
    let now = unix_now();
    webauthn_login_finish_handler_at(username, proved, db, key, now)
}

} // verus!
