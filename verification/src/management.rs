//! What users do with their accounts once they have them: activating them,
//! changing the password, switching one-time passwords on and off, and, for
//! admins, giving roles.

use crate::activation::recovery_keys;
use crate::auth::{JwtSecretKey, Role};
use crate::clock::unix_now;
use crate::db::{DB, DBView};
use crate::error::Error;
use crate::model::{RoomView, SecondFactor, Timestamp, User, UserView};
use crate::passwd::{BadPasswords, check_new_password, password_hash, password_refusal};
use crate::random::{draw_key_words, random_bytes};
use crate::responses::{
    PromoteUserResponse, RoomResponse, StatusResponse, TotpResponse, TotpResponseRaw,
    UserActivationRequest, UserPasswordChangeRequest, UserWhoamiResponse,
};
use crate::sessions::{TotpResponseRawView, WhoamiView, in_room_of, whoami};
use crate::text::{percent_decode, percent_decoded, str_eq};
use crate::tokens::{create_jwt_at, issued_token};
use crate::totp::{base32_unpadded, generate_otp_qrcode, otp_uri, qr_png, qr_size};
use vstd::prelude::*;

verus! {

/// What an authenticator app is told of a secret: the secret as text and as
/// a picture, or `None` where no picture can be made.
pub open spec fn totp_offer(issuer: Seq<char>, username: Seq<char>, key: Seq<u8>) -> Option<
    TotpResponseRawView,
> {
    match qr_png(otp_uri(issuer, username, base32_unpadded(key)), qr_size()) {
        Some(picture) => Some(
            TotpResponseRawView {
                qrcode: picture,
                secret: base32_unpadded(key),
                hash: TotpResponseRaw::hash_name(),
                interval: 30,
                digits: 6,
            },
        ),
        None => None,
    }
}

/// Makes what an authenticator app is told of a secret, or fails with
/// `TotpQrCodeGenerationError`.
pub fn offer_totp(issuer: &str, username: &String, key: &Vec<u8>) -> (r: Result<
    TotpResponseRaw,
    Error,
>)
    ensures
        match totp_offer(issuer@, username@, key@) {
            Some(offer) => r matches Ok(t) && t@ == offer,
            None => r matches Err(e) && e == Error::TotpQrCodeGenerationError,
        },
{
    match generate_otp_qrcode(issuer, username, key) {
        Ok((secret, qrcode)) => Ok(TotpResponseRaw::new(qrcode, secret)),
        Err(e) => Err(e),
    }
}

/// Who is to be given which role, once the name and the role that a request
/// gives are free of their percent-escapes: the role of that name, and
/// nobody changes their own role.
pub open spec fn promotion_of(target: Seq<char>, role: Seq<char>, username: Seq<char>) -> Result<
    (Seq<char>, Role),
    Error,
> {
    if target == username {
        Err(Error::UserCannotChangeOwnRoleError)
    } else {
        Ok((target, Role::named(role)))
    }
}

/// Who is to be given which role, as a request names them: the name and the
/// role come percent-escaped.
pub open spec fn promotion_target(
    user_to_promote: Seq<char>,
    role: Seq<char>,
    username: Seq<char>,
) -> Result<(Seq<char>, Role), Error> {
    promotion_of(percent_decoded(user_to_promote), percent_decoded(role), username)
}

/// Decides who is to be given which role, once the name and the role are
/// free of their percent-escapes.
pub fn decide_promotion(target: String, role: &str, username: &str) -> (r: Result<
    (String, Role),
    Error,
>)
    ensures
        match promotion_of(target@, role@, username@) {
            Ok((name, given)) => r matches Ok((n, g)) && n@ == name && g == given,
            Err(e) => r matches Err(x) && x == e,
        },
{
    let role = Role::from_str(role);
    if str_eq(target.as_str(), username) {
        return Err(Error::UserCannotChangeOwnRoleError);
    }
    Ok((target, role))
}

/// Reads from a request who is to be given which role.
pub fn read_promotion(user_to_promote: &str, role: &str, username: &str) -> (r: Result<
    (String, Role),
    Error,
>)
    ensures
        match promotion_target(user_to_promote@, role@, username@) {
            Ok((name, given)) => r matches Ok((n, g)) && n@ == name && g == given,
            Err(e) => r matches Err(x) && x == e,
        },
{
    let target = percent_decode(user_to_promote);
    let role_name = percent_decode(role);
    decide_promotion(target, role_name.as_str(), username)
}

/// Why a role is not given, if it is not: it does not rank above the role
/// that the user has, or the giver is no admin.
pub open spec fn promotion_refusal(role: Role, current: Role, giver: Role) -> Option<Error> {
    if role.rank() <= current.rank() {
        Some(Error::CannotChangeToSameRole)
    } else if giver != Role::Admin {
        Some(Error::UnsufficentRightsError)
    } else {
        None
    }
}

/// Decides whether a giver may give a role to a user who has the role
/// `current`.
pub fn check_promotion(role: &Role, current: &Role, giver: &Role) -> (r: Result<(), Error>)
    ensures
        match promotion_refusal(*role, *current, *giver) {
            Some(e) => r matches Err(x) && x == e,
            None => r is Ok,
        },
{
    if role.le(current) {
        return Err(Error::CannotChangeToSameRole);
    }
    if *giver != Role::Admin {
        return Err(Error::UnsufficentRightsError);
    }
    Ok(())
}

/// What a user is shown once they are activated: themselves in their first
/// room, with their token and their recovery keys and, where they have a
/// secret for one-time passwords, with what their authenticator app needs.
pub open spec fn activated_shown(
    user: UserView,
    room: RoomView,
    jwt: Seq<char>,
    issuer: Seq<char>,
) -> Result<WhoamiView, Error> {
    if user.totp_key.len() == 0 {
        Ok(whoami(user, room, Some(jwt), None, Some(user.recovery_keys), Seq::empty()))
    } else {
        match totp_offer(issuer, user.username, user.totp_key) {
            None => Err(Error::TotpQrCodeGenerationError),
            Some(offer) => Ok(
                whoami(
                    user,
                    room,
                    Some(jwt),
                    Some(offer),
                    Some(user.recovery_keys),
                    seq![SecondFactor::Totp],
                ),
            ),
        }
    }
}

/// Shows an activated user to themselves, or fails with
/// `TotpQrCodeGenerationError`.
pub fn show_activated(user: User, room_response: RoomResponse, jwt: String, issuer: &str) -> (r:
    Result<UserWhoamiResponse, Error>)
    ensures
        match activated_shown(user@, room_response.room(), jwt@, issuer@) {
            Ok(shown) => r matches Ok(resp) && resp@ == in_room_of(shown, room_response),
            Err(e) => r matches Err(x) && x == e,
        },
{
    let mut configured_2fa: Vec<SecondFactor> = Vec::new();
    let totp = if user.totp_key.len() == 0 {
        None
    } else {
        configured_2fa.push(SecondFactor::Totp);
        match offer_totp(issuer, &user.username, &user.totp_key) {
            Ok(offer) => Some(offer),
            Err(e) => {
                return Err(e);
            },
        }
    };
    let recovery_keys = user.recovery_keys.clone();
    assert(crate::model::texts_view(recovery_keys@) =~= user@.recovery_keys);
    assert(user.totp_key@.len() == 0 ==> configured_2fa@ =~= Seq::empty());
    assert(user.totp_key@.len() != 0 ==> configured_2fa@ =~= seq![SecondFactor::Totp]);
    Ok(
        UserWhoamiResponse::of(
            user,
            room_response,
            Some(jwt),
            totp,
            Some(recovery_keys),
            configured_2fa,
        ),
    )
}

impl DBView {
    /// What a change of password does: a password shorter than eight bytes
    /// or known to be bad is refused; else it is hashed with the salt and the
    /// hash is written to the first activated user of that name.
    pub open spec fn change_password(
        self,
        username: Seq<char>,
        password: Seq<char>,
        bad_digests: Seq<u128>,
        salt: Seq<u8>,
    ) -> (DBView, Result<(), Error>) {
        match password_refusal(password, bad_digests) {
            Some(e) => (self, Err(e)),
            None => match password_hash(password, salt) {
                Some(h) => (self.hash_set(username, h), Ok(())),
                None => (self, Err(Error::HashingError)),
            },
        }
    }

    /// What an admin's gift of a role does. The names come percent-escaped.
    /// Nobody changes their own role; both users must exist; the new role
    /// must rank above the old one; and the giver must be an admin. Then the
    /// role is written to the first activated user of the name.
    pub open spec fn promote(
        self,
        user_to_promote: Seq<char>,
        role_text: Seq<char>,
        username: Seq<char>,
    ) -> (DBView, Result<(Seq<char>, Role), Error>) {
        let target = percent_decoded(user_to_promote);
        let role = Role::named(percent_decoded(role_text));
        if promotion_target(user_to_promote, role_text, username) is Err {
            (self, Err(Error::UserCannotChangeOwnRoleError))
        } else {
            match (self.user_named(target), self.user_named(username)) {
                (None, _) => (self, Err(Error::UserNotFoundError)),
                (_, None) => (self, Err(Error::UserNotFoundError)),
                (Some(t), Some(u)) => match promotion_refusal(
                    role,
                    self.users[t].role,
                    self.users[u].role,
                ) {
                    Some(e) => (self, Err(e)),
                    None => match self.player_named(target) {
                        None => (self, Err(Error::UserNotFoundError)),
                        Some(p) => if self.users[p].role == role {
                            (self, Err(Error::CannotPromoteUserError))
                        } else {
                            (self.role_set(target, role), Ok((target, role)))
                        },
                    },
                },
            }
        }
    }

    /// What an activation with a pin does at `now`. A user of that name who
    /// is not activated must hold the pin. They are activated, with recovery
    /// keys that the random `words` spell, and the store is told. Then a token
    /// is issued, and they are shown themselves in their first room, with
    /// their recovery keys and, where they have a secret for one-time
    /// passwords, with what their authenticator app needs.
    pub open spec fn activate_with_pin(
        self,
        username: Seq<char>,
        pin: u32,
        secret: Seq<u8>,
        issuer: Seq<char>,
        now: Timestamp,
        words: Seq<u32>,
    ) -> (DBView, Result<WhoamiView, Error>) {
        match self.user_pending(username, pin) {
            None => (self, Err(Error::UserNotFoundError)),
            Some(u) => {
                let (after, outcome) = self.activate(self.users[u], now, words);
                match outcome {
                    Err(e) => (after, Err(e)),
                    Ok(user) => (
                        after,
                        match after.room_shown(user, Error::UserIsInNoRoom) {
                            Err(e) => Err(e),
                            Ok(room) => match issued_token(user.username, user.role, secret, now) {
                                None => Err(Error::JWTTokenCreationError),
                                Some(jwt) => activated_shown(user, room, jwt, issuer),
                            },
                        },
                    ),
                }
            },
        }
    }
}

/// Changes the password of the user `username`, with a salt that is given.
pub fn user_password_change_handler_with(
    username: String,
    body: UserPasswordChangeRequest,
    db: &mut DB,
    bad_digests: &BadPasswords,
    salt: &Vec<u8>,
) -> (r: Result<StatusResponse, Error>)
    ensures
        ({
            let (after, outcome) = old(db)@.change_password(
                username@,
                body.password@,
                bad_digests@,
                salt@,
            );
            &&& final(db)@ == after
            &&& match outcome {
                Ok(()) => r matches Ok(resp) && resp.ok && resp.message is None,
                Err(e) => r matches Err(x) && x == e,
            }
        }),
{
    match check_new_password(&body.password, bad_digests) {
        Ok(()) => {},
        Err(e) => {
            return Err(e);
        },
    }
    match db.set_user_password_with_salt(&username, &body.password, salt) {
        Ok(()) => {},
        Err(e) => {
            return Err(e);
        },
    }
    Ok(StatusResponse::good())
}

/// Changes the password of the user `username`, with a salt drawn at random.
pub fn user_password_change_handler(
    username: String,
    body: UserPasswordChangeRequest,
    db: &mut DB,
    bad_digests: &BadPasswords,
) -> (r: Result<StatusResponse, Error>)
    ensures
        exists|salt: Seq<u8>|
            {
                let (after, outcome) = #[trigger] old(db)@.change_password(
                    username@,
                    body.password@,
                    bad_digests@,
                    salt,
                );
                &&& salt.len() == 16
                &&& final(db)@ == after
                &&& match outcome {
                    Ok(()) => r matches Ok(resp) && resp.ok && resp.message is None,
                    Err(e) => r matches Err(x) && x == e,
                }
            },
{
    let salt = random_bytes(16);
    user_password_change_handler_with(username, body, db, bad_digests, &salt)
}

/// Gives the user `user_to_promote` the role `role`, on the word of the user
/// `username`.
pub fn promote_user_handler(user_to_promote: String, role: String, username: String, db: &mut DB) -> (r:
    Result<PromoteUserResponse, Error>)
    ensures
        ({
            let (after, outcome) = old(db)@.promote(user_to_promote@, role@, username@);
            &&& final(db)@ == after
            &&& match outcome {
                Ok((name, given)) => r matches Ok(resp) && resp.ok && resp.message is None
                    && resp.username@ == name && resp.role == given,
                Err(e) => r matches Err(x) && x == e,
            }
        }),
{
    let (user_to_promote, role) = match read_promotion(
        user_to_promote.as_str(),
        role.as_str(),
        username.as_str(),
    ) {
        Ok(target) => target,
        Err(e) => {
            return Err(e);
        },
    };
    let current_role = match db.get_user_role(&user_to_promote) {
        Ok(role) => role,
        Err(e) => {
            return Err(e);
        },
    };
    let user = match db.get_user(&username) {
        Ok(user) => user,
        Err(e) => {
            return Err(e);
        },
    };
    match check_promotion(&role, &current_role, &user.role) {
        Ok(()) => {},
        Err(e) => {
            return Err(e);
        },
    }
    match db.promote_user(&user_to_promote, &role) {
        Ok(()) => {},
        Err(e) => {
            return Err(e);
        },
    }
    Ok(PromoteUserResponse { ok: true, message: None, username: user_to_promote, role })
}

/// Gives the user `username` the secret `key` for one-time passwords, and
/// tells their authenticator app of it, under the name of `issuer`. The
/// secret is written even where the app cannot be told.
pub fn user_totp_enable_handler_with(username: String, db: &mut DB, issuer: &str, key: Vec<u8>) -> (r:
    Result<TotpResponse, Error>)
    ensures
        final(db)@ == old(db)@.totp_key_set(old(db)@.user_named(username@), key@),
        match totp_offer(issuer@, username@, key@) {
            Some(offer) => r matches Ok(resp) && resp.ok && resp.message is None && resp.totp@
                == offer,
            None => r matches Err(e) && e == Error::TotpQrCodeGenerationError,
        },
{
    let _ = db.set_totp_key(&username, &key);
    match offer_totp(issuer, &username, &key) {
        Ok(totp) => Ok(TotpResponse { ok: true, message: None, totp }),
        Err(e) => Err(e),
    }
}

/// Gives the user `username` a secret of thirty-two bytes drawn at random
/// for one-time passwords.
pub fn user_totp_enable_handler(username: String, db: &mut DB, issuer: &str) -> (r: Result<
    TotpResponse,
    Error,
>)
    ensures
        exists|key: Seq<u8>|
            {
                &&& key.len() == 32
                &&& final(db)@ == #[trigger] old(db)@.totp_key_set(
                    old(db)@.user_named(username@),
                    key,
                )
                &&& match totp_offer(issuer@, username@, key) {
                    Some(offer) => r matches Ok(resp) && resp.ok && resp.message is None
                        && resp.totp@ == offer,
                    None => r matches Err(e) && e == Error::TotpQrCodeGenerationError,
                }
            },
{
    let key = random_bytes(32);
    user_totp_enable_handler_with(username, db, issuer, key)
}

/// Takes the secret for one-time passwords from the user `username`.
pub fn user_totp_disable_handler(username: String, db: &mut DB) -> (r: Result<
    StatusResponse,
    Error,
>)
    ensures
        final(db)@ == old(db)@.totp_key_set(old(db)@.player_named(username@), Seq::empty()),
        r matches Ok(resp) && resp.ok && resp.message is None,
{
    let _ = db.unset_totp_key(&username);
    Ok(StatusResponse::good())
}

/// Activates an account with its pin at `now`, with recovery keys that the
/// random `words` spell.
pub fn user_activation_handler_with(
    body: UserActivationRequest,
    db: &mut DB,
    key: &JwtSecretKey,
    issuer: &str,
    now: Timestamp,
    words: &[u32; 160],
) -> (r: Result<UserWhoamiResponse, Error>)
    ensures
        ({
            let (after, outcome) = old(db)@.activate_with_pin(
                body.username@,
                body.pin,
                key.token@,
                issuer@,
                now,
                words@,
            );
            &&& final(db)@ == after
            &&& match outcome {
                Ok(shown) => r matches Ok(resp) && resp@ == shown,
                Err(e) => r matches Err(x) && x == e,
            }
        }),
{
    let mut user = match db.get_user_with_pin(&body.username, body.pin) {
        Ok(user) => user,
        Err(e) => {
            return Err(e);
        },
    };
    match db.activate_user_with(&mut user, now, words) {
        Ok(()) => {},
        Err(e) => {
            return Err(e);
        },
    }
    let room_response = match db.show_room_of(&user, Error::UserIsInNoRoom) {
        Ok(room_response) => room_response,
        Err(e) => {
            return Err(e);
        },
    };
    let jwt = match create_jwt_at(user.username.as_str(), &user.role, key, now) {
        Ok(jwt) => jwt,
        Err(e) => {
            return Err(e);
        },
    };
    show_activated(user, room_response, jwt, issuer)
}

/// Activates an account with its pin at the time that the clock shows, with
/// recovery keys drawn at random.
pub fn user_activation_handler(
    body: UserActivationRequest,
    db: &mut DB,
    key: &JwtSecretKey,
    issuer: &str,
) -> (r: Result<UserWhoamiResponse, Error>)
    ensures
        exists|now: Timestamp, words: Seq<u32>|
            {
                let (after, outcome) = #[trigger] old(db)@.activate_with_pin(
                    body.username@,
                    body.pin,
                    key.token@,
                    issuer@,
                    now,
                    words,
                );
                &&& words.len() == 160
                &&& final(db)@ == after
                &&& match outcome {
                    Ok(shown) => r matches Ok(resp) && resp@ == shown,
                    Err(e) => r matches Err(x) && x == e,
                }
            },
{
    let now = unix_now();
    let words = draw_key_words();
    user_activation_handler_with(body, db, key, issuer, now, &words)
}

} // verus!
