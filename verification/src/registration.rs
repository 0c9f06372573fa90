//! Registering: what a new account must look like, the pin that activates
//! it, and the mail that carries the pin.

use crate::activation::fresh_user;
use crate::auth::Role;
use crate::clock::unix_now;
use crate::db::{DB, DBView};
use crate::error::Error;
use crate::ident::Oid;
use crate::model::{PinType, SecondFactor, Timestamp, User, UserView};
use crate::passwd::{
    BadPasswords, Password, check_new_password, password_hash, password_refusal,
};
use crate::random::{os_random_u32, random_bytes};
use crate::responses::UserRegistrationRequest;
use crate::text::push_char;
use vstd::prelude::*;
use vstd::string::StringExecFns;

verus! {

/// Whether `regex::Regex::new` accepts a pattern and the expression then
/// matches somewhere in a text; `None` where the pattern is refused.
pub uninterp spec fn regex_matches(pattern: Seq<char>, text: Seq<char>) -> Option<bool>;

/// Calls `regex::Regex::new` and `Regex::is_match`. The verdict depends on
/// the pattern and the text alone.
#[verifier::external_body]
fn regex_is_match(pattern: &str, text: &str) -> (r: Option<bool>)
    ensures
        r == regex_matches(pattern@, text@),
{
    match regex::Regex::new(pattern) {
        Ok(re) => Some(re.is_match(text)),
        Err(_) => None,
    }
}

/// The pattern of a user name: word characters, one at least.
pub open spec fn username_pattern() -> Seq<char> {
    "^\\w+$"@
}

/// The pattern of a mail address.
pub open spec fn mail_pattern() -> Seq<char> {
    "^[a-zA-Z0-9_.+-]+@[a-zA-Z0-9-]+\\.[a-zA-Z0-9-.]+$"@
}

/// Whether a text is a user name.
pub fn is_valid_username(username: &str) -> (r: bool)
    ensures
        r == (regex_matches(username_pattern(), username@) == Some(true)),
{
    match regex_is_match("^\\w+$", username) {
        Some(b) => b,
        None => false,
    }
}

/// Whether a text is a mail address.
pub fn is_valid_email(email: &str) -> (r: bool)
    ensures
        r == (regex_matches(mail_pattern(), email@) == Some(true)),
{
    match regex_is_match("^[a-zA-Z0-9_.+-]+@[a-zA-Z0-9-]+\\.[a-zA-Z0-9-.]+$", email) {
        Some(b) => b,
        None => false,
    }
}

/// The pin that a random word stands for: its last six decimal digits,
/// unless they are all zero, which is no pin.
pub open spec fn pin_of(word: u32) -> Option<PinType> {
    if word % 1000000 == 0 {
        None
    } else {
        Some((word % 1000000) as u32)
    }
}

/// The pin that a random word stands for, if it stands for one.
pub fn pin_from_word(word: u32) -> (r: Option<PinType>)
    ensures
        r == pin_of(word),
        r matches Some(pin) ==> 0 < pin < 1000000,
{
    let pin = word % 1000000;
    if pin == 0 {
        None
    } else {
        Some(pin)
    }
}

/// The pin that a list of random words yields: the pin of the first word
/// that stands for one, and none where no word does.
pub open spec fn first_pin(words: Seq<u32>) -> Option<PinType>
    decreases words.len(),
{
    if words.len() == 0 {
        None
    } else {
        match first_pin(words.drop_last()) {
            Some(pin) => Some(pin),
            None => pin_of(words.last()),
        }
    }
}

/// Draws a pin from the operating system's generator: words are drawn one
/// after the other, and the pin is that of the first word that stands for
/// one. After sixty-four words without a pin the search is given up. So the
/// result is what the words drawn yield, and these are sixty-four where they
/// yield no pin.
pub fn draw_pin() -> (r: Option<PinType>)
    ensures
        exists|words: Seq<u32>|
            0 < words.len() <= 64 && #[trigger] first_pin(words) == r && (r is None
                ==> words.len() == 64),
        r matches Some(pin) ==> 0 < pin < 1000000,
{
    let ghost mut drawn: Seq<u32> = Seq::empty();
    let mut attempt: usize = 0;
    while attempt < 64
        invariant
            attempt <= 64,
            drawn.len() == attempt,
            first_pin(drawn) is None,
        decreases 64 - attempt,
    {
        let word = os_random_u32();
        let ghost before = drawn;
        proof {
            drawn = drawn.push(word);
            assert(drawn.drop_last() =~= before);
            assert(drawn.last() == word);
        }
        match pin_from_word(word) {
            Some(pin) => {
                assert(first_pin(drawn) == Some(pin));
                return Some(pin);
            },
            None => {},
        }
        attempt += 1;
    }
    assert(first_pin(drawn) == None::<PinType>);
    None
}

/// The decimal digit of a number below ten.
pub open spec fn digit(n: nat) -> char {
    ('0' as u8 + n) as char
}

/// A number in decimal digits.
pub open spec fn decimal(n: nat) -> Seq<char>
    decreases n,
{
    if n < 10 {
        seq![digit(n)]
    } else {
        decimal(n / 10).push(digit(n % 10))
    }
}

/// A text with zeros put before it until it is `width` characters long.
pub open spec fn zero_padded(s: Seq<char>, width: nat) -> Seq<char> {
    if s.len() >= width {
        s
    } else {
        Seq::new((width - s.len()) as nat, |i: int| '0') + s
    }
}

/// The decimal digit of a number below ten.
fn digit_char(n: u32) -> (r: char)
    requires
        n < 10,
    ensures
        r == digit(n as nat),
{
    (48u8 + n as u8) as char
}

/// Appends a pin to a text, in six decimal digits at least.
pub fn push_pin(out: &mut String, pin: PinType)
    ensures
        final(out)@ == old(out)@ + zero_padded(decimal(pin as nat), 6),
{
    let mut rev: Vec<char> = Vec::new();
    let mut m = pin;
    assert(decimal(pin as nat) =~= decimal(m as nat) + rev@.reverse());
    while m >= 10
        invariant
            decimal(pin as nat) == decimal(m as nat) + rev@.reverse(),
        decreases m,
    {
        let ghost before = rev@;
        rev.push(digit_char(m % 10));
        proof {
            assert(rev@.reverse() =~= seq![digit((m % 10) as nat)] + before.reverse());
            assert(decimal(m as nat) == decimal((m / 10) as nat).push(digit((m % 10) as nat)));
            assert(decimal(m as nat) + before.reverse() =~= decimal((m / 10) as nat)
                + rev@.reverse());
        }
        m = m / 10;
    }
    let ghost before = rev@;
    rev.push(digit_char(m));
    proof {
        assert(rev@.reverse() =~= seq![digit(m as nat)] + before.reverse());
        assert(decimal(pin as nat) =~= rev@.reverse());
    }
    let ghost start = out@;
    let ghost text = decimal(pin as nat);
    let mut zeros: usize = 0;
    let missing: usize = if rev.len() < 6 {
        6 - rev.len()
    } else {
        0
    };
    while zeros < missing
        invariant
            zeros <= missing,
            out@ == start + Seq::new(zeros as nat, |i: int| '0'),
        decreases missing - zeros,
    {
        push_char(out, '0');
        zeros += 1;
        assert(out@ =~= start + Seq::new(zeros as nat, |i: int| '0'));
    }
    let ghost padding = Seq::new(missing as nat, |i: int| '0');
    let mut k: usize = rev.len();
    while k > 0
        invariant
            k <= rev.len(),
            text == rev@.reverse(),
            out@ == start + padding + text.take(rev.len() - k),
        decreases k,
    {
        k -= 1;
        push_char(out, rev[k]);
        assert(text.take(rev.len() - k) =~= text.take(rev.len() - k - 1).push(rev@[k as int]));
        assert(out@ =~= start + padding + text.take(rev.len() - k));
    }
    assert(text.take(rev.len() as int) =~= text);
    assert(start + padding + text =~= start + zero_padded(text, 6));
}

/// The mail that carries a pin to a new user.
#[derive(Debug)]
pub struct ActivationMail {
    pub from: String,
    pub to: String,
    pub subject: String,
    pub body: String,
}

/// Who sends the mail.
pub open spec fn mail_sender() -> Seq<char> {
    "Labyrinth Mailer <nirwana@raetselonkel.de>"@
}

/// What the mail is about.
pub open spec fn mail_subject() -> Seq<char> {
    "Deine Aktivierungs-PIN f\u{fc}r Labyrinth"@
}

/// To whom the mail goes: the name, and the address in angle brackets.
pub open spec fn mail_recipient(username: Seq<char>, email: Seq<char>) -> Seq<char> {
    username + " <"@ + email + ">"@
}

/// What the mail says: it greets the user by name and gives the pin in six
/// digits.
pub open spec fn mail_body(username: Seq<char>, pin: PinType) -> Seq<char> {
    "Moin "@ + username
        + "!\n\nDu hast dich erfolgreich bei Labyrinth registriert.\n\nDeine PIN zur Aktivierung des Accounts: "@
        + zero_padded(decimal(pin as nat), 6)
        + "\n\nBitte gib diese PIN auf der Labyrinth-Website ein.\n\nViele Gr\u{fc}\u{df}e,\nDein R\u{e4}tselonkel\n\n\n*** Falls du keinen Schimmer hast, was es mit dieser Mail auf sich hat, kannst du sie getrost ignorieren ;-)"@
}

/// Writes the mail that carries a pin to a new user.
pub fn activation_mail(username: &String, email: &String, pin: PinType) -> (r: ActivationMail)
    ensures
        r.from@ == mail_sender(),
        r.to@ == mail_recipient(username@, email@),
        r.subject@ == mail_subject(),
        r.body@ == mail_body(username@, pin),
{
    let to = username.clone().concat(" <").concat(email.as_str()).concat(">");
    let mut body = String::from_str("Moin ").concat(username.as_str()).concat(
        "!\n\nDu hast dich erfolgreich bei Labyrinth registriert.\n\nDeine PIN zur Aktivierung des Accounts: ",
    );
    push_pin(&mut body, pin);
    let body = body.concat(
        "\n\nBitte gib diese PIN auf der Labyrinth-Website ein.\n\nViele Gr\u{fc}\u{df}e,\nDein R\u{e4}tselonkel\n\n\n*** Falls du keinen Schimmer hast, was es mit dieser Mail auf sich hat, kannst du sie getrost ignorieren ;-)",
    );
    ActivationMail {
        from: String::from_str("Labyrinth Mailer <nirwana@raetselonkel.de>"),
        to,
        subject: String::from_str("Deine Aktivierungs-PIN f\u{fc}r Labyrinth"),
        body,
    }
}

/// Why a registration is refused, if it is: the password is shorter than
/// eight bytes, or one of the known bad ones; the name is no user name; the
/// address is no mail address; or the name or the address is taken. The
/// first of these that holds is the reason.
pub open spec fn registration_refusal(
    db: DBView,
    username: Seq<char>,
    email: Seq<char>,
    password: Seq<char>,
    bad_digests: Seq<u128>,
) -> Option<Error> {
    match credentials_refusal(username, email, password, bad_digests) {
        Some(e) => Some(e),
        None => if db.user_holding(username, email) is Some {
            Some(Error::UsernameOrEmailNotAvailableError)
        } else {
            None
        },
    }
}

/// Why what a new user says of themselves is refused, if it is, given what
/// the checks have said: whether the password is refused, whether the name
/// is a user name, and whether the address is a mail address. The first
/// failure is the reason.
pub open spec fn credentials_refusal_given(
    password_refusal: Option<Error>,
    username_ok: bool,
    email_ok: bool,
) -> Option<Error> {
    match password_refusal {
        Some(e) => Some(e),
        None => if !username_ok {
            Some(Error::InvalidUsernameError)
        } else if !email_ok {
            Some(Error::InvalidEmailError)
        } else {
            None
        },
    }
}

/// Why what a new user says of themselves is refused, if it is: the
/// password is refused, the name is no user name, or the address is no mail
/// address. The first of these that holds is the reason.
pub open spec fn credentials_refusal(
    username: Seq<char>,
    email: Seq<char>,
    password: Seq<char>,
    bad_digests: Seq<u128>,
) -> Option<Error> {
    credentials_refusal_given(
        password_refusal(password, bad_digests),
        regex_matches(username_pattern(), username) == Some(true),
        regex_matches(mail_pattern(), email) == Some(true),
    )
}

/// Decides whether what a new user says of themselves is refused, given what
/// the checks have said.
pub fn judge_credentials(password_checked: Result<(), Error>, username_ok: bool, email_ok: bool) -> (r:
    Result<(), Error>)
    ensures
        match credentials_refusal_given(
            match password_checked {
                Ok(_) => None,
                Err(e) => Some(e),
            },
            username_ok,
            email_ok,
        ) {
            Some(e) => r matches Err(x) && x == e,
            None => r is Ok,
        },
{
    match password_checked {
        Ok(()) => {},
        Err(e) => {
            return Err(e);
        },
    }
    if !username_ok {
        return Err(Error::InvalidUsernameError);
    }
    if !email_ok {
        return Err(Error::InvalidEmailError);
    }
    Ok(())
}

/// Decides whether what a new user says of themselves is refused.
pub fn check_credentials(body: &UserRegistrationRequest, bad_digests: &BadPasswords) -> (r: Result<
    (),
    Error,
>)
    ensures
        match credentials_refusal(body.username@, body.email@, body.password@, bad_digests@) {
            Some(e) => r matches Err(x) && x == e,
            None => r is Ok,
        },
{
    let password_checked = check_new_password(&body.password, bad_digests);
    let username_ok = is_valid_username(body.username.as_str());
    let email_ok = is_valid_email(body.email.as_str());
    judge_credentials(password_checked, username_ok, email_ok)
}

/// The user that a registration makes: of the role `User`, not activated,
/// with the hash of their password; `None` where the password cannot be
/// hashed.
pub open spec fn registrant(
    username: Seq<char>,
    email: Seq<char>,
    password: Seq<char>,
    second_factor: Option<SecondFactor>,
    id: Oid,
    now: Timestamp,
    salt: Seq<u8>,
    pin: PinType,
    totp_key: Seq<u8>,
) -> Option<UserView> {
    match password_hash(password, salt) {
        None => None,
        Some(hash) => Some(
            fresh_user(
                id,
                now,
                username,
                email,
                Role::User,
                hash,
                pin,
                granted_totp_key(second_factor, totp_key),
            ),
        ),
    }
}

/// Makes the user that a registration asks for, or fails with
/// `HashingError`.
pub fn make_registrant(
    body: &UserRegistrationRequest,
    id: Oid,
    now: Timestamp,
    salt: &Vec<u8>,
    pin: PinType,
    totp_key: Vec<u8>,
) -> (r: Result<User, Error>)
    ensures
        match registrant(
            body.username@,
            body.email@,
            body.password@,
            body.second_factor,
            id,
            now,
            salt@,
            pin,
            totp_key@,
        ) {
            Some(u) => r matches Ok(user) && user@ == u,
            None => r matches Err(e) && e == Error::HashingError,
        },
{
    let hash = match Password::hash_with_salt(&body.password, salt) {
        Ok(hash) => hash,
        Err(e) => {
            return Err(e);
        },
    };
    let totp_key = match body.second_factor {
        Some(SecondFactor::Totp) => totp_key,
        _ => Vec::new(),
    };
    Ok(User::new_at(id, now, &body.username, &body.email, Role::User, hash, pin, totp_key))
}

/// The secret for one-time passwords that a new user gets: the one offered
/// where they have asked for one-time passwords, and none else.
pub open spec fn granted_totp_key(second_factor: Option<SecondFactor>, offered: Seq<u8>) -> Seq<u8> {
    if second_factor == Some(SecondFactor::Totp) {
        offered
    } else {
        Seq::empty()
    }
}

/// Decides whether a registration is refused.
pub fn check_registration(body: &UserRegistrationRequest, db: &DB, bad_digests: &BadPasswords) -> (r:
    Result<(), Error>)
    ensures
        match registration_refusal(
            db@,
            body.username@,
            body.email@,
            body.password@,
            bad_digests@,
        ) {
            Some(e) => r matches Err(x) && x == e,
            None => r is Ok,
        },
{
    match check_credentials(body, bad_digests) {
        Ok(()) => {},
        Err(e) => {
            return Err(e);
        },
    }
    let taken = match db.is_username_or_email_taken(&body.username, &body.email) {
        Ok(taken) => taken,
        Err(e) => {
            return Err(e);
        },
    };
    if taken {
        return Err(Error::UsernameOrEmailNotAvailableError);
    }
    Ok(())
}

impl DBView {
    /// What enrolling a new user does: their password is hashed with the
    /// salt, they are added to the store as a user of the role `User` who is
    /// not activated, and the mail with their pin is written. Where the
    /// password cannot be hashed, nothing is added.
    pub open spec fn enroll(
        self,
        username: Seq<char>,
        email: Seq<char>,
        password: Seq<char>,
        second_factor: Option<SecondFactor>,
        id: Oid,
        now: Timestamp,
        salt: Seq<u8>,
        pin: PinType,
        totp_key: Seq<u8>,
    ) -> (DBView, Result<(Seq<char>, Seq<char>), Error>) {
        match registrant(
            username,
            email,
            password,
            second_factor,
            id,
            now,
            salt,
            pin,
            totp_key,
        ) {
            None => (self, Err(Error::HashingError)),
            Some(user) => (
                self.with_new_user(user),
                Ok((mail_recipient(username, email), mail_body(username, pin))),
            ),
        }
    }

    /// What a registration does: it is refused for its reason, or the user
    /// is enrolled.
    pub open spec fn register(
        self,
        username: Seq<char>,
        email: Seq<char>,
        password: Seq<char>,
        second_factor: Option<SecondFactor>,
        bad_digests: Seq<u128>,
        id: Oid,
        now: Timestamp,
        salt: Seq<u8>,
        pin: PinType,
        totp_key: Seq<u8>,
    ) -> (DBView, Result<(Seq<char>, Seq<char>), Error>) {
        match registration_refusal(self, username, email, password, bad_digests) {
            Some(e) => (self, Err(e)),
            None => self.enroll(
                username,
                email,
                password,
                second_factor,
                id,
                now,
                salt,
                pin,
                totp_key,
            ),
        }
    }
}

/// Enrolls a new user and writes the mail with their pin.
pub fn enroll_user(
    body: &UserRegistrationRequest,
    db: &mut DB,
    id: Oid,
    now: Timestamp,
    salt: &Vec<u8>,
    pin: PinType,
    totp_key: Vec<u8>,
) -> (r: Result<ActivationMail, Error>)
    ensures
        ({
            let (after, outcome) = old(db)@.enroll(
                body.username@,
                body.email@,
                body.password@,
                body.second_factor,
                id,
                now,
                salt@,
                pin,
                totp_key@,
            );
            &&& final(db)@ == after
            &&& match outcome {
                Ok((to, text)) => r matches Ok(mail) && mail.to@ == to && mail.body@ == text
                    && mail.from@ == mail_sender() && mail.subject@ == mail_subject(),
                Err(e) => r matches Err(x) && x == e,
            }
        }),
{
    let user = match make_registrant(body, id, now, salt, pin, totp_key) {
        Ok(user) => user,
        Err(e) => {
            return Err(e);
        },
    };
    let _ = db.create_user(&user);
    Ok(activation_mail(&body.username, &body.email, pin))
}

/// Registers a user who is to be known by `id`, at `now`, with a salt for
/// their password, a pin, and a secret for one-time passwords that are all
/// given.
pub fn user_registration_handler_with(
    body: &UserRegistrationRequest,
    db: &mut DB,
    bad_digests: &BadPasswords,
    id: Oid,
    now: Timestamp,
    salt: &Vec<u8>,
    pin: PinType,
    totp_key: Vec<u8>,
) -> (r: Result<ActivationMail, Error>)
    ensures
        ({
            let (after, outcome) = old(db)@.register(
                body.username@,
                body.email@,
                body.password@,
                body.second_factor,
                bad_digests@,
                id,
                now,
                salt@,
                pin,
                totp_key@,
            );
            &&& final(db)@ == after
            &&& match outcome {
                Ok((to, text)) => r matches Ok(mail) && mail.to@ == to && mail.body@ == text
                    && mail.from@ == mail_sender() && mail.subject@ == mail_subject(),
                Err(e) => r matches Err(x) && x == e,
            }
        }),
{
    match check_registration(body, db, bad_digests) {
        Ok(()) => {},
        Err(e) => {
            return Err(e);
        },
    }
    enroll_user(body, db, id, now, salt, pin, totp_key)
}

/// Registers a user now, with an identifier, a salt, a pin and a secret that
/// are made or drawn for them. A registration that is refused is refused for
/// its reason; one for which no pin can be drawn fails with
/// `UserUpdateError`; every other registration is an enrolment with some
/// identifier, time, salt, pin and secret.
pub fn user_registration_handler(
    body: &UserRegistrationRequest,
    db: &mut DB,
    bad_digests: &BadPasswords,
) -> (r: Result<ActivationMail, Error>)
    ensures
        match registration_refusal(
            old(db)@,
            body.username@,
            body.email@,
            body.password@,
            bad_digests@,
        ) {
            Some(e) => final(db)@ == old(db)@ && (r matches Err(x) && x == e),
            None => (final(db)@ == old(db)@ && (r matches Err(x) && x == Error::UserUpdateError))
                || exists|id: Oid, now: Timestamp, salt: Seq<u8>, pin: PinType, totp_key: Seq<u8>|
                {
                    let (after, outcome) = #[trigger] old(db)@.enroll(
                        body.username@,
                        body.email@,
                        body.password@,
                        body.second_factor,
                        id,
                        now,
                        salt,
                        pin,
                        totp_key,
                    );
                    &&& 0 < pin < 1000000
                    &&& salt.len() == 16
                    &&& totp_key.len() == 32
                    &&& final(db)@ == after
                    &&& match outcome {
                        Ok((to, text)) => r matches Ok(mail) && mail.to@ == to && mail.body@
                            == text && mail.from@ == mail_sender() && mail.subject@
                            == mail_subject(),
                        Err(e) => r matches Err(x) && x == e,
                    }
                },
        },
{
    match check_registration(body, db, bad_digests) {
        Ok(()) => {},
        Err(e) => {
            return Err(e);
        },
    }
    let pin = match draw_pin() {
        Some(pin) => pin,
        None => {
            return Err(Error::UserUpdateError);
        },
    };
    let salt = random_bytes(16);
    let totp_key = random_bytes(32);
    let id = Oid::new();
    let now = unix_now();
    enroll_user(body, db, id, now, &salt, pin, totp_key)
}

} // verus!
