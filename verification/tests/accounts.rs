use labyrinth::activation::{make_recovery_key, make_recovery_keys, KeyChars};
use labyrinth::auth::{JwtSecretKey, Role};
use labyrinth::db::DB;
use labyrinth::error::Error;
use labyrinth::ident::Oid;
use labyrinth::management::{
    check_promotion, decide_promotion, offer_totp, promote_user_handler, read_promotion, user_activation_handler, user_activation_handler_with,
    user_password_change_handler, user_password_change_handler_with, user_totp_disable_handler,
    user_totp_enable_handler, user_totp_enable_handler_with,
};
use labyrinth::model::{
    Direction, RiddleAttempt, Room, SecondFactor, User, WebauthnCredential,
    WebauthnManagementData,
};
use labyrinth::passwd::{BadPasswords, Password};
use labyrinth::random::{draw_key_words, random_bytes};
use labyrinth::registration::{
    activation_mail, check_registration, draw_pin, is_valid_email, is_valid_username,
    judge_credentials,
    pin_from_word, push_pin, user_registration_handler, user_registration_handler_with,
};
use labyrinth::responses::{
    UserActivationRequest, UserLoginRequest, UserPasswordChangeRequest, UserRegistrationRequest,
    UserTotpRequest,
};
use labyrinth::sessions::{
    decide_login_given, decide_totp_login_given, list_configured_factors, user_login_handler, user_login_handler_at, user_totp_login_handler,
    user_totp_login_handler_at, user_whoami_handler, webauthn_login_finish_handler,
    webauthn_login_finish_handler_at, LoginResponse,
};
use labyrinth::tokens::{authorize, create_jwt_at};
use labyrinth::totp::{check_totp, generate_otp_qrcode, make_otp_uri, seconds_of};

// A hash of "password", made at low cost so that the tests run fast.
const HASH: &str =
    "$argon2i$v=19$m=4096,t=3,p=1$c29tZXNhbHQ$iWh06vD8Fy27wf9npn6FXWiCX4K6pW6Ue1Bnzz07Z8A";
// The secret of the test vectors of RFC 6238.
const TOTP_KEY: &[u8] = b"12345678901234567890";

fn oid(n: u64) -> Oid {
    Oid { hi: 0, lo: n }
}

fn key() -> JwtSecretKey {
    JwtSecretKey { token: b"a secret of the site".to_vec() }
}

fn room(id: u64, entry: Option<bool>) -> Room {
    Room {
        id: oid(id),
        number: id as u32,
        coords: None,
        neighbors: vec![Direction { direction: "e".to_string(), riddle_id: oid(0xa1), level: 0 }],
        game_id: oid(0x77),
        entry,
        exit: None,
    }
}

fn user(id: u64, name: &str) -> User {
    User {
        id: oid(id),
        username: name.to_string(),
        email: format!("{}@example.org", name),
        role: Role::User,
        hash: HASH.to_string(),
        pin: 0,
        activated: true,
        created: Some(1),
        registered: Some(2),
        last_login: Some(3),
        solved: vec![RiddleAttempt { riddle_id: oid(0xa1), t0: Some(1), t_solved: Some(2) }],
        current_riddle_attempt: None,
        rooms_entered: vec![oid(0xa)],
        finished: Vec::new(),
        level: 4,
        score: 17,
        in_room: Some(oid(0xa)),
        awaiting_second_factor: false,
        totp_key: Vec::new(),
        recovery_keys: vec!["abcd-efgh-ijkm-nopq".to_string()],
        webauthn: WebauthnManagementData::new(),
    }
}

fn security_key(id: u8) -> WebauthnCredential {
    WebauthnCredential { cred_id: vec![id, id], counter: 0, verified: false }
}

fn world() -> DB {
    let mut db = DB::new();
    db.rooms.push(room(0xa, None));
    db.rooms.push(room(0xb, Some(false)));
    db.rooms.push(room(0xc, Some(true)));
    db.rooms.push(room(0xd, Some(true)));
    db.users.push(user(1, "alice"));
    db.users.push(user(2, "bob"));
    db
}

fn login(name: &str, password: &str, totp: Option<&str>) -> UserLoginRequest {
    UserLoginRequest {
        username: name.to_string(),
        password: password.to_string(),
        totp: totp.map(|t| t.to_string()),
    }
}

fn header(token: &str) -> Vec<u8> {
    format!("Bearer {}", token).into_bytes()
}

#[test]
fn whoami_shows_the_user_in_their_room() {
    let mut db = world();
    db.users[0].totp_key = vec![1];
    db.users[0].webauthn.credentials.push(security_key(1));
    let r = user_whoami_handler("alice".to_string(), &db).unwrap();
    assert!(r.ok);
    assert_eq!(r.message, None);
    assert_eq!(r.username, "alice");
    assert_eq!(r.email, "alice@example.org");
    assert_eq!(r.role, Role::User);
    assert!(r.activated);
    assert_eq!((r.created, r.registered, r.last_login), (Some(1), Some(2), Some(3)));
    assert_eq!((r.level, r.score), (4, 17));
    assert!(r.in_room.ok);
    assert_eq!(r.in_room.id, oid(0xa));
    assert_eq!(r.in_room.neighbors.len(), 1);
    assert_eq!(r.solved.len(), 1);
    assert_eq!(r.rooms_entered, vec![oid(0xa)]);
    assert_eq!(r.jwt, None);
    assert!(r.totp.is_none());
    assert_eq!(r.recovery_keys, None);
    assert_eq!(r.configured_2fa, vec![SecondFactor::Totp, SecondFactor::Fido2]);
    let r = user_whoami_handler("bob".to_string(), &db).unwrap();
    assert!(r.configured_2fa.is_empty());
}

#[test]
fn whoami_has_its_errors() {
    let mut db = world();
    assert!(matches!(user_whoami_handler("carol".to_string(), &db), Err(Error::UserNotFoundError)));
    db.users[0].in_room = None;
    assert!(matches!(user_whoami_handler("alice".to_string(), &db), Err(Error::RoomNotFoundError)));
    db.users[0].in_room = Some(oid(0xdead));
    assert!(matches!(user_whoami_handler("alice".to_string(), &db), Err(Error::RoomNotFoundError)));
}

#[test]
fn configured_factors_are_listed_in_either_order() {
    let mut u = user(1, "alice");
    assert!(list_configured_factors(&u, false).is_empty());
    u.totp_key = vec![1];
    assert_eq!(list_configured_factors(&u, false), vec![SecondFactor::Totp]);
    u.webauthn.credentials.push(security_key(1));
    assert_eq!(list_configured_factors(&u, false), vec![SecondFactor::Totp, SecondFactor::Fido2]);
    assert_eq!(list_configured_factors(&u, true), vec![SecondFactor::Fido2, SecondFactor::Totp]);
    u.totp_key.clear();
    assert_eq!(list_configured_factors(&u, true), vec![SecondFactor::Fido2]);
}

#[test]
fn login_with_password_alone() {
    let mut db = world();
    db.users[0].awaiting_second_factor = true;
    let r = user_login_handler_at(login("alice", "password", None), &mut db, &key(), 1_700_000_000)
        .unwrap();
    let shown = match r {
        LoginResponse::LoggedIn(shown) => shown,
        LoginResponse::SecondFactorRequired(_) => panic!("no second factor is set up"),
    };
    assert!(shown.ok);
    assert_eq!(shown.username, "alice");
    assert_eq!(shown.in_room.id, oid(0xa));
    assert!(shown.configured_2fa.is_empty());
    // What is shown is the user as they were read before the login was written.
    assert_eq!(shown.last_login, Some(3));
    assert_eq!(db.users[0].last_login, Some(1_700_000_000));
    assert!(!db.users[0].awaiting_second_factor);
    assert_eq!(db.users[1].last_login, Some(3));
    let jwt = shown.jwt.unwrap();
    assert_eq!(jwt, create_jwt_at("alice", &Role::User, &key(), 1_700_000_000).unwrap());
}

#[test]
fn login_by_the_clock_issues_a_valid_token() {
    let mut db = world();
    let r = user_login_handler(login("alice", "password", None), &mut db, &key()).unwrap();
    let shown = match r {
        LoginResponse::LoggedIn(shown) => shown,
        LoginResponse::SecondFactorRequired(_) => panic!("no second factor is set up"),
    };
    let jwt = shown.jwt.unwrap();
    assert_eq!(authorize(Role::User, Some(&header(&jwt)), &key()).unwrap(), "alice");
    assert!(db.users[0].last_login.unwrap() > 1_600_000_000);
}

#[test]
fn login_has_its_errors() {
    let mut db = world();
    let r = user_login_handler_at(login("carol", "password", None), &mut db, &key(), 1);
    assert!(matches!(r, Err(Error::UserNotFoundError)));
    let r = user_login_handler_at(login("alice", "Password", None), &mut db, &key(), 1);
    assert!(matches!(r, Err(Error::WrongCredentialsError)));
    db.users[0].hash = "broken".to_string();
    let r = user_login_handler_at(login("alice", "password", None), &mut db, &key(), 1);
    assert!(matches!(r, Err(Error::HashingError)));
    db.users[0].hash = HASH.to_string();
    db.users[0].in_room = None;
    let r = user_login_handler_at(login("alice", "password", None), &mut db, &key(), 7);
    assert!(matches!(r, Err(Error::UserIsInNoRoom)));
    // The login was written before the room was missed.
    assert_eq!(db.users[0].last_login, Some(7));
    db.users[0].in_room = Some(oid(0xdead));
    let r = user_login_handler_at(login("alice", "password", None), &mut db, &key(), 8);
    assert!(matches!(r, Err(Error::RoomNotFoundError)));
    db.users[0].in_room = Some(oid(0xa));
    let r = user_login_handler_at(login("alice", "password", None), &mut db, &key(), i64::MAX);
    assert!(matches!(r, Err(Error::JWTTokenCreationError)));
}

#[test]
fn login_asks_for_the_second_factor() {
    let mut db = world();
    db.users[0].totp_key = TOTP_KEY.to_vec();
    let r = user_login_handler_at(login("alice", "password", None), &mut db, &key(), 59).unwrap();
    match r {
        LoginResponse::SecondFactorRequired(resp) => {
            assert!(!resp.ok);
            assert_eq!(resp.message, "second factor required");
            assert_eq!(resp.second_factors, vec![SecondFactor::Totp]);
        },
        LoginResponse::LoggedIn(_) => panic!("a second factor is owed"),
    }
    assert!(db.users[0].awaiting_second_factor);
    assert_eq!(db.users[0].last_login, Some(3));
    assert!(!db.users[1].awaiting_second_factor);
    db.users[0].awaiting_second_factor = false;
    db.users[0].webauthn.credentials.push(security_key(1));
    let r = user_login_handler_at(login("alice", "password", None), &mut db, &key(), 59).unwrap();
    match r {
        LoginResponse::SecondFactorRequired(resp) => {
            assert_eq!(resp.second_factors, vec![SecondFactor::Totp, SecondFactor::Fido2]);
        },
        LoginResponse::LoggedIn(_) => panic!("a second factor is owed"),
    }
    assert!(db.users[0].awaiting_second_factor);
    // With the right one-time password the key is still owed.
    let r = user_login_handler_at(login("alice", "password", Some("287082")), &mut db, &key(), 59)
        .unwrap();
    match r {
        LoginResponse::SecondFactorRequired(resp) => {
            assert_eq!(resp.second_factors, vec![SecondFactor::Fido2]);
        },
        LoginResponse::LoggedIn(_) => panic!("a second factor is owed"),
    }
}

#[test]
fn login_with_a_one_time_password() {
    let mut db = world();
    db.users[0].totp_key = TOTP_KEY.to_vec();
    let r = user_login_handler_at(login("alice", "password", Some("287082")), &mut db, &key(), 59)
        .unwrap();
    assert!(matches!(r, LoginResponse::LoggedIn(_)));
    assert_eq!(db.users[0].last_login, Some(59));
    let r = user_login_handler_at(login("alice", "password", Some("287083")), &mut db, &key(), 59);
    assert!(matches!(r, Err(Error::WrongCredentialsError)));
    // At the login with the password, the password of thirty seconds ago is too old.
    let r = user_login_handler_at(login("alice", "password", Some("287082")), &mut db, &key(), 60);
    assert!(matches!(r, Err(Error::WrongCredentialsError)));
    // Without a secret a one-time password is not looked at.
    let r = user_login_handler_at(login("bob", "password", Some("000000")), &mut db, &key(), 59)
        .unwrap();
    assert!(matches!(r, LoginResponse::LoggedIn(_)));
}

#[test]
fn one_time_passwords_follow_the_standard() {
    let secret = TOTP_KEY.to_vec();
    assert!(check_totp("287082", &secret, 59, false));
    assert!(check_totp("287082", &secret, 30, false));
    assert!(!check_totp("287082", &secret, 29, false));
    assert!(!check_totp("287082", &secret, 60, false));
    assert!(check_totp("287082", &secret, 60, true));
    assert!(check_totp("287082", &secret, 89, true));
    assert!(!check_totp("287082", &secret, 90, true));
    assert!(check_totp("081804", &secret, 1111111109, false));
    assert!(check_totp("050471", &secret, 1111111111, false));
    assert!(check_totp("005924", &secret, 1234567890, false));
    assert!(!check_totp("5924", &secret, 1234567890, false));
    assert!(!check_totp("", &secret, 1234567890, true));
    assert!(!check_totp("12345678901234567890", &secret, 59, true));
    // Before the first thirty seconds there is no time before.
    assert!(!check_totp("287082", &secret, 0, true));
    assert_eq!(seconds_of(-5), 0);
    assert_eq!(seconds_of(0), 0);
    assert_eq!(seconds_of(59), 59);
    assert_eq!(seconds_of(i64::MAX), i64::MAX as u64);
}

fn totp_request(name: &str, totp: &str) -> UserTotpRequest {
    UserTotpRequest { username: name.to_string(), totp: totp.to_string() }
}

#[test]
fn second_step_with_a_one_time_password() {
    let mut db = world();
    db.users[0].totp_key = TOTP_KEY.to_vec();
    db.users[0].webauthn.credentials.push(security_key(1));
    let r = user_totp_login_handler_at(totp_request("alice", "287082"), &mut db, &key(), 59);
    assert!(matches!(r, Err(Error::PointlessTotpError)));
    db.users[0].awaiting_second_factor = true;
    let r = user_totp_login_handler_at(totp_request("alice", "287083"), &mut db, &key(), 59);
    assert!(matches!(r, Err(Error::WrongCredentialsError)));
    assert!(db.users[0].awaiting_second_factor);
    // The password of thirty seconds ago is accepted here.
    let r = user_totp_login_handler_at(totp_request("alice", "287082"), &mut db, &key(), 75).unwrap();
    assert_eq!(r.username, "alice");
    assert_eq!(r.configured_2fa, vec![SecondFactor::Fido2, SecondFactor::Totp]);
    assert_eq!(r.jwt.unwrap(), create_jwt_at("alice", &Role::User, &key(), 75).unwrap());
    assert!(!db.users[0].awaiting_second_factor);
    assert_eq!(db.users[0].last_login, Some(75));
    let r = user_totp_login_handler_at(totp_request("carol", "287082"), &mut db, &key(), 59);
    assert!(matches!(r, Err(Error::UserNotFoundError)));
}

#[test]
fn second_step_without_a_secret_lets_in() {
    let mut db = world();
    db.users[1].awaiting_second_factor = true;
    let r = user_totp_login_handler(totp_request("bob", "whatever"), &mut db, &key()).unwrap();
    assert_eq!(r.username, "bob");
    assert!(r.configured_2fa.is_empty());
    assert!(!db.users[1].awaiting_second_factor);
}

#[test]
fn login_with_a_security_key_ends() {
    let mut db = world();
    db.users[0].awaiting_second_factor = true;
    db.users[0].webauthn.credentials.push(security_key(1));
    let r = webauthn_login_finish_handler_at("alice".to_string(), false, &mut db, &key(), 9);
    assert!(matches!(r, Err(Error::WebauthnError)));
    assert!(db.users[0].awaiting_second_factor);
    let r = webauthn_login_finish_handler_at("carol".to_string(), true, &mut db, &key(), 9);
    assert!(matches!(r, Err(Error::UserNotFoundError)));
    let r = webauthn_login_finish_handler_at("alice".to_string(), true, &mut db, &key(), 9).unwrap();
    assert_eq!(r.username, "alice");
    assert_eq!(r.configured_2fa, vec![SecondFactor::Fido2]);
    assert_eq!(r.jwt.unwrap(), create_jwt_at("alice", &Role::User, &key(), 9).unwrap());
    assert!(!db.users[0].awaiting_second_factor);
    // This step writes no login.
    assert_eq!(db.users[0].last_login, Some(3));
    db.users[0].awaiting_second_factor = true;
    let r = webauthn_login_finish_handler("alice".to_string(), true, &mut db, &key()).unwrap();
    assert!(r.jwt.is_some());
    assert!(!db.users[0].awaiting_second_factor);
}

fn registration(name: &str, email: &str, password: &str) -> UserRegistrationRequest {
    UserRegistrationRequest {
        username: name.to_string(),
        email: email.to_string(),
        password: password.to_string(),
        locale: "de".to_string(),
        second_factor: None,
    }
}

#[test]
fn registration_is_checked() {
    let db = world();
    // md5("password") = 5f4dcc3b5aa765d61d8327deb882cf99
    let bad = BadPasswords::from_digests(vec![0x5f4dcc3b5aa765d61d8327deb882cf99u128]).unwrap();
    let check = |r: UserRegistrationRequest| check_registration(&r, &db, &bad);
    assert!(check(registration("carol", "carol@example.org", "long enough")).is_ok());
    assert!(matches!(
        check(registration("carol", "carol@example.org", "short")),
        Err(Error::PasswordTooShortError)
    ));
    assert!(matches!(
        check(registration("carol", "carol@example.org", "password")),
        Err(Error::UnsafePasswordError)
    ));
    assert!(matches!(
        check(registration("carol smith", "carol@example.org", "long enough")),
        Err(Error::InvalidUsernameError)
    ));
    assert!(matches!(
        check(registration("", "carol@example.org", "long enough")),
        Err(Error::InvalidUsernameError)
    ));
    assert!(matches!(
        check(registration("carol", "carol.example.org", "long enough")),
        Err(Error::InvalidEmailError)
    ));
    assert!(matches!(
        check(registration("alice", "carol@example.org", "long enough")),
        Err(Error::UsernameOrEmailNotAvailableError)
    ));
    assert!(matches!(
        check(registration("carol", "bob@example.org", "long enough")),
        Err(Error::UsernameOrEmailNotAvailableError)
    ));
    // The first reason is the one given.
    assert!(matches!(
        check(registration("alice", "nonsense", "short")),
        Err(Error::PasswordTooShortError)
    ));
    assert!(matches!(
        check(registration("a b", "nonsense", "long enough")),
        Err(Error::InvalidUsernameError)
    ));
}

#[test]
fn names_and_addresses_have_their_patterns() {
    for name in ["carol", "Carol_99", "c", "\u{e4}rger", "\u{4e2d}\u{6587}"] {
        assert!(is_valid_username(name), "{:?}", name);
    }
    for name in ["", "carol smith", "carol-smith", "carol!", " carol", "carol\n"] {
        assert!(!is_valid_username(name), "{:?}", name);
    }
    for email in ["carol@example.org", "c.a+r-o_l@ex-ample.co.uk", "1@2.3"] {
        assert!(is_valid_email(email), "{:?}", email);
    }
    for email in ["", "carol", "carol@example", "@example.org", "carol@.org", "ca rol@example.org", "carol@exam_ple.org"] {
        assert!(!is_valid_email(email), "{:?}", email);
    }
}

#[test]
fn registration_enrolls_a_user() {
    let mut db = world();
    let mut body = registration("carol", "carol@example.org", "long enough");
    body.second_factor = Some(SecondFactor::Totp);
    let salt = b"0123456789abcdef".to_vec();
    let mail = user_registration_handler_with(
        &body,
        &mut db,
        &BadPasswords::none(),
        oid(3),
        1_700_000_000,
        &salt,
        4711,
        vec![7; 32],
    )
    .unwrap();
    assert_eq!(mail.to, "carol <carol@example.org>");
    assert_eq!(mail.from, "Labyrinth Mailer <nirwana@raetselonkel.de>");
    assert_eq!(mail.subject, "Deine Aktivierungs-PIN f\u{fc}r Labyrinth");
    assert!(mail.body.starts_with("Moin carol!\n\nDu hast dich erfolgreich bei Labyrinth registriert."));
    assert!(mail.body.contains("Deine PIN zur Aktivierung des Accounts: 004711\n"));
    assert_eq!(db.users.len(), 3);
    let u = &db.users[2];
    assert_eq!(u.id, oid(3));
    assert_eq!(u.username, "carol");
    assert_eq!(u.email, "carol@example.org");
    assert_eq!(u.role, Role::User);
    assert_eq!(u.hash, Password::hash_with_salt(&"long enough".to_string(), &salt).unwrap());
    assert_eq!(u.pin, 4711);
    assert!(!u.activated);
    assert_eq!((u.created, u.registered, u.last_login), (Some(1_700_000_000), None, None));
    assert!(u.solved.is_empty());
    assert_eq!(u.current_riddle_attempt, None);
    assert!(u.rooms_entered.is_empty());
    assert_eq!((u.level, u.score), (0, 0));
    assert_eq!(u.in_room, None);
    assert!(!u.awaiting_second_factor);
    assert_eq!(u.totp_key, vec![7; 32]);
    assert!(u.recovery_keys.is_empty());
    assert!(u.webauthn.credentials.is_empty());
    // Registered once, the name is taken.
    let r = user_registration_handler_with(
        &body,
        &mut db,
        &BadPasswords::none(),
        oid(4),
        1_700_000_001,
        &salt,
        4712,
        vec![7; 32],
    );
    assert!(matches!(r, Err(Error::UsernameOrEmailNotAvailableError)));
    assert_eq!(db.users.len(), 3);
}

#[test]
fn registration_without_one_time_passwords_stores_no_secret() {
    let mut db = world();
    let mut body = registration("carol", "carol@example.org", "long enough");
    body.second_factor = Some(SecondFactor::Fido2);
    user_registration_handler_with(&body, &mut db, &BadPasswords::none(), oid(3), 5, &vec![1; 16], 1, vec![7; 32])
        .unwrap();
    assert!(db.users[2].totp_key.is_empty());
    let body = registration("dave", "dave@example.org", "long enough");
    user_registration_handler_with(&body, &mut db, &BadPasswords::none(), oid(4), 5, &vec![1; 16], 1, vec![7; 32])
        .unwrap();
    assert!(db.users[3].totp_key.is_empty());
    // A salt that cannot be used.
    let body = registration("erin", "erin@example.org", "long enough");
    let r = user_registration_handler_with(&body, &mut db, &BadPasswords::none(), oid(5), 5, &vec![1; 2], 1, vec![]);
    assert!(matches!(r, Err(Error::HashingError)));
    assert_eq!(db.users.len(), 4);
}

#[test]
fn registration_draws_what_it_needs() {
    let mut db = world();
    let mut body = registration("carol", "carol@example.org", "long enough");
    body.second_factor = Some(SecondFactor::Totp);
    let mail = user_registration_handler(&body, &mut db, &BadPasswords::none()).unwrap();
    let u = &db.users[2];
    assert!(0 < u.pin && u.pin < 1_000_000);
    assert!(mail.body.contains(&format!("Accounts: {:06}\n", u.pin)));
    assert_eq!(u.totp_key.len(), 32);
    assert!(u.created.unwrap() > 1_600_000_000);
    assert_eq!(Password::matches(&u.hash, &"long enough".to_string()).unwrap(), true);
    assert!(!u.activated);
    let r = user_registration_handler(&registration("x y", "a@b.c", "long enough"), &mut db, &BadPasswords::none());
    assert!(matches!(r, Err(Error::InvalidUsernameError)));
}

#[test]
fn pins_have_six_digits() {
    assert_eq!(pin_from_word(0), None);
    assert_eq!(pin_from_word(1_000_000), None);
    assert_eq!(pin_from_word(4_000_000_000), None);
    assert_eq!(pin_from_word(1), Some(1));
    assert_eq!(pin_from_word(999_999), Some(999_999));
    assert_eq!(pin_from_word(1_000_001), Some(1));
    assert_eq!(pin_from_word(u32::MAX), Some(967_295));
    for _ in 0..20 {
        let pin = draw_pin().unwrap();
        assert!(0 < pin && pin < 1_000_000);
    }
    let shown = |pin: u32| {
        let mut s = "pin ".to_string();
        push_pin(&mut s, pin);
        s
    };
    assert_eq!(shown(0), "pin 000000");
    assert_eq!(shown(7), "pin 000007");
    assert_eq!(shown(10), "pin 000010");
    assert_eq!(shown(123_456), "pin 123456");
    assert_eq!(shown(999_999), "pin 999999");
    assert_eq!(shown(1_000_000), "pin 1000000");
    assert_eq!(shown(u32::MAX), "pin 4294967295");
}

#[test]
fn mail_carries_the_pin() {
    let mail = activation_mail(&"carol".to_string(), &"carol@example.org".to_string(), 42);
    assert_eq!(
        mail.body,
        "Moin carol!\n\nDu hast dich erfolgreich bei Labyrinth registriert.\n\nDeine PIN zur Aktivierung des Accounts: 000042\n\nBitte gib diese PIN auf der Labyrinth-Website ein.\n\nViele Gr\u{fc}\u{df}e,\nDein R\u{e4}tselonkel\n\n\n*** Falls du keinen Schimmer hast, was es mit dieser Mail auf sich hat, kannst du sie getrost ignorieren ;-)"
    );
}

fn pending(db: &mut DB, name: &str, pin: u32) {
    let mut u = User::new_at(
        oid(9),
        100,
        &name.to_string(),
        &format!("{}@example.org", name),
        Role::User,
        HASH.to_string(),
        pin,
        Vec::new(),
    );
    u.totp_key = Vec::new();
    db.users.push(u);
}

#[test]
fn activation_puts_the_user_into_the_entry() {
    let mut db = world();
    pending(&mut db, "carol", 4711);
    let mut words = [0u32; 160];
    for (i, w) in words.iter_mut().enumerate() {
        *w = i as u32;
    }
    let body = UserActivationRequest { username: "carol".to_string(), pin: 4711 };
    let r = user_activation_handler_with(body, &mut db, &key(), "labyrinth", 200, &words).unwrap();
    assert!(r.ok);
    assert_eq!(r.username, "carol");
    assert!(r.activated);
    assert_eq!((r.created, r.registered, r.last_login), (Some(100), Some(200), Some(200)));
    // The first room that is marked as an entry.
    assert_eq!(r.in_room.id, oid(0xc));
    assert_eq!(r.rooms_entered, vec![oid(0xc)]);
    assert_eq!(r.jwt.unwrap(), create_jwt_at("carol", &Role::User, &key(), 200).unwrap());
    assert!(r.totp.is_none());
    assert!(r.configured_2fa.is_empty());
    let keys = r.recovery_keys.unwrap();
    assert_eq!(keys.len(), 10);
    assert_eq!(keys[0], "abcd-efgh-ijkm-nopq");
    assert_eq!(keys[1], "rstu-vwxy-z012-3456");
    assert_eq!(keys[2], "789a-bcde-fghi-jkmn");
    let u = &db.users[2];
    assert!(u.activated);
    assert_eq!(u.pin, 0);
    assert_eq!((u.registered, u.last_login), (Some(200), Some(200)));
    assert_eq!(u.in_room, Some(oid(0xc)));
    assert_eq!(u.rooms_entered, vec![oid(0xc)]);
    assert_eq!(u.recovery_keys, keys);
    // Activated once, the pin is spent.
    let body = UserActivationRequest { username: "carol".to_string(), pin: 4711 };
    let r = user_activation_handler_with(body, &mut db, &key(), "labyrinth", 300, &words);
    assert!(matches!(r, Err(Error::UserNotFoundError)));
}

#[test]
fn activation_has_its_errors() {
    let mut db = world();
    pending(&mut db, "carol", 4711);
    let words = [0u32; 160];
    let body = UserActivationRequest { username: "carol".to_string(), pin: 4712 };
    let r = user_activation_handler_with(body, &mut db, &key(), "labyrinth", 200, &words);
    assert!(matches!(r, Err(Error::UserNotFoundError)));
    let body = UserActivationRequest { username: "alice".to_string(), pin: 0 };
    let r = user_activation_handler_with(body, &mut db, &key(), "labyrinth", 200, &words);
    assert!(matches!(r, Err(Error::UserNotFoundError)));
    db.rooms[2].entry = None;
    db.rooms[3].entry = Some(false);
    let body = UserActivationRequest { username: "carol".to_string(), pin: 4711 };
    let r = user_activation_handler_with(body, &mut db, &key(), "labyrinth", 200, &words);
    assert!(matches!(r, Err(Error::RoomNotFoundError)));
    assert!(!db.users[2].activated);
    assert_eq!(db.users[2].pin, 4711);
}

#[test]
fn activation_tells_the_authenticator_app() {
    let mut db = world();
    pending(&mut db, "carol", 4711);
    db.users[2].totp_key = b"hello".to_vec();
    let body = UserActivationRequest { username: "carol".to_string(), pin: 4711 };
    let r = user_activation_handler(body, &mut db, &key(), "labyrinth").unwrap();
    assert_eq!(r.configured_2fa, vec![SecondFactor::Totp]);
    let totp = r.totp.unwrap();
    assert_eq!(totp.secret, "NBSWY3DP");
    assert_eq!(&totp.qrcode[..8], &[0x89, b'P', b'N', b'G', 0x0d, 0x0a, 0x1a, 0x0a]);
    assert_eq!((totp.hash.as_str(), totp.interval, totp.digits), ("SHA1", 30, 6));
    let keys = r.recovery_keys.unwrap();
    assert_eq!(keys.len(), 10);
    for k in &keys {
        assert_eq!(k.len(), 19);
        for (i, c) in k.chars().enumerate() {
            if i % 5 == 4 {
                assert_eq!(c, '-');
            } else {
                assert!("abcdefghijkmnopqrstuvwxyz0123456789".contains(c));
            }
        }
    }
    assert_ne!(keys[0], keys[1]);
    assert!(db.users[2].registered.unwrap() > 1_600_000_000);
    assert_eq!(authorize(Role::User, Some(&header(&r.jwt.unwrap())), &key()).unwrap(), "carol");
}

#[test]
fn store_activates_the_pending_user_of_the_name() {
    let mut db = world();
    pending(&mut db, "alice", 1);
    let mut u = db.get_user_with_pin(&"alice".to_string(), 1).unwrap();
    assert_eq!(u.id, oid(9));
    db.activate_user(&mut u).unwrap();
    assert!(u.activated);
    assert_eq!(u.in_room, Some(oid(0xc)));
    assert_eq!(u.recovery_keys.len(), 10);
    // The activated alice is left alone.
    assert_eq!(db.users[0].in_room, Some(oid(0xa)));
    assert_eq!(db.users[0].recovery_keys.len(), 1);
    assert!(db.users[2].activated);
    assert_eq!(db.users[2].recovery_keys, u.recovery_keys);
    assert_eq!(db.find_entry_room(), Some(oid(0xc)));
}

#[test]
fn recovery_keys_are_spelled_from_words() {
    let k = KeyChars;
    assert_eq!(k.pick(0), b'a');
    assert_eq!(k.pick(10), b'k');
    assert_eq!(k.pick(11), b'm');
    assert_eq!(k.pick(24), b'z');
    assert_eq!(k.pick(25), b'0');
    assert_eq!(k.pick(34), b'9');
    assert_eq!(k.pick(35), b'a');
    assert_eq!(k.pick(u32::MAX), b"abcdefghijkmnopqrstuvwxyz0123456789"[(u32::MAX % 35) as usize]);
    let mut words = [0u32; 160];
    for (i, w) in words.iter_mut().enumerate() {
        *w = i as u32 * 36;
    }
    let mut first = [0u32; 16];
    first.copy_from_slice(&words[..16]);
    let mut last = [0u32; 16];
    last.copy_from_slice(&words[144..]);
    assert_eq!(make_recovery_key(&first), "abcd-efgh-ijkm-nopq");
    assert_eq!(make_recovery_key(&last), "efgh-ijkm-nopq-rstu");
    assert_eq!(make_recovery_key(&[34; 16]), "9999-9999-9999-9999");
    let keys = make_recovery_keys(&words);
    assert_eq!(keys.len(), 10);
    assert_eq!(keys[0], "abcd-efgh-ijkm-nopq");
    assert_eq!(keys[9], "efgh-ijkm-nopq-rstu");
    assert_eq!(random_bytes(32).len(), 32);
    assert_eq!(random_bytes(0).len(), 0);
    assert_ne!(random_bytes(32), random_bytes(32));
    assert_ne!(draw_key_words(), draw_key_words());
}

#[test]
fn password_is_changed() {
    let mut db = world();
    let bad = BadPasswords::from_digests(vec![0x5f4dcc3b5aa765d61d8327deb882cf99u128]).unwrap();
    let change = |p: &str| UserPasswordChangeRequest { password: p.to_string() };
    let salt = b"0123456789abcdef".to_vec();
    let r = user_password_change_handler_with("alice".to_string(), change("short"), &mut db, &bad, &salt);
    assert!(matches!(r, Err(Error::PasswordTooShortError)));
    let r = user_password_change_handler_with("alice".to_string(), change("password"), &mut db, &bad, &salt);
    assert!(matches!(r, Err(Error::UnsafePasswordError)));
    assert_eq!(db.users[0].hash, HASH);
    let r = user_password_change_handler_with("alice".to_string(), change("long enough"), &mut db, &bad, &salt)
        .unwrap();
    assert!(r.ok);
    assert_eq!(r.message, None);
    assert_eq!(db.users[0].hash, Password::hash_with_salt(&"long enough".to_string(), &salt).unwrap());
    assert_eq!(db.users[1].hash, HASH);
    let r = user_password_change_handler("bob".to_string(), change("another one"), &mut db, &bad).unwrap();
    assert!(r.ok);
    assert_eq!(Password::matches(&db.users[1].hash, &"another one".to_string()).unwrap(), true);
    // Nobody of that name: nothing is written, and nothing is wrong.
    let r = user_password_change_handler_with("carol".to_string(), change("long enough"), &mut db, &bad, &salt);
    assert!(r.unwrap().ok);
    let r = user_password_change_handler_with("alice".to_string(), change("long enough"), &mut db, &bad, &vec![1]);
    assert!(matches!(r, Err(Error::HashingError)));
}

#[test]
fn roles_are_given_by_admins() {
    let mut db = world();
    db.users[0].role = Role::Admin;
    let r = promote_user_handler("bob".to_string(), "designer".to_string(), "alice".to_string(), &mut db)
        .unwrap();
    assert!(r.ok);
    assert_eq!(r.message, None);
    assert_eq!(r.username, "bob");
    assert_eq!(r.role, Role::Designer);
    assert_eq!(db.users[1].role, Role::Designer);
    let r = promote_user_handler("bob".to_string(), "Designer".to_string(), "alice".to_string(), &mut db);
    assert!(matches!(r, Err(Error::CannotChangeToSameRole)));
    let r = promote_user_handler("bob".to_string(), "user".to_string(), "alice".to_string(), &mut db);
    assert!(matches!(r, Err(Error::CannotChangeToSameRole)));
    let r = promote_user_handler("alice".to_string(), "admin".to_string(), "alice".to_string(), &mut db);
    assert!(matches!(r, Err(Error::UserCannotChangeOwnRoleError)));
    let r = promote_user_handler("carol".to_string(), "admin".to_string(), "alice".to_string(), &mut db);
    assert!(matches!(r, Err(Error::UserNotFoundError)));
    let r = promote_user_handler("bob".to_string(), "admin".to_string(), "carol".to_string(), &mut db);
    assert!(matches!(r, Err(Error::UserNotFoundError)));
    let r = promote_user_handler("alice".to_string(), "admin".to_string(), "bob".to_string(), &mut db);
    assert!(matches!(r, Err(Error::CannotChangeToSameRole)));
    db.users[0].role = Role::Designer;
    let r = promote_user_handler("bob".to_string(), "admin".to_string(), "alice".to_string(), &mut db);
    assert!(matches!(r, Err(Error::UnsufficentRightsError)));
    assert_eq!(db.users[1].role, Role::Designer);
    // The names come percent-escaped.
    db.users[0].role = Role::Admin;
    db.users[1].username = "bob smith".to_string();
    let r = promote_user_handler("bob%20smith".to_string(), "%41dmin".to_string(), "alice".to_string(), &mut db)
        .unwrap();
    assert_eq!(r.username, "bob smith");
    assert_eq!(r.role, Role::Admin);
    // A user who is not activated is not promoted.
    db.users[1].activated = false;
    db.users[1].role = Role::User;
    let r = promote_user_handler("bob%20smith".to_string(), "admin".to_string(), "alice".to_string(), &mut db);
    assert!(matches!(r, Err(Error::UserNotFoundError)));
}

#[test]
fn store_promotes() {
    let mut db = world();
    assert!(db.promote_user(&"alice".to_string(), &Role::Admin).is_ok());
    assert_eq!(db.get_user_role(&"alice".to_string()).unwrap(), Role::Admin);
    assert!(matches!(db.promote_user(&"alice".to_string(), &Role::Admin), Err(Error::CannotPromoteUserError)));
    assert!(matches!(db.promote_user(&"carol".to_string(), &Role::Admin), Err(Error::UserNotFoundError)));
    assert!(matches!(db.get_user_role(&"carol".to_string()), Err(Error::UserNotFoundError)));
    assert_eq!(db.is_username_or_email_taken(&"alice".to_string(), &"x".to_string()).unwrap(), true);
    assert_eq!(db.is_username_or_email_taken(&"x".to_string(), &"bob@example.org".to_string()).unwrap(), true);
    assert_eq!(db.is_username_or_email_taken(&"x".to_string(), &"y".to_string()).unwrap(), false);
}

#[test]
fn one_time_passwords_are_switched_on_and_off() {
    let mut db = world();
    let r = user_totp_enable_handler_with("alice".to_string(), &mut db, "labyrinth", b"hello".to_vec())
        .unwrap();
    assert!(r.ok);
    assert_eq!(r.message, None);
    assert_eq!(r.totp.secret, "NBSWY3DP");
    assert_eq!(&r.totp.qrcode[1..4], b"PNG");
    assert_eq!(db.users[0].totp_key, b"hello".to_vec());
    assert!(db.users[1].totp_key.is_empty());
    let again = offer_totp("labyrinth", &"alice".to_string(), &b"hello".to_vec()).unwrap();
    assert_eq!(again.qrcode, r.totp.qrcode);
    let other = offer_totp("labyrinth", &"bob".to_string(), &b"hello".to_vec()).unwrap();
    assert_ne!(other.qrcode, r.totp.qrcode);
    let r = user_totp_disable_handler("alice".to_string(), &mut db).unwrap();
    assert!(r.ok);
    assert!(db.users[0].totp_key.is_empty());
    let r = user_totp_enable_handler("bob".to_string(), &mut db, "labyrinth").unwrap();
    assert_eq!(db.users[1].totp_key.len(), 32);
    // Thirty-two bytes are fifty-two characters in base 32, without padding.
    assert_eq!(r.totp.secret.len(), 52);
    // Only an activated user has the secret taken.
    db.users[1].activated = false;
    user_totp_disable_handler("bob".to_string(), &mut db).unwrap();
    assert_eq!(db.users[1].totp_key.len(), 32);
}

#[test]
fn secret_is_told_in_base32_and_as_a_picture() {
    let (secret, picture) =
        generate_otp_qrcode("labyrinth", &"alice".to_string(), &b"foobar".to_vec()).unwrap();
    assert_eq!(secret, "MZXW6YTBOI");
    assert_eq!(&picture[..8], &[0x89, b'P', b'N', b'G', 0x0d, 0x0a, 0x1a, 0x0a]);
    let (secret, _) = generate_otp_qrcode("labyrinth", &"alice".to_string(), &Vec::new()).unwrap();
    assert_eq!(secret, "");
    // A name too long for a picture.
    let long = "x".repeat(5000);
    let r = generate_otp_qrcode("labyrinth", &long, &b"foobar".to_vec());
    assert!(matches!(r, Err(Error::TotpQrCodeGenerationError)));
}

#[test]
fn store_keeps_what_security_keys_need() {
    let mut db = world();
    let alice = "alice".to_string();
    db.save_webauthn_registration_state(&alice, &vec![1, 2, 3]).unwrap();
    assert_eq!(db.users[0].webauthn.registration_state, Some(vec![1, 2, 3]));
    db.save_webauthn_authentication_state(&alice, &vec![4]).unwrap();
    assert_eq!(db.users[0].webauthn.authentication_state, Some(vec![4]));
    assert_eq!(db.users[0].webauthn.registration_state, Some(vec![1, 2, 3]));
    db.save_webauthn_registration(&alice, &vec![security_key(1), security_key(2), security_key(1)]).unwrap();
    assert_eq!(db.users[0].webauthn.credentials.len(), 3);
    db.update_webauthn_cred(&alice, &vec![1, 1], 42, true).unwrap();
    let c = &db.users[0].webauthn.credentials;
    assert_eq!((c[0].counter, c[0].verified), (42, true));
    assert_eq!((c[1].counter, c[1].verified), (0, false));
    assert_eq!((c[2].counter, c[2].verified), (42, true));
    assert_eq!(c[1].cred_id, vec![2, 2]);
    db.update_webauthn_cred(&alice, &vec![3, 3], 43, true).unwrap();
    assert_eq!(db.users[0].webauthn.credentials[0].counter, 42);
    assert!(db.users[1].webauthn.credentials.is_empty());
    assert_eq!(db.users[1].webauthn.registration_state, None);
    db.set_user_awaiting_2fa(&user(2, "whoever"), true).unwrap();
    assert!(db.users[1].awaiting_second_factor);
    assert!(!db.users[0].awaiting_second_factor);
    db.login_user(&user(7, "bob")).unwrap();
    assert!(!db.users[1].awaiting_second_factor);
    assert!(db.users[1].last_login.unwrap() > 1_600_000_000);
}

#[test]
fn decisions_of_a_login() {
    let mut u = user(1, "alice");
    assert_eq!(decide_login_of(&u, "password", None, 59).unwrap(), vec![]);
    assert!(matches!(decide_login_of(&u, "wrong", None, 59), Err(Error::WrongCredentialsError)));
    u.totp_key = TOTP_KEY.to_vec();
    assert_eq!(decide_login_of(&u, "password", None, 59).unwrap(), vec![SecondFactor::Totp]);
    assert_eq!(decide_login_of(&u, "password", Some("287082"), 59).unwrap(), vec![]);
    assert!(matches!(
        decide_login_of(&u, "password", Some("000000"), 59),
        Err(Error::WrongCredentialsError)
    ));
    u.webauthn.credentials.push(security_key(1));
    assert_eq!(
        decide_login_of(&u, "password", None, 59).unwrap(),
        vec![SecondFactor::Totp, SecondFactor::Fido2]
    );
    assert!(matches!(
        labyrinth::sessions::decide_totp_login(&u, "287082", 59),
        Err(Error::PointlessTotpError)
    ));
    u.awaiting_second_factor = true;
    assert_eq!(
        labyrinth::sessions::decide_totp_login(&u, "287082", 59).unwrap(),
        vec![SecondFactor::Fido2, SecondFactor::Totp]
    );
    let r = labyrinth::responses::SecondFactorRequiredResponse::owing(vec![SecondFactor::Fido2]);
    assert!(!r.ok);
    assert_eq!(r.message, "second factor required");
    assert_eq!(r.second_factors, vec![SecondFactor::Fido2]);
}

fn decide_login_of(
    u: &User,
    password: &str,
    totp: Option<&str>,
    now: i64,
) -> Result<Vec<SecondFactor>, Error> {
    labyrinth::sessions::decide_login(u, &password.to_string(), &totp.map(|t| t.to_string()), now)
}

#[test]
fn decisions_of_a_promotion() {
    assert_eq!(read_promotion("bob", "ADMIN", "alice").unwrap(), ("bob".to_string(), Role::Admin));
    assert_eq!(
        read_promotion("bob%20b", "d%65signer", "alice").unwrap(),
        ("bob b".to_string(), Role::Designer)
    );
    assert_eq!(read_promotion("bob", "", "alice").unwrap(), ("bob".to_string(), Role::User));
    assert!(matches!(
        read_promotion("alice", "admin", "alice"),
        Err(Error::UserCannotChangeOwnRoleError)
    ));
    assert!(matches!(
        read_promotion("%61lice", "admin", "alice"),
        Err(Error::UserCannotChangeOwnRoleError)
    ));
    assert!(check_promotion(&Role::Designer, &Role::User, &Role::Admin).is_ok());
    assert!(check_promotion(&Role::Admin, &Role::Designer, &Role::Admin).is_ok());
    assert!(matches!(
        check_promotion(&Role::Designer, &Role::Designer, &Role::Admin),
        Err(Error::CannotChangeToSameRole)
    ));
    assert!(matches!(
        check_promotion(&Role::User, &Role::Admin, &Role::Admin),
        Err(Error::CannotChangeToSameRole)
    ));
    assert!(matches!(
        check_promotion(&Role::Admin, &Role::User, &Role::Designer),
        Err(Error::UnsufficentRightsError)
    ));
    // The rank is looked at before the giver.
    assert!(matches!(
        check_promotion(&Role::User, &Role::User, &Role::User),
        Err(Error::CannotChangeToSameRole)
    ));
}

#[test]
fn new_user_is_fresh() {
    let u = User::new(
        &"carol".to_string(),
        &"carol@example.org".to_string(),
        Role::Designer,
        "hash".to_string(),
        17,
        vec![1, 2],
    );
    assert_eq!(u.username, "carol");
    assert_eq!(u.email, "carol@example.org");
    assert_eq!(u.role, Role::Designer);
    assert_eq!(u.hash, "hash");
    assert_eq!(u.pin, 17);
    assert!(!u.activated);
    assert!(u.created.unwrap() > 1_600_000_000);
    assert_eq!((u.registered, u.last_login, u.in_room), (None, None, None));
    assert_eq!((u.level, u.score), (0, 0));
    assert_eq!(u.totp_key, vec![1, 2]);
    let v = User::new(&"dave".to_string(), &"d@e.f".to_string(), Role::User, String::new(), 1, vec![]);
    assert_ne!(u.id, v.id);
    let mut w = v.clone();
    assert_eq!(w.id, v.id);
    assert_eq!(w.username, "dave");
    labyrinth::activation::activate(&mut w, oid(0xc), 77, &[0; 160]);
    assert!(w.activated);
    assert_eq!(w.pin, 0);
    assert_eq!((w.registered, w.last_login), (Some(77), Some(77)));
    assert_eq!(w.in_room, Some(oid(0xc)));
    assert_eq!(w.rooms_entered, vec![oid(0xc)]);
    assert_eq!(w.recovery_keys, vec!["aaaa-aaaa-aaaa-aaaa".to_string(); 10]);
    assert!(!v.activated);
}

#[test]
fn decisions_on_given_verdicts() {
    let mut u = user(1, "alice");
    assert_eq!(decide_login_given(&u, Some(true), None).unwrap(), vec![]);
    // Without a secret a one-time password that was sent is not looked at.
    assert_eq!(decide_login_given(&u, Some(true), Some(false)).unwrap(), vec![]);
    assert!(matches!(decide_login_given(&u, Some(false), Some(true)), Err(Error::WrongCredentialsError)));
    assert!(matches!(decide_login_given(&u, None, Some(true)), Err(Error::HashingError)));
    u.totp_key = vec![1];
    assert_eq!(decide_login_given(&u, Some(true), None).unwrap(), vec![SecondFactor::Totp]);
    assert_eq!(decide_login_given(&u, Some(true), Some(true)).unwrap(), vec![]);
    assert!(matches!(decide_login_given(&u, Some(true), Some(false)), Err(Error::WrongCredentialsError)));
    u.webauthn.credentials.push(security_key(1));
    assert_eq!(decide_login_given(&u, Some(true), Some(true)).unwrap(), vec![SecondFactor::Fido2]);
    assert_eq!(
        decide_login_given(&u, Some(true), None).unwrap(),
        vec![SecondFactor::Totp, SecondFactor::Fido2]
    );
    assert!(matches!(decide_totp_login_given(&u, true), Err(Error::PointlessTotpError)));
    u.awaiting_second_factor = true;
    assert!(matches!(decide_totp_login_given(&u, false), Err(Error::WrongCredentialsError)));
    assert_eq!(
        decide_totp_login_given(&u, true).unwrap(),
        vec![SecondFactor::Fido2, SecondFactor::Totp]
    );
    u.totp_key.clear();
    assert_eq!(decide_totp_login_given(&u, false).unwrap(), vec![SecondFactor::Fido2]);
    assert!(judge_credentials(Ok(()), true, true).is_ok());
    assert!(matches!(judge_credentials(Ok(()), false, false), Err(Error::InvalidUsernameError)));
    assert!(matches!(judge_credentials(Ok(()), true, false), Err(Error::InvalidEmailError)));
    assert!(matches!(
        judge_credentials(Err(Error::UnsafePasswordError), false, false),
        Err(Error::UnsafePasswordError)
    ));
    assert_eq!(
        decide_promotion("bob".to_string(), "Designer", "alice").unwrap(),
        ("bob".to_string(), Role::Designer)
    );
    assert!(matches!(
        decide_promotion("alice".to_string(), "admin", "alice"),
        Err(Error::UserCannotChangeOwnRoleError)
    ));
    assert_eq!(
        make_otp_uri("labyrinth", "alice", "NBSWY3DP"),
        "otpauth://totp/labyrinth: alice?secret=NBSWY3DP&issuer=labyrinth"
    );
    assert_eq!(make_otp_uri("", "", ""), "otpauth://totp/: ?secret=&issuer=");
}
