use labyrinth::error::Error;
use labyrinth::handlers::{cheat_handler, ping_handler, user_authentication_handler};
use labyrinth::ident::Oid;
use labyrinth::model::SecondFactor;
use labyrinth::rejection::{
    err_response, handle_rejection, status_of_error, ErrorKind, Rejection,
};
use labyrinth::responses::{RoomResponse, StatusResponse, TotpResponseRaw};
use labyrinth::rooms::opposite_of;

#[test]
fn identifiers_are_read_from_hex() {
    assert_eq!(
        Oid::parse_str("0102030405060708090a0b0c").unwrap(),
        Oid { hi: 0x01020304, lo: 0x05060708090a0b0c }
    );
    assert_eq!(
        Oid::parse_str("FFFFFFFFffffffffFFFFFFFF").unwrap(),
        Oid { hi: u32::MAX, lo: u64::MAX }
    );
    assert_eq!(Oid::parse_str("000000000000000000000000").unwrap(), Oid { hi: 0, lo: 0 });
    assert_eq!(
        Oid::parse_str("aAbBcCdDeEfF001122334455").unwrap(),
        Oid { hi: 0xaabbccdd, lo: 0xeeff001122334455 }
    );
}

#[test]
fn other_text_is_no_identifier() {
    for text in [
        "",
        "0",
        "0102030405060708090a0b0",
        "0102030405060708090a0b0c0",
        "0102030405060708090a0b0c0d",
        "0102030405060708090a0b0g",
        " 102030405060708090a0b0c",
        "0102030405060708090a0b\u{e4}",
        "\u{ff10}102030405060708090a0b0c",
    ] {
        let r = Oid::parse_str(text);
        assert!(matches!(r, Err(Error::BsonOidError(_))), "{:?}", text);
    }
    match Oid::parse_str("zz") {
        Err(e) => assert!(e.to_string().starts_with("could not parse ObjectID ")),
        Ok(_) => panic!("no identifier"),
    }
}

#[test]
fn identifiers_are_made_of_twelve_bytes() {
    assert_eq!(
        Oid::from_bytes([1, 2, 3, 4, 5, 6, 7, 8, 9, 10, 11, 12]),
        Oid { hi: 0x01020304, lo: 0x05060708090a0b0c }
    );
    assert_eq!(Oid::from_bytes([0; 12]), Oid { hi: 0, lo: 0 });
    assert_eq!(Oid::from_bytes([255; 12]), Oid { hi: u32::MAX, lo: u64::MAX });
}

#[test]
fn new_identifiers_differ() {
    let a = Oid::new();
    let b = Oid::new();
    assert_ne!(a, b);
}

#[test]
fn directions_have_opposites() {
    assert_eq!(opposite_of("n"), Some("s"));
    assert_eq!(opposite_of("s"), Some("n"));
    assert_eq!(opposite_of("e"), Some("w"));
    assert_eq!(opposite_of("w"), Some("e"));
    for d in ["", "N", "u", "d", "ne", "north", " n"] {
        assert_eq!(opposite_of(d), None, "{:?}", d);
    }
    for d in ["n", "s", "e", "w"] {
        assert_eq!(opposite_of(opposite_of(d).unwrap()), Some(d));
    }
}

#[test]
fn errors_have_their_words() {
    assert_eq!(Error::UserNotFoundError.to_string(), "user not found");
    assert_eq!(Error::RiddleNotFoundError.to_string(), "riddle not found");
    assert_eq!(Error::RoomNotFoundError.to_string(), "room not found");
    assert_eq!(Error::UserIsInNoRoom.to_string(), "user is in no room");
    assert_eq!(Error::NeighborNotFoundError.to_string(), "neighbor not found");
    assert_eq!(Error::RoomBehindNotFoundError.to_string(), "room behind not found");
    assert_eq!(Error::RiddleNotSolvedError.to_string(), "riddle not solved");
    assert_eq!(Error::DoorwayNotAccessible.to_string(), "doorway not accessible");
    assert_eq!(Error::AlreadySolved.to_string(), "riddle already solved");
    assert_eq!(Error::RiddleHasNotBeenSeenByUser.to_string(), "riddle has not been seen by user");
    assert_eq!(Error::WrongCredentialsError.to_string(), "wrong credentials");
    assert_eq!(Error::CheatError.to_string(), "cheating is taboo");
    assert_eq!(Error::HashingError.to_string(), "unsafe password");
    assert_eq!(Error::UnsafePasswordError.to_string(), "hashing error");
    assert_eq!(Error::JWTTokenError.to_string(), "jwt token not valid");
    assert_eq!(Error::WebauthnError.to_string(), "WebAuthn error");
    assert_eq!(
        Error::MongoError("timeout".to_string()).to_string(),
        "mongodb error: timeout"
    );
    assert_eq!(
        Error::MongoQueryError("timeout".to_string()).to_string(),
        "error during mongodb query: timeout"
    );
    assert_eq!(
        Error::MongoDataError("x".to_string()).to_string(),
        "could not access field in document: x"
    );
    assert_eq!(Error::BsonOidError("x".to_string()).to_string(), "could not parse ObjectID x");
    assert_eq!(Error::GridFSError("x".to_string()).to_string(), "could not load file x");
    assert_eq!(Error::InvalidIDError("x".to_string()).to_string(), "invalid id used: x");
    assert_eq!(Error::InvalidIDError(String::new()).to_string(), "invalid id used: ");
}

#[test]
fn errors_have_their_kinds() {
    assert_eq!(Error::UserNotFoundError.classify(), ErrorKind::NotFound);
    assert_eq!(Error::RoomBehindNotFoundError.classify(), ErrorKind::NotFound);
    assert_eq!(Error::NeighborNotFoundError.classify(), ErrorKind::NotFound);
    assert_eq!(Error::RiddleNotFoundError.classify(), ErrorKind::NotFound);
    assert_eq!(Error::UserIsInNoRoom.classify(), ErrorKind::StateViolation);
    assert_eq!(Error::RiddleHasNotBeenSeenByUser.classify(), ErrorKind::StateViolation);
    assert_eq!(Error::DoorwayNotAccessible.classify(), ErrorKind::StateViolation);
    assert_eq!(Error::RiddleNotSolvedError.classify(), ErrorKind::StateViolation);
    assert_eq!(Error::AlreadySolved.classify(), ErrorKind::AlreadySolved);
    assert_eq!(Error::MongoQueryError(String::new()).classify(), ErrorKind::StoreFailure);
    assert_eq!(Error::GridFSError(String::new()).classify(), ErrorKind::StoreFailure);
    assert_eq!(Error::NoPermissionError.classify(), ErrorKind::Unauthorized);
    assert_eq!(Error::NoAuthHeaderError.classify(), ErrorKind::Unauthorized);
    assert_eq!(Error::WrongCredentialsError.classify(), ErrorKind::Other);
    assert_eq!(Error::BsonOidError(String::new()).classify(), ErrorKind::Other);
}

fn rejected(e: Error) -> (bool, u16, String, String) {
    let r = handle_rejection(&Rejection::Custom(e));
    (r.ok, r.code, r.status, r.message)
}

#[test]
fn failures_of_the_game_are_told_in_the_answer() {
    assert_eq!(
        rejected(Error::RiddleNotSolvedError),
        (false, 200, "200 OK".to_string(), "riddle not solved".to_string())
    );
    assert_eq!(
        rejected(Error::RoomBehindNotFoundError),
        (false, 200, "200 OK".to_string(), "room behind not found".to_string())
    );
    assert_eq!(
        rejected(Error::AlreadySolved),
        (false, 200, "200 OK".to_string(), "riddle already solved".to_string())
    );
    assert_eq!(status_of_error(&Error::UserNotFoundError), 200);
    assert_eq!(status_of_error(&Error::UserIsInNoRoom), 200);
}

#[test]
fn failures_of_the_store_are_not_explained() {
    assert_eq!(
        rejected(Error::MongoQueryError("secret detail".to_string())),
        (false, 500, "500 Internal Server Error".to_string(), "Internal Server Error".to_string())
    );
    assert_eq!(
        rejected(Error::GridFSError("secret detail".to_string())),
        (false, 500, "500 Internal Server Error".to_string(), "Internal Server Error".to_string())
    );
    assert_eq!(
        rejected(Error::JWTTokenCreationError),
        (false, 500, "500 Internal Server Error".to_string(), "Internal Server Error".to_string())
    );
}

#[test]
fn other_failures_have_their_status() {
    assert_eq!(
        rejected(Error::CheatError),
        (false, 402, "402 Payment Required".to_string(), "cheating is taboo".to_string())
    );
    assert_eq!(
        rejected(Error::UnsafePasswordError),
        (false, 409, "409 Conflict".to_string(), "hashing error".to_string())
    );
    assert_eq!(status_of_error(&Error::InvalidEmailError), 409);
    assert_eq!(status_of_error(&Error::UsernameNotAvailableError), 409);
    assert_eq!(
        rejected(Error::WrongCredentialsError),
        (false, 403, "403 Forbidden".to_string(), "wrong credentials".to_string())
    );
    assert_eq!(
        rejected(Error::NoPermissionError),
        (false, 401, "401 Unauthorized".to_string(), "no permission".to_string())
    );
    assert_eq!(status_of_error(&Error::JWTTokenError), 401);
    assert_eq!(
        rejected(Error::NoAuthHeaderError),
        (false, 400, "400 Bad Request".to_string(), "no auth header".to_string())
    );
    assert_eq!(
        rejected(Error::BsonOidError("x".to_string())),
        (false, 400, "400 Bad Request".to_string(), "could not parse ObjectID x".to_string())
    );
    assert_eq!(status_of_error(&Error::PasswordTooShortError), 400);
}

#[test]
fn rejections_of_the_routes_have_their_status() {
    let r = handle_rejection(&Rejection::NotFound);
    assert_eq!((r.ok, r.code, r.status.as_str(), r.message.as_str()), (false, 404, "404 Not Found", "Not Found"));
    let r = handle_rejection(&Rejection::BodyDeserializeError);
    assert_eq!((r.code, r.status.as_str(), r.message.as_str()), (400, "400 Bad Request", "BodyDeserializeError"));
    let r = handle_rejection(&Rejection::MethodNotAllowed);
    assert_eq!((r.code, r.status.as_str(), r.message.as_str()), (405, "405 Method Not Allowed", "Method Not Allowed"));
    let r = handle_rejection(&Rejection::Other);
    assert_eq!((r.code, r.status.as_str(), r.message.as_str()), (500, "500 Internal Server Error", "Internal Server Error"));
}

#[test]
fn status_responses() {
    let r = err_response(Some("doorway not accessible".to_string()));
    assert!(!r.ok);
    assert_eq!(r.message, Some("doorway not accessible".to_string()));
    let r = err_response(None);
    assert!(!r.ok);
    assert_eq!(r.message, None);
    let r = StatusResponse::good();
    assert!(r.ok);
    assert_eq!(r.message, None);
}

#[test]
fn room_responses() {
    let r = RoomResponse::bad();
    assert!(!r.ok);
    assert_eq!(r.message, Some("room not found".to_string()));
    assert_eq!(r.id, Oid::from_bytes([0; 12]));
    assert_eq!(r.game_id, Oid::from_bytes([0; 12]));
    assert_eq!(r.number, 0);
    assert_eq!(r.coords, None);
    assert!(r.neighbors.is_empty());
    assert_eq!((r.entry, r.exit), (None, None));
    let r = RoomResponse::bad_with_message(Some("no such room".to_string()));
    assert!(!r.ok);
    assert_eq!(r.message, Some("no such room".to_string()));
    let r = RoomResponse::bad_with_message(None);
    assert_eq!(r.message, Some("room not found".to_string()));
}

#[test]
fn totp_response_has_its_parameters() {
    let r = TotpResponseRaw::new(vec![1, 2, 3], "SECRET".to_string());
    assert_eq!(r.qrcode, vec![1, 2, 3]);
    assert_eq!(r.secret, "SECRET");
    assert_eq!(r.hash, "SHA1");
    assert_eq!(r.interval, 30);
    assert_eq!(r.digits, 6);
}

#[test]
fn second_factors_have_names() {
    assert_eq!(SecondFactor::from_str("TOTP"), SecondFactor::Totp);
    assert_eq!(SecondFactor::from_str("FIDO2"), SecondFactor::Fido2);
    assert_eq!(SecondFactor::from_str("fido2"), SecondFactor::Totp);
    assert_eq!(SecondFactor::from_str(""), SecondFactor::Totp);
    assert_eq!(SecondFactor::from_str("anything"), SecondFactor::Totp);
    assert_eq!(SecondFactor::Totp.as_str(), "TOTP");
    assert_eq!(SecondFactor::Fido2.as_str(), "FIDO2");
    assert_eq!(SecondFactor::Totp.to_string(), "TOTP");
    assert_eq!(SecondFactor::Fido2.to_string(), "FIDO2");
    for f in [SecondFactor::Totp, SecondFactor::Fido2] {
        assert_eq!(SecondFactor::from_str(f.as_str()), f);
    }
}

#[test]
fn small_handlers() {
    let r = ping_handler("1.2.3");
    assert!(r.ok);
    assert_eq!(r.message, None);
    assert_eq!(r.version, "1.2.3");
    assert_eq!(user_authentication_handler("u".to_string()).unwrap(), 200);
    assert!(matches!(cheat_handler("u".to_string()), Err(Error::CheatError)));
}

#[test]
fn identifiers_go_back_to_their_bytes() {
    for bytes in [
        [0u8; 12],
        [255u8; 12],
        [1, 2, 3, 4, 5, 6, 7, 8, 9, 10, 11, 12],
        [0x80, 0, 0, 0, 0x80, 0, 0, 0, 0, 0, 0, 1],
    ] {
        assert_eq!(Oid::from_bytes(bytes).bytes(), bytes);
    }
    assert_eq!(Oid { hi: 0x01020304, lo: 0x05060708090a0b0c }.bytes(), [1, 2, 3, 4, 5, 6, 7, 8, 9, 10, 11, 12]);
}
