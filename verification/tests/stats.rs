use labyrinth::auth::Role;
use labyrinth::db::DB;
use labyrinth::error::Error;
use labyrinth::ident::Oid;
use labyrinth::model::{
    Direction, GameCompletion, Riddle, RiddleAttempt, Room, User, WebauthnManagementData,
};
use labyrinth::stats::game_stats_handler;
use labyrinth::traversal::{
    enter_room, find_passage, is_exit, mark_finished, step_through,
};
use labyrinth::webauthn::{
    list_excluded_credentials, AttestationConveyancePreference, AuthenticatorAttachment,
    COSEAlgorithm, WebauthnActor, WebauthnFailure, WebauthnVolatileConfig,
};
use labyrinth::model::WebauthnCredential;

const GAME: &str = "000000000000000000000077";

fn oid(n: u64) -> Oid {
    Oid { hi: 0, lo: n }
}

fn door(direction: &str, riddle: u64) -> Direction {
    Direction { direction: direction.to_string(), riddle_id: oid(riddle), level: 0 }
}

fn room(id: u64, game: u64, neighbors: Vec<Direction>) -> Room {
    Room {
        id: oid(id),
        number: id as u32,
        coords: None,
        neighbors,
        game_id: oid(game),
        entry: None,
        exit: None,
    }
}

fn riddle(id: u64, difficulty: i32) -> Riddle {
    Riddle {
        id: oid(id),
        difficulty,
        deduction: None,
        level: 0,
        files: None,
        ignore_case: None,
        solution: String::new(),
        debriefing: None,
        task: None,
        credits: None,
        script: None,
        external_password_input: false,
    }
}

fn user(id: u64, name: &str, score: i32, activated: bool) -> User {
    User {
        id: oid(id),
        username: name.to_string(),
        email: format!("{}@example.org", name),
        role: Role::User,
        hash: String::new(),
        pin: 0,
        activated,
        created: None,
        registered: None,
        last_login: None,
        solved: vec![RiddleAttempt { riddle_id: oid(id), t0: None, t_solved: None }],
        current_riddle_attempt: None,
        rooms_entered: Vec::new(),
        finished: Vec::new(),
        level: id as u32,
        score,
        in_room: Some(oid(0xa)),
        awaiting_second_factor: false,
        totp_key: Vec::new(),
        recovery_keys: Vec::new(),
        webauthn: WebauthnManagementData::new(),
    }
}

fn world() -> DB {
    let mut db = DB::new();
    db.rooms.push(room(0xa, 0x77, vec![door("e", 1), door("n", 2)]));
    db.rooms.push(room(0xb, 0x77, vec![door("w", 1), door("s", 3), door("n", 3)]));
    db.rooms.push(room(0xc, 0x78, vec![door("w", 4), door("e", 1)]));
    db.rooms.push(room(0xd, 0x77, vec![]));
    db.rooms.push(room(0xe, 0x77, vec![door("s", 2), door("e", 9)]));
    db.riddles.push(riddle(1, 10));
    db.riddles.push(riddle(2, 20));
    db.riddles.push(riddle(3, -5));
    db.riddles.push(riddle(4, 1000));
    db.riddles.push(riddle(1, 7000));
    db
}

#[test]
fn game_is_measured() {
    let db = world();
    assert_eq!(db.get_num_rooms(&oid(0x77)).unwrap(), 4);
    assert_eq!(db.get_num_rooms(&oid(0x78)).unwrap(), 1);
    assert_eq!(db.get_num_rooms(&oid(0x79)).unwrap(), 0);
    // Riddles 1, 2, 3 and 9, each counted once.
    assert_eq!(db.collect_game_riddles(&oid(0x77)), vec![oid(1), oid(2), oid(3), oid(9)]);
    assert_eq!(db.get_num_riddles(&oid(0x77)).unwrap(), 4);
    assert_eq!(db.get_num_riddles(&oid(0x78)).unwrap(), 2);
    assert_eq!(db.get_num_riddles(&oid(0x79)).unwrap(), 0);
    // 10 + 20 - 5, and nothing for the riddle that the store does not hold.
    assert_eq!(db.get_max_score_for_game(&oid(0x77)).unwrap(), 25);
    assert_eq!(db.get_max_score_for_game(&oid(0x78)).unwrap(), 1010);
    assert_eq!(db.get_max_score_for_game(&oid(0x79)).unwrap(), 0);
}

#[test]
fn game_stats_are_reported() {
    let db = world();
    let r = game_stats_handler(GAME.to_string(), "u".to_string(), &db).unwrap();
    assert!(r.ok);
    assert_eq!(r.message, None);
    assert_eq!((r.num_rooms, r.num_riddles, r.max_score), (4, 4, 25));
    let r = game_stats_handler("000000000000000000000079".to_string(), "u".to_string(), &db).unwrap();
    assert_eq!((r.num_rooms, r.num_riddles, r.max_score), (0, 0, 0));
    assert!(matches!(
        game_stats_handler("77".to_string(), "u".to_string(), &db),
        Err(Error::BsonOidError(_))
    ));
}

#[test]
fn sum_that_does_not_fit_is_reported_as_zero() {
    let mut db = DB::new();
    db.rooms.push(room(0xa, 0x77, vec![door("e", 1), door("n", 2)]));
    db.riddles.push(riddle(1, i32::MAX));
    db.riddles.push(riddle(2, 1));
    assert_eq!(db.get_max_score_for_game(&oid(0x77)).unwrap(), 0);
    db.riddles[1].difficulty = 0;
    assert_eq!(db.get_max_score_for_game(&oid(0x77)).unwrap(), i32::MAX as u32);
    db.riddles[0].difficulty = -1;
    assert_eq!(db.get_max_score_for_game(&oid(0x77)).unwrap(), u32::MAX);
}

#[test]
fn scores_are_listed_lowest_first() {
    let mut db = world();
    db.users.push(user(1, "alice", 30, true));
    db.users.push(user(2, "bob", -4, true));
    db.users.push(user(3, "carol", 99, false));
    db.users.push(user(4, "dave", 30, true));
    db.users.push(user(5, "erin", 7, true));
    let table = db.get_all_user_scores().unwrap();
    let shown: Vec<(&str, i32)> = table.iter().map(|e| (e.username.as_str(), e.score)).collect();
    assert_eq!(shown, vec![("bob", -4), ("erin", 7), ("alice", 30), ("dave", 30)]);
    assert_eq!(table[0].id, oid(2));
    assert_eq!(table[0].level, 2);
    assert_eq!(table[0].solved, vec![RiddleAttempt { riddle_id: oid(2), t0: None, t_solved: None }]);
    assert_eq!(table[0].in_room, Some(oid(0xa)));
    assert_eq!(table[0].current_riddle_attempt, None);
    assert!(DB::new().get_all_user_scores().unwrap().is_empty());
}

#[test]
fn store_finds_the_room_behind() {
    let db = world();
    assert_eq!(db.get_room_behind(&"w".to_string(), &oid(1)).unwrap().id, oid(0xb));
    assert_eq!(db.get_room_behind(&"e".to_string(), &oid(1)).unwrap().id, oid(0xa));
    assert_eq!(db.get_room_behind(&"n".to_string(), &oid(3)).unwrap().id, oid(0xb));
    assert!(matches!(db.get_room_behind(&"w".to_string(), &oid(2)), Err(Error::RoomBehindNotFoundError)));
    assert!(matches!(db.get_room_behind(&"s".to_string(), &oid(1)), Err(Error::RoomBehindNotFoundError)));
    assert!(db.rooms[1].has_doorway("s", &oid(3)));
    assert!(!db.rooms[1].has_doorway("s", &oid(1)));
    assert_eq!(db.rooms[1].find_doorway_in("n"), Some(2));
    assert_eq!(db.rooms[1].find_doorway_in("e"), None);
    assert_eq!(db.rooms[1].find_doorway_to(&oid(3)), Some(1));
    assert_eq!(db.rooms[1].find_doorway_to(&oid(2)), None);
    assert_eq!(db.get_room(&oid(0xc)).unwrap().game_id, oid(0x78));
    assert!(matches!(db.get_room(&oid(0xf)), Err(Error::RoomNotFoundError)));
    // Of two riddles with one identifier the first is found.
    assert_eq!(db.get_riddle_by_oid(&oid(1)).unwrap().unwrap().difficulty, 10);
    assert!(db.get_riddle_by_oid(&oid(9)).unwrap().is_none());
}

#[test]
fn passage_is_found_or_refused() {
    let db = world();
    let mut u = user(1, "alice", 0, true);
    let p = find_passage(&u, &db.rooms[0], "e").unwrap();
    assert_eq!(p.opposite, "w");
    assert_eq!(p.riddle_id, oid(1));
    assert!(matches!(find_passage(&u, &db.rooms[0], "n"), Err(Error::RiddleNotSolvedError)));
    assert!(matches!(find_passage(&u, &db.rooms[0], "s"), Err(Error::NeighborNotFoundError)));
    assert!(matches!(find_passage(&u, &db.rooms[3], "e"), Err(Error::NeighborNotFoundError)));
    u.solved.push(RiddleAttempt { riddle_id: oid(2), t0: None, t_solved: None });
    let p = find_passage(&u, &db.rooms[0], "n").unwrap();
    assert_eq!((p.opposite.as_str(), p.riddle_id), ("s", oid(2)));
}

#[test]
fn step_moves_the_user() {
    let db = world();
    let mut u = user(1, "alice", 0, true);
    u.rooms_entered = vec![oid(0xa)];
    assert_eq!(step_through(&mut u, &db.rooms[0], &db.rooms[1], 50), None);
    assert_eq!(u.in_room, Some(oid(0xb)));
    assert_eq!(u.rooms_entered, vec![oid(0xa), oid(0xb)]);
    let mut exit = room(0xb, 0x77, vec![]);
    exit.exit = Some(true);
    assert!(is_exit(&exit));
    assert!(!is_exit(&db.rooms[0]));
    exit.exit = Some(false);
    assert!(!is_exit(&exit));
    exit.exit = Some(true);
    let mark = step_through(&mut u, &exit, &db.rooms[0], 60);
    assert_eq!(mark, Some(GameCompletion { game_id: oid(0x77), timestamp: 60 }));
    assert_eq!(u.in_room, Some(oid(0xa)));
    assert_eq!(u.rooms_entered, vec![oid(0xa), oid(0xb)]);
    assert_eq!(u.finished, vec![GameCompletion { game_id: oid(0x77), timestamp: 60 }]);
    // The same mark is not made twice.
    step_through(&mut u, &exit, &db.rooms[0], 60);
    assert_eq!(u.finished.len(), 1);
    let mut rooms = vec![oid(1), oid(2)];
    enter_room(&mut rooms, oid(1));
    enter_room(&mut rooms, oid(3));
    enter_room(&mut rooms, oid(3));
    assert_eq!(rooms, vec![oid(1), oid(2), oid(3)]);
    let mut marks = Vec::new();
    mark_finished(&mut marks, GameCompletion { game_id: oid(1), timestamp: 1 });
    mark_finished(&mut marks, GameCompletion { game_id: oid(1), timestamp: 2 });
    mark_finished(&mut marks, GameCompletion { game_id: oid(1), timestamp: 1 });
    assert_eq!(marks.len(), 2);
}

#[test]
fn site_presents_itself_to_security_keys() {
    let c = WebauthnVolatileConfig::try_new(
        "Labyrinth",
        "https://labyrinth.example.org",
        "labyrinth.example.org",
        Some(AuthenticatorAttachment::CrossPlatform),
    )
    .unwrap();
    assert_eq!(c.get_relying_party_name(), "Labyrinth");
    assert_eq!(c.get_relying_party_id(), "labyrinth.example.org");
    assert_eq!(c.get_origin(), "https://labyrinth.example.org");
    assert_eq!(c.get_authenticator_attachment(), Some(AuthenticatorAttachment::CrossPlatform));
    assert_eq!(c.get_attestation_preference(), AttestationConveyancePreference::Direct);
    assert!(c.allow_subdomains_origin());
    assert_eq!(
        c.get_credential_algorithms(),
        vec![
            COSEAlgorithm::ES256,
            COSEAlgorithm::ES384,
            COSEAlgorithm::ES512,
            COSEAlgorithm::RS256,
            COSEAlgorithm::RS384,
            COSEAlgorithm::RS512,
            COSEAlgorithm::PS256,
            COSEAlgorithm::PS384,
            COSEAlgorithm::PS512,
            COSEAlgorithm::EDDSA,
        ]
    );
    assert!(WebauthnVolatileConfig::try_new("Labyrinth", "not an address", "x", None).is_none());
    assert!(WebauthnVolatileConfig::try_new("Labyrinth", "", "x", None).is_none());
    let c = WebauthnVolatileConfig::try_new("Labyrinth", "http://localhost:8080", "localhost", None).unwrap();
    assert_eq!(c.get_authenticator_attachment(), None);
}

#[test]
fn registration_of_a_security_key_is_decided() {
    let mut db = world();
    db.users.push(user(1, "alice", 0, true));
    let config = WebauthnVolatileConfig::try_new("Labyrinth", "http://localhost", "localhost", None).unwrap();
    let actor = WebauthnActor::new(config);
    let alice = "alice".to_string();
    let c = actor.challenge_register(&db, &alice).unwrap();
    assert_eq!(c.user_id, b"alice".to_vec());
    assert_eq!(c.user_name, "alice");
    assert_eq!(c.user_display_name, "alice");
    assert_eq!(c.excluded, None);
    assert_eq!(
        actor.challenge_register(&db, &"nobody".to_string()).err(),
        Some(WebauthnFailure::UserNotPresent)
    );
    assert_eq!(
        actor.registration_under_way(&db, &alice).err(),
        Some(WebauthnFailure::ChallengeNotFound)
    );
    assert_eq!(
        actor.registration_under_way(&db, &"nobody".to_string()).err(),
        Some(WebauthnFailure::UserNotPresent)
    );
    db.save_webauthn_registration_state(&alice, &vec![1, 2]).unwrap();
    let (state, creds) = actor.registration_under_way(&db, &alice).unwrap();
    assert_eq!(state, vec![1, 2]);
    assert!(creds.is_empty());
    let new_key = WebauthnCredential { cred_id: vec![5], counter: 1, verified: true };
    actor.register(&mut db, &alice, creds, Some(new_key)).unwrap();
    assert_eq!(db.users[0].webauthn.credentials.len(), 1);
    assert_eq!(db.users[0].webauthn.credentials[0].cred_id, vec![5]);
    let (_, creds) = actor.registration_under_way(&db, &alice).unwrap();
    actor.register(&mut db, &alice, creds, None).unwrap();
    assert_eq!(db.users[0].webauthn.credentials.len(), 1);
    let c = actor.challenge_register(&db, &alice).unwrap();
    assert_eq!(c.excluded, Some(vec![vec![5]]));
    assert_eq!(list_excluded_credentials(&db.users[0]), Some(vec![vec![5]]));
}
