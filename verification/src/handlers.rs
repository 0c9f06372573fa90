//! The game's requests, each carried out against the store: answering a
//! riddle, walking through a doorway, and reading a debriefing.

use crate::access::location;
use crate::clock::unix_now;
use crate::db::{DB, DBView};
use crate::error::Error;
use crate::files::riddle_shown;
use crate::ident::{Oid, is_oid_text, oid_of_text};
use crate::model::{RiddleAttempt, RiddleView, RoomView, Timestamp, UploadedFile, UploadedFileView};
use crate::resolve::{
    attempt_fits, attempt_outcome, check_answer, is_correct, record_attempt, score_fits,
};
use crate::responses::{
    DebriefingResponse, FileResponse, PingResponse, RiddleResponse, RiddleSolveRequest,
    RiddleSolvedResponse, RoomResponse, SteppedThroughResponse,
};
use crate::seqs::lemma_first_index;
use crate::traversal::{completion, find_passage, passage, step_through};
use vstd::prelude::*;

verus! {

/// The verdict on an answer.
pub struct Verdict {
    pub riddle_id: Oid,
    pub solved: bool,
    pub score: i32,
    pub level: u32,
}

impl DBView {
    /// What an answer does: the store afterwards, and the verdict or the
    /// error. A riddle that the user may not see, and one that the store does
    /// not hold, is not found. The answer is then judged and applied to the
    /// user; a right answer writes history, level and score, a wrong one the
    /// score alone. A score that the score's type cannot hold is not
    /// written: the answer fails with `UserUpdateError`. An error leaves the
    /// store as it was.
    pub open spec fn solve(
        self,
        riddle_id: Oid,
        submitted: Seq<char>,
        username: Seq<char>,
        now: Timestamp,
    ) -> (DBView, Result<Verdict, Error>) {
        match self.access(riddle_id, username) {
            Err(_) => (self, Err(Error::RiddleNotFoundError)),
            Ok((id, u)) => match self.riddle_at(id) {
                None => (self, Err(Error::RiddleNotFoundError)),
                Some(r) => {
                    let user = self.users[u];
                    let riddle = self.riddles[r];
                    let correct = is_correct(riddle, submitted);
                    match attempt_outcome(user, riddle, correct, now) {
                        Err(e) => (self, Err(e)),
                        Ok(after) => if !score_fits(user, riddle, correct) {
                            (self, Err(Error::UserUpdateError))
                        } else {
                            (
                                if correct {
                                    self.solved_set(
                                        user.id,
                                        after.solved,
                                        after.level,
                                        after.score,
                                    )
                                } else {
                                    self.score_set(user.id, after.score)
                                },
                                Ok(
                                    Verdict {
                                        riddle_id: riddle.id,
                                        solved: correct,
                                        score: after.score,
                                        level: after.level,
                                    },
                                ),
                            )
                        },
                    }
                },
            },
        }
    }

    /// What a step in a direction does: the store afterwards, and the
    /// position of the room that the user has entered, or the error. The user
    /// must exist and stand in a room that the store holds; the room must
    /// have a doorway in the direction, whose riddle the user has solved; and
    /// some room must hold the other side of the doorway. An error leaves the
    /// store as it was.
    pub open spec fn go(self, direction: Seq<char>, username: Seq<char>, now: Timestamp) -> (
        DBView,
        Result<int, Error>,
    ) {
        match self.user_named(username) {
            None => (self, Err(Error::UserNotFoundError)),
            Some(u) => match location(self.users[u]) {
                Err(e) => (self, Err(e)),
                Ok(room_id) => match self.room_at(room_id) {
                    None => (self, Err(Error::RoomNotFoundError)),
                    Some(r) => match passage(self.users[u], self.rooms[r], direction) {
                        Err(e) => (self, Err(e)),
                        Ok((back, riddle_id)) => match self.room_behind(back, riddle_id) {
                            None => (self, Err(Error::RoomBehindNotFoundError)),
                            Some(b) => (
                                self.moved(
                                    self.users[u].id,
                                    self.rooms[b].id,
                                    completion(self.rooms[r], now),
                                ),
                                Ok(self.room_at(self.rooms[b].id).unwrap()),
                            ),
                        },
                    },
                },
            },
        }
    }

    /// The riddle whose debriefing the user of that name may read: the one
    /// with that identifier, where the user has solved it and the store holds
    /// it.
    pub open spec fn solved_riddle(self, riddle_id: Oid, username: Seq<char>) -> Option<int> {
        match self.solver(username, riddle_id) {
            Some(_) => self.riddle_at(riddle_id),
            None => None,
        }
    }
}

/// Judges the answer `body` of the user `username` to the riddle that
/// `riddle_id_str` names, at the time `now`, and writes the outcome to the
/// store.
pub fn riddle_solve_handler_at(
    riddle_id_str: String,
    body: RiddleSolveRequest,
    username: String,
    db: &mut DB,
    now: Timestamp,
) -> (r: Result<RiddleSolvedResponse, Error>)
    ensures
        !is_oid_text(riddle_id_str@) ==> final(db)@ == old(db)@ && (r matches Err(e)
            && e is BsonOidError),
        is_oid_text(riddle_id_str@) ==> ({
            let (after, outcome) = old(db)@.solve(
                oid_of_text(riddle_id_str@),
                body.solution@,
                username@,
                now,
            );
            &&& final(db)@ == after
            &&& match outcome {
                Ok(v) => r matches Ok(resp) && resp.ok && resp.message is None && resp.riddle_id
                    == v.riddle_id && resp.solved == v.solved && resp.score == v.score
                    && resp.level == v.level,
                Err(e) => r matches Err(x) && x == e,
            }
        }),
{
    let oid = match Oid::parse_str(riddle_id_str.as_str()) {
        Ok(oid) => oid,
        Err(e) => {
            return Err(e);
        },
    };
    let (riddle_id, mut user) = match db.riddle_accessibility(&oid, &username) {
        Ok(granted) => granted,
        Err(_) => {
            return Err(Error::RiddleNotFoundError);
        },
    };
    let riddle = match db.get_riddle_by_oid(&riddle_id) {
        Ok(Some(riddle)) => riddle,
        _ => {
            return Err(Error::RiddleNotFoundError);
        },
    };
    let solved = check_answer(&riddle, body.solution.as_str());
    let scored = user.has_seen(&riddle.id) && !(solved && user.has_solved(&riddle.id));
    if scored && !attempt_fits(&user, &riddle, solved) {
        return Err(Error::UserUpdateError);
    }
    match record_attempt(&mut user, &riddle, solved, now) {
        Ok(()) => {},
        Err(e) => {
            return Err(e);
        },
    }
    if solved {
        let _ = db.set_user_solved(&user.solved, &user);
    } else {
        let _ = db.rewrite_user_score(&user);
    }
    Ok(
        RiddleSolvedResponse {
            ok: true,
            riddle_id: riddle.id,
            solved,
            score: user.score,
            level: user.level,
            message: None,
        },
    )
}

/// Judges an answer at the time that the clock shows, and writes the outcome
/// to the store.
pub fn riddle_solve_handler(
    riddle_id_str: String,
    body: RiddleSolveRequest,
    username: String,
    db: &mut DB,
) -> (r: Result<RiddleSolvedResponse, Error>)
    ensures
        !is_oid_text(riddle_id_str@) ==> final(db)@ == old(db)@ && (r matches Err(e)
            && e is BsonOidError),
        is_oid_text(riddle_id_str@) ==> exists|now: Timestamp|
            {
                let (after, outcome) = #[trigger] old(db)@.solve(
                    oid_of_text(riddle_id_str@),
                    body.solution@,
                    username@,
                    now,
                );
                &&& final(db)@ == after
                &&& match outcome {
                    Ok(v) => r matches Ok(resp) && resp.ok && resp.message is None
                        && resp.riddle_id == v.riddle_id && resp.solved == v.solved && resp.score
                        == v.score && resp.level == v.level,
                    Err(e) => r matches Err(x) && x == e,
                }
            },
{
    let now = unix_now();
    riddle_solve_handler_at(riddle_id_str, body, username, db, now)
}

/// Moves the user `username` through the doorway in the direction
/// `direction_str`, at the time `now`, and shows the room that they enter.
pub fn go_handler_at(direction_str: String, username: String, db: &mut DB, now: Timestamp) -> (r:
    Result<SteppedThroughResponse, Error>)
    ensures
        ({
            let (after, outcome) = old(db)@.go(direction_str@, username@, now);
            &&& final(db)@ == after
            &&& match outcome {
                Ok(n) => r matches Ok(resp) && resp.ok && resp.message is None && resp.room.ok
                    && resp.room.message is None && resp.room.room() == old(db)@.rooms[n],
                Err(e) => r matches Err(x) && x == e,
            }
        }),
{
    let mut user = match db.get_user(&username) {
        Ok(user) => user,
        Err(e) => {
            return Err(e);
        },
    };
    let in_room = match crate::access::current_room(&user) {
        Ok(in_room) => in_room,
        Err(e) => {
            return Err(e);
        },
    };
    let room = match db.get_room(&in_room) {
        Ok(room) => room,
        Err(e) => {
            return Err(e);
        },
    };
    let door = match find_passage(&user, &room, direction_str.as_str()) {
        Ok(door) => door,
        Err(e) => {
            return Err(e);
        },
    };
    let room_behind = match db.get_room_behind(&door.opposite, &door.riddle_id) {
        Ok(room_behind) => room_behind,
        Err(e) => {
            return Err(e);
        },
    };
    let finished = step_through(&mut user, &room, &room_behind, now);
    let _ = db.set_user_room(&user, room_behind.id, finished);
    proof {
        let b = old(db)@.room_behind(door.opposite@, door.riddle_id).unwrap();
        lemma_first_index(
            old(db)@.rooms,
            |r: RoomView| r.has_doorway(door.opposite@, door.riddle_id),
        );
        lemma_first_index(old(db)@.rooms, |r: RoomView| r.id == room_behind.id);
        assert(old(db)@.rooms[b].id == room_behind.id);
        assert(db@.rooms == old(db)@.rooms);
    }
    match db.get_room(&room_behind.id) {
        Ok(room) => Ok(
            SteppedThroughResponse { ok: true, message: None, room: RoomResponse::found(room) },
        ),
        Err(e) => Err(e),
    }
}

/// Moves the user through the doorway in a direction at the time that the
/// clock shows, and shows the room that they enter.
pub fn go_handler(direction_str: String, username: String, db: &mut DB) -> (r: Result<
    SteppedThroughResponse,
    Error,
>)
    ensures
        exists|now: Timestamp|
            {
                let (after, outcome) = #[trigger] old(db)@.go(direction_str@, username@, now);
                &&& final(db)@ == after
                &&& match outcome {
                    Ok(n) => r matches Ok(resp) && resp.ok && resp.message is None && resp.room.ok
                        && resp.room.message is None && resp.room.room() == old(db)@.rooms[n],
                    Err(e) => r matches Err(x) && x == e,
                }
            },
{
    let now = unix_now();
    go_handler_at(direction_str, username, db, now)
}

/// Shows the debriefing of the riddle that `riddle_id_str` names to the user
/// `username`, who must have solved it.
pub fn debriefing_get_by_riddle_id_handler(riddle_id_str: String, username: String, db: &DB) -> (r:
    Result<DebriefingResponse, Error>)
    ensures
        !is_oid_text(riddle_id_str@) ==> (r matches Err(e) && e is BsonOidError),
        is_oid_text(riddle_id_str@) ==> match db@.solved_riddle(
            oid_of_text(riddle_id_str@),
            username@,
        ) {
            Some(i) => r matches Ok(resp) && resp.ok && resp.message is None
                && crate::model::text_view(resp.debriefing) == db@.riddles[i].debriefing,
            None => r matches Err(e) && e == Error::RiddleNotFoundError,
        },
{
    let oid = match Oid::parse_str(riddle_id_str.as_str()) {
        Ok(oid) => oid,
        Err(e) => {
            return Err(e);
        },
    };
    let riddle = match db.get_riddle_if_solved(&oid, &username) {
        Ok(Some(riddle)) => riddle,
        _ => {
            return Err(Error::RiddleNotFoundError);
        },
    };
    Ok(DebriefingResponse { ok: true, message: None, debriefing: riddle.debriefing })
}

/// The attempt that begins when a riddle is shown at `now`.
pub open spec fn fresh_attempt(riddle_id: Oid, now: Timestamp) -> RiddleAttempt {
    RiddleAttempt { riddle_id, t0: Some(now), t_solved: None }
}

/// The files of a riddle, none where it has none.
pub open spec fn attached(riddle: RiddleView) -> Seq<UploadedFileView> {
    match riddle.files {
        Some(files) => files,
        None => Seq::empty(),
    }
}

impl DBView {
    /// The riddle that the user of that name is to be shown: the position of
    /// the riddle with that identifier, where the user may see it and the
    /// store holds it.
    pub open spec fn riddle_to_show(self, riddle_id: Oid, username: Seq<char>) -> Result<int, Error> {
        match self.access(riddle_id, username) {
            Err(e) => Err(e),
            Ok((id, _)) => match self.riddle_at(id) {
                None => Err(Error::RiddleNotFoundError),
                Some(r) => Ok(r),
            },
        }
    }
}

/// Shows the riddle that `riddle_id_str` names to the user `username`, who
/// must be able to see it from where they stand. Showing it begins the
/// user's attempt: the riddle becomes their current one, first seen at `now`,
/// and that is written before the riddle's files are fetched. It is written
/// to an activated user alone: one who is not activated is shown the riddle
/// and has nothing written.
pub fn riddle_get_oid_handler_at(
    riddle_id_str: String,
    username: String,
    db: &mut DB,
    now: Timestamp,
) -> (r: Result<RiddleResponse, Error>)
    ensures
        !is_oid_text(riddle_id_str@) ==> final(db)@ == old(db)@ && (r matches Err(e)
            && e is BsonOidError),
        is_oid_text(riddle_id_str@) ==> match old(db)@.riddle_to_show(
            oid_of_text(riddle_id_str@),
            username@,
        ) {
            Err(e) => final(db)@ == old(db)@ && (r matches Err(x) && x == e),
            Ok(i) => {
                let riddle = old(db)@.riddles[i];
                &&& final(db)@ == old(db)@.stamped(
                    username@,
                    fresh_attempt(oid_of_text(riddle_id_str@), now),
                )
                &&& if old(db)@.holds_files(attached(riddle)) {
                    r matches Ok(resp) && resp@ == riddle_shown(
                        riddle,
                        old(db)@.files_shown(attached(riddle)),
                    )
                } else {
                    r matches Err(e) && e is GridFSError
                }
            },
        },
{
    let oid = match Oid::parse_str(riddle_id_str.as_str()) {
        Ok(oid) => oid,
        Err(e) => {
            return Err(e);
        },
    };
    let (riddle_id, _user) = match db.riddle_accessibility(&oid, &username) {
        Ok(granted) => granted,
        Err(e) => {
            return Err(e);
        },
    };
    let riddle = match db.get_riddle_by_oid(&riddle_id) {
        Ok(Some(riddle)) => riddle,
        _ => {
            return Err(Error::RiddleNotFoundError);
        },
    };
    let riddle_attempt = RiddleAttempt { riddle_id, t0: Some(now), t_solved: None };
    let _ = db.set_current_riddle_attempt(&username, riddle_attempt);
    proof {
        assert(db@.files == old(db)@.files);
        crate::files::lemma_files_shown_by_files(db@, old(db)@, attached(riddle@));
    }
    let found_files = match &riddle.files {
        Some(files) => {
            assert(files@.map_values(|x: UploadedFile| x@) =~= attached(riddle@));
            match db.show_files(files) {
                Ok(found) => found,
                Err(e) => {
                    return Err(e);
                },
            }
        },
        None => {
            let none: Vec<FileResponse> = Vec::new();
            assert(none@.map_values(|x: FileResponse| x@) =~= db@.files_shown(Seq::empty()));
            none
        },
    };
    Ok(RiddleResponse::of(riddle, found_files))
}

/// Shows a riddle to a user, whose attempt begins at the time that the clock
/// shows.
pub fn riddle_get_oid_handler(riddle_id_str: String, username: String, db: &mut DB) -> (r: Result<
    RiddleResponse,
    Error,
>)
    ensures
        !is_oid_text(riddle_id_str@) ==> final(db)@ == old(db)@ && (r matches Err(e)
            && e is BsonOidError),
        is_oid_text(riddle_id_str@) ==> match old(db)@.riddle_to_show(
            oid_of_text(riddle_id_str@),
            username@,
        ) {
            Err(e) => final(db)@ == old(db)@ && (r matches Err(x) && x == e),
            Ok(i) => {
                let riddle = old(db)@.riddles[i];
                &&& exists|now: Timestamp|
                    final(db)@ == old(db)@.stamped(
                        username@,
                        #[trigger] fresh_attempt(oid_of_text(riddle_id_str@), now),
                    )
                &&& if old(db)@.holds_files(attached(riddle)) {
                    r matches Ok(resp) && resp@ == riddle_shown(
                        riddle,
                        old(db)@.files_shown(attached(riddle)),
                    )
                } else {
                    r matches Err(e) && e is GridFSError
                }
            },
        },
{
    let now = unix_now();
    riddle_get_oid_handler_at(riddle_id_str, username, db, now)
}

/// Shows the first riddle of a level with its files, whoever asks and
/// wherever they stand. No attempt begins.
pub fn riddle_get_by_level_handler(level: u32, _username: String, db: &DB) -> (r: Result<
    RiddleResponse,
    Error,
>)
    ensures
        match db@.riddle_of_level(level) {
            None => r matches Err(e) && e == Error::RiddleNotFoundError,
            Some(i) => {
                let riddle = db@.riddles[i];
                if db@.holds_plain_files(attached(riddle)) {
                    r matches Ok(resp) && resp@ == riddle_shown(
                        riddle,
                        db@.plain_files_shown(attached(riddle)),
                    )
                } else {
                    r matches Err(e) && e is GridFSError
                }
            },
        },
{
    let riddle = match db.get_riddle_by_level(level) {
        Ok(Some(riddle)) => riddle,
        _ => {
            return Err(Error::RiddleNotFoundError);
        },
    };
    let found_files = match &riddle.files {
        Some(files) => {
            assert(files@.map_values(|x: UploadedFile| x@) =~= attached(riddle@));
            match db.show_plain_files(files) {
                Ok(found) => found,
                Err(e) => {
                    return Err(e);
                },
            }
        },
        None => {
            let none: Vec<FileResponse> = Vec::new();
            assert(none@.map_values(|x: FileResponse| x@) =~= db@.plain_files_shown(Seq::empty()));
            none
        },
    };
    Ok(RiddleResponse::of(riddle, found_files))
}

/// Answers a ping with the version of the game.
pub fn ping_handler(version: &str) -> (r: PingResponse)
    ensures
        r.ok,
        r.message is None,
        r.version@ == version@,
{
    PingResponse { ok: true, message: None, version: version.to_owned() }
}

/// Answers a user who asks whether they are known: they are.
pub fn user_authentication_handler(_username: String) -> (r: Result<u16, Error>)
    ensures
        r == Ok::<u16, Error>(200),
{
    Ok(200)
}

/// Answers a user who tries to cheat: cheating is refused.
pub fn cheat_handler(_username: String) -> (r: Result<u16, Error>)
    ensures
        r matches Err(e) && e == Error::CheatError,
{
    Err(Error::CheatError)
}

} // verus!
