//! What holds of the game whatever the store holds.

use crate::db::DBView;
use crate::error::Error;
use crate::handlers::fresh_attempt;
use crate::ident::Oid;
use crate::model::{DirectionView, GameCompletion, RiddleView, RoomView, Timestamp, UserView};
use crate::resolve::{attempt_outcome, higher, is_correct, rewarded, score_fits};
use crate::rooms::{lemma_opposite_involution, opposite};
use crate::seqs::{lemma_first_index, lemma_first_index_is, lemma_first_index_update};
use crate::traversal::{completion, lemma_set_added_no_duplicates, passage, relocated};
use vstd::prelude::*;

verus! {

impl DBView {
    /// The room in which the user of that name stands, as the store holds
    /// it.
    pub open spec fn room_of(self, username: Seq<char>) -> Option<RoomView> {
        match self.user_named(username) {
            None => None,
            Some(u) => match self.users[u].in_room {
                None => None,
                Some(room_id) => match self.room_at(room_id) {
                    None => None,
                    Some(r) => Some(self.rooms[r]),
                },
            },
        }
    }
}

/// A user may see a riddle exactly when the room in which they stand has a
/// doorway that the riddle locks, and the riddle granted is the one asked
/// for.
pub proof fn lemma_access_iff_doorway(db: DBView, riddle_id: Oid, username: Seq<char>)
    ensures
        db.access(riddle_id, username) is Ok <==> (db.room_of(username) matches Some(room)
            && exists|d: int|
            0 <= d < room.neighbors.len() && (#[trigger] room.neighbors[d]).riddle_id == riddle_id),
        db.access(riddle_id, username) matches Ok((id, u)) ==> id == riddle_id && db.user_named(
            username,
        ) == Some(u),
{
    if let Some(room) = db.room_of(username) {
        lemma_first_index(room.neighbors, |d: DirectionView| d.riddle_id == riddle_id);
    }
}

/// Whether a user may see a riddle depends on the user and on the room in
/// which they stand, and on no other room: two stores that agree on both
/// agree on the access.
pub proof fn lemma_access_ignores_other_rooms(
    a: DBView,
    b: DBView,
    riddle_id: Oid,
    username: Seq<char>,
)
    requires
        a.user_named(username) == b.user_named(username),
        a.user_named(username) matches Some(u) ==> a.users[u] == b.users[u],
        a.room_of(username) == b.room_of(username),
    ensures
        a.access(riddle_id, username) == b.access(riddle_id, username),
{
}

/// A step is taken only through a doorway whose riddle the user has solved.
/// Where the doorway in the direction is locked by a riddle that the user
/// has not solved, the step fails with `RiddleNotSolvedError`; and a step
/// that fails, for whatever reason, leaves the store as it was, so the user
/// stands where they stood.
pub proof fn lemma_step_needs_solved_riddle(
    db: DBView,
    direction: Seq<char>,
    username: Seq<char>,
    now: Timestamp,
)
    ensures
        db.go(direction, username, now).1 is Err ==> db.go(direction, username, now).0 == db,
        (db.user_named(username) matches Some(u) && db.room_of(username) matches Some(room)
            && room.doorway_in(direction) matches Some(d)) ==> {
            let user = db.users[db.user_named(username).unwrap()];
            let room = db.room_of(username).unwrap();
            let edge = room.neighbors[room.doorway_in(direction).unwrap()];
            &&& db.go(direction, username, now).1 is Ok ==> user.has_solved(edge.riddle_id)
            &&& !user.has_solved(edge.riddle_id) ==> db.go(direction, username, now) == (
                db,
                Err::<int, Error>(Error::RiddleNotSolvedError),
            )
        },
{
}

/// The right answer to a riddle that the user was shown and has not solved
/// adds the riddle's difficulty to the score, so a difficulty above zero
/// raises the score and none below zero lowers it; it raises the level to the
/// riddle's where that is higher, and the riddle joins the solved history.
pub proof fn lemma_right_answer_rewards(
    user: UserView,
    riddle: RiddleView,
    now: Timestamp,
)
    requires
        user.has_seen(riddle.id),
        !user.has_solved(riddle.id),
        score_fits(user, riddle, true),
    ensures
        attempt_outcome(user, riddle, true, now) matches Ok(after) && {
            &&& after.score == user.score + riddle.difficulty
            &&& riddle.difficulty > 0 ==> after.score > user.score
            &&& riddle.difficulty >= 0 ==> after.score >= user.score
            &&& after.level == higher(user.level, riddle.level)
            &&& after.level >= user.level
            &&& after.has_solved(riddle.id)
            &&& after.solved.len() == user.solved.len() + 1
        },
{
    let after = rewarded(user, riddle, now);
    assert(after.solved[user.solved.len() as int].riddle_id == riddle.id);
}

/// A wrong answer takes the riddle's penalty off the score and changes
/// nothing else: the level does not rise and the solved history stays.
pub proof fn lemma_wrong_answer_costs(user: UserView, riddle: RiddleView, now: Timestamp)
    requires
        user.has_seen(riddle.id),
        score_fits(user, riddle, false),
    ensures
        attempt_outcome(user, riddle, false, now) matches Ok(after) && {
            &&& after.score == user.score - riddle.penalty()
            &&& after == UserView { score: after.score, ..user }
        },
{
}

/// A wrong answer given twice costs twice: the second deduction is made as
/// the first was.
pub proof fn lemma_wrong_answer_twice_costs_twice(
    user: UserView,
    riddle: RiddleView,
    t1: Timestamp,
    t2: Timestamp,
)
    requires
        user.has_seen(riddle.id),
        i32::MIN <= user.score - 2 * riddle.penalty() <= i32::MAX,
        i32::MIN <= user.score - riddle.penalty() <= i32::MAX,
    ensures
        attempt_outcome(user, riddle, false, t1) matches Ok(once) && attempt_outcome(
            once,
            riddle,
            false,
            t2,
        ) matches Ok(twice) && {
            &&& once.score == user.score - riddle.penalty()
            &&& twice.score == user.score - 2 * riddle.penalty()
            &&& twice == UserView { score: twice.score, ..user }
        },
{
}

/// An answer to a riddle that the user was not shown is refused, right or
/// wrong, and the user is left as they were.
pub proof fn lemma_unseen_riddle_is_refused(
    user: UserView,
    riddle: RiddleView,
    correct: bool,
    now: Timestamp,
)
    requires
        !user.has_seen(riddle.id),
    ensures
        attempt_outcome(user, riddle, correct, now) == Err::<UserView, Error>(
            Error::RiddleHasNotBeenSeenByUser,
        ),
{
}

impl DBView {
    /// No two users share an identifier or a name.
    pub open spec fn users_distinct(self) -> bool {
        forall|i: int, j: int|
            0 <= i < j < self.users.len() ==> (#[trigger] self.users[i]).id != (
            #[trigger] self.users[j]).id && self.users[i].username != self.users[j].username
    }

    /// No two rooms share an identifier.
    pub open spec fn rooms_distinct(self) -> bool {
        forall|i: int, j: int|
            0 <= i < j < self.rooms.len() ==> (#[trigger] self.rooms[i]).id != (
            #[trigger] self.rooms[j]).id
    }

    /// No room has two doorways in one direction.
    pub open spec fn doorways_distinct(self) -> bool {
        forall|r: int| 0 <= r < self.rooms.len() ==> (#[trigger] self.rooms[r]).directions_distinct()
    }

    /// No two rooms have a doorway in the same direction that the same riddle
    /// locks: a doorway has one far side.
    pub open spec fn corridors_distinct(self) -> bool {
        forall|i: int, j: int, direction: Seq<char>, riddle_id: Oid|
            #![trigger self.rooms[i].has_doorway(direction, riddle_id), self.rooms[j].has_doorway(direction, riddle_id)]
            0 <= i < j < self.rooms.len() ==> !(self.rooms[i].has_doorway(direction, riddle_id)
                && self.rooms[j].has_doorway(direction, riddle_id))
    }

    /// The store is one in which identifiers identify: users, rooms, the
    /// doorways of a room by their direction, and the far side of a doorway.
    pub open spec fn well_formed(self) -> bool {
        &&& self.users_distinct()
        &&& self.rooms_distinct()
        &&& self.doorways_distinct()
        &&& self.corridors_distinct()
    }
}

/// Among users with distinct identifiers, an activated user is the player
/// that their identifier names, and the user that their name names.
pub proof fn lemma_player_is_user(db: DBView, u: int)
    requires
        db.users_distinct(),
        0 <= u < db.users.len(),
    ensures
        db.users[u].activated ==> db.player(db.users[u].id) == Some(u),
        !db.users[u].activated ==> db.player(db.users[u].id) is None,
        db.user_named(db.users[u].username) == Some(u),
{
    let id = db.users[u].id;
    let name = db.users[u].username;
    let p = |x: UserView| x.id == id && x.activated;
    let q = |x: UserView| x.username == name;
    lemma_first_index(db.users, p);
    lemma_first_index(db.users, q);
    if db.users[u].activated {
        assert(p(db.users[u]));
        lemma_first_index_is(db.users, p, u);
    } else {
        if let Some(k) = db.player(id) {
            assert(p(db.users[k]));
            assert(k != u);
        }
    }
    assert(q(db.users[u]));
    lemma_first_index_is(db.users, q, u);
}

/// At the level of the store: the right answer of an activated user to a
/// riddle that they may see, were shown and have not solved is accepted, and
/// the stored user has the riddle's difficulty added to the score, the level
/// raised to the riddle's where that is higher, and the riddle in the solved
/// history. No other user changes.
pub proof fn lemma_solve_rewards(
    db: DBView,
    riddle_id: Oid,
    submitted: Seq<char>,
    username: Seq<char>,
    now: Timestamp,
)
    requires
        db.users_distinct(),
        db.access(riddle_id, username) matches Ok((id, u)) && db.riddle_at(id) matches Some(r) && {
            &&& db.users[u].activated
            &&& db.users[u].has_seen(db.riddles[r].id)
            &&& !db.users[u].has_solved(db.riddles[r].id)
            &&& is_correct(db.riddles[r], submitted)
            &&& score_fits(db.users[u], db.riddles[r], true)
        },
    ensures
        ({
            let (after, outcome) = db.solve(riddle_id, submitted, username, now);
            let u = db.user_named(username).unwrap();
            let riddle = db.riddles[db.riddle_at(riddle_id).unwrap()];
            &&& outcome matches Ok(v) && v.solved && v.score == db.users[u].score
                + riddle.difficulty && v.level == higher(db.users[u].level, riddle.level)
            &&& after.users.len() == db.users.len()
            &&& after.users[u].score == db.users[u].score + riddle.difficulty
            &&& riddle.difficulty > 0 ==> after.users[u].score > db.users[u].score
            &&& riddle.difficulty >= 0 ==> after.users[u].score >= db.users[u].score
            &&& after.users[u].level == higher(db.users[u].level, riddle.level)
            &&& after.users[u].has_solved(riddle_id)
            &&& forall|i: int| 0 <= i < db.users.len() && i != u ==> after.users[i] == db.users[i]
        }),
{
    lemma_access_iff_doorway(db, riddle_id, username);
    let u = db.user_named(username).unwrap();
    lemma_first_index(db.users, |x: UserView| x.username == username);
    lemma_player_is_user(db, u);
    let riddle = db.riddles[db.riddle_at(riddle_id).unwrap()];
    lemma_first_index(db.riddles, |x: RiddleView| x.id == riddle_id);
    lemma_right_answer_rewards(db.users[u], riddle, now);
}

/// At the level of the store: a wrong answer of an activated user to a riddle
/// that they may see and were shown takes the riddle's penalty off the stored
/// score and changes nothing else; and the same wrong answer given once more
/// takes the penalty off once more.
pub proof fn lemma_solve_wrong_twice(
    db: DBView,
    riddle_id: Oid,
    submitted: Seq<char>,
    username: Seq<char>,
    t1: Timestamp,
    t2: Timestamp,
)
    requires
        db.users_distinct(),
        db.access(riddle_id, username) matches Ok((id, u)) && db.riddle_at(id) matches Some(r) && {
            &&& db.users[u].activated
            &&& db.users[u].has_seen(db.riddles[r].id)
            &&& !is_correct(db.riddles[r], submitted)
            &&& i32::MIN <= db.users[u].score - db.riddles[r].penalty() <= i32::MAX
            &&& i32::MIN <= db.users[u].score - 2 * db.riddles[r].penalty() <= i32::MAX
        },
    ensures
        ({
            let (once, first) = db.solve(riddle_id, submitted, username, t1);
            let (twice, second) = once.solve(riddle_id, submitted, username, t2);
            let u = db.user_named(username).unwrap();
            let riddle = db.riddles[db.riddle_at(riddle_id).unwrap()];
            &&& first matches Ok(v) && !v.solved && v.score == db.users[u].score
                - riddle.penalty() && v.level == db.users[u].level
            &&& second matches Ok(v) && !v.solved && v.score == db.users[u].score - 2
                * riddle.penalty() && v.level == db.users[u].level
            &&& once == db.with_user(
                u,
                UserView { score: (db.users[u].score - riddle.penalty()) as i32, ..db.users[u] },
            )
            &&& twice == db.with_user(
                u,
                UserView {
                    score: (db.users[u].score - 2 * riddle.penalty()) as i32,
                    ..db.users[u]
                },
            )
        }),
{
    lemma_access_iff_doorway(db, riddle_id, username);
    let u = db.user_named(username).unwrap();
    let named = |x: UserView| x.username == username;
    lemma_first_index(db.users, named);
    lemma_player_is_user(db, u);
    let r = db.riddle_at(riddle_id).unwrap();
    let riddle = db.riddles[r];
    lemma_first_index(db.riddles, |x: RiddleView| x.id == riddle_id);
    let user = db.users[u];
    let user1 = UserView { score: (user.score - riddle.penalty()) as i32, ..user };
    let once = db.solve(riddle_id, submitted, username, t1).0;
    assert(once == db.with_user(u, user1));
    // The first answer has changed the score alone, so the second meets the
    // same user in the same room.
    crate::seqs::lemma_first_index_update(db.users, named, u, user1);
    let by_id = |x: UserView| x.id == user.id && x.activated;
    crate::seqs::lemma_first_index_update(db.users, by_id, u, user1);
    assert(once.user_named(username) == Some(u));
    assert(once.users[u] == user1);
    assert(once.access(riddle_id, username) == db.access(riddle_id, username));
    assert(once.player(user.id) == Some(u));
    let user2 = UserView { score: (user.score - 2 * riddle.penalty()) as i32, ..user };
    let twice = once.solve(riddle_id, submitted, username, t2).0;
    assert(once.users.update(u, user2) =~= db.users.update(u, user2));
}

/// At the level of the store: an answer to a riddle that the user may see but
/// was not shown is refused with `RiddleHasNotBeenSeenByUser`, right or
/// wrong, and the store stays as it was.
pub proof fn lemma_solve_needs_seen(
    db: DBView,
    riddle_id: Oid,
    submitted: Seq<char>,
    username: Seq<char>,
    now: Timestamp,
)
    requires
        db.access(riddle_id, username) matches Ok((id, u)) && db.riddle_at(id) matches Some(r)
            && !db.users[u].has_seen(riddle_id),
    ensures
        db.solve(riddle_id, submitted, username, now) == (
            db,
            Err::<crate::handlers::Verdict, Error>(Error::RiddleHasNotBeenSeenByUser),
        ),
{
    lemma_access_iff_doorway(db, riddle_id, username);
    lemma_first_index(db.riddles, |x: RiddleView| x.id == riddle_id);
}

/// Among rooms with distinct identifiers, a room is the room that its
/// identifier names.
pub proof fn lemma_room_is_found(db: DBView, r: int)
    requires
        db.rooms_distinct(),
        0 <= r < db.rooms.len(),
    ensures
        db.room_at(db.rooms[r].id) == Some(r),
{
    let id = db.rooms[r].id;
    let p = |x: RoomView| x.id == id;
    assert(p(db.rooms[r]));
    lemma_first_index_is(db.rooms, p, r);
}

/// Where a doorway has one far side, the room that has the doorway is the
/// room that a search for it finds.
pub proof fn lemma_room_behind_is_found(db: DBView, r: int, direction: Seq<char>, riddle_id: Oid)
    requires
        db.corridors_distinct(),
        0 <= r < db.rooms.len(),
        db.rooms[r].has_doorway(direction, riddle_id),
    ensures
        db.room_behind(direction, riddle_id) == Some(r),
{
    let p = |x: RoomView| x.has_doorway(direction, riddle_id);
    assert(p(db.rooms[r]));
    assert forall|j: int| 0 <= j < r implies !p(#[trigger] db.rooms[j]) by {
        if db.rooms[j].has_doorway(direction, riddle_id) {
            assert(db.rooms[r].has_doorway(direction, riddle_id));
        }
    }
    lemma_first_index_is(db.rooms, p, r);
}

/// In a room without two doorways in one direction, a doorway in a direction
/// is the doorway that the direction names.
pub proof fn lemma_doorway_is_found(room: RoomView, k: int)
    requires
        room.directions_distinct(),
        0 <= k < room.neighbors.len(),
    ensures
        room.doorway_in(room.neighbors[k].direction) == Some(k),
{
    let direction = room.neighbors[k].direction;
    let p = |d: DirectionView| d.direction == direction;
    assert(p(room.neighbors[k]));
    lemma_first_index_is(room.neighbors, p, k);
}

/// The way back. In a well-formed store, let an activated user step from the
/// room A through the doorway in a direction into the room B. Then B has a
/// doorway in the opposite direction that the same riddle locks, and a step
/// of the user in that opposite direction succeeds and leads back to A: the
/// user stands where they stood.
pub proof fn lemma_round_trip(
    db: DBView,
    direction: Seq<char>,
    username: Seq<char>,
    t1: Timestamp,
    t2: Timestamp,
)
    requires
        db.well_formed(),
        db.user_named(username) matches Some(u) && db.users[u].activated,
        db.go(direction, username, t1).1 is Ok,
    ensures
        ({
            let u = db.user_named(username).unwrap();
            let a = db.room_at(db.users[u].in_room.unwrap()).unwrap();
            let edge = db.rooms[a].neighbors[db.rooms[a].doorway_in(direction).unwrap()];
            let (there, first) = db.go(direction, username, t1);
            let b = first.unwrap();
            &&& opposite(direction) matches Some(back) && {
                let (here, second) = there.go(back, username, t2);
                &&& db.rooms[b].has_doorway(back, edge.riddle_id)
                &&& there.users[u].in_room == Some(db.rooms[b].id)
                &&& second == Ok::<int, Error>(a)
                &&& here.users[u].in_room == db.users[u].in_room
            }
        }),
{
    let named = |x: UserView| x.username == username;
    let u = db.user_named(username).unwrap();
    lemma_first_index(db.users, named);
    lemma_player_is_user(db, u);
    let user = db.users[u];
    let room_id = user.in_room.unwrap();
    let a = db.room_at(room_id).unwrap();
    lemma_first_index(db.rooms, |x: RoomView| x.id == room_id);
    let room_a = db.rooms[a];
    let d = room_a.doorway_in(direction).unwrap();
    lemma_first_index(room_a.neighbors, |x: DirectionView| x.direction == direction);
    let edge = room_a.neighbors[d];
    assert(edge.direction == direction);
    let riddle_id = edge.riddle_id;
    let back = opposite(direction).unwrap();
    let b = db.room_behind(back, riddle_id).unwrap();
    lemma_first_index(db.rooms, |x: RoomView| x.has_doorway(back, riddle_id));
    lemma_room_is_found(db, b);
    let room_b = db.rooms[b];
    let (there, first) = db.go(direction, username, t1);
    assert(first == Ok::<int, Error>(b));
    // After the first step: the same user, by name and by identifier, now in B.
    let user1 = relocated(user, room_b.id, completion(room_a, t1));
    assert(there == db.with_user(u, user1));
    lemma_first_index_update(db.users, named, u, user1);
    let by_id = |x: UserView| x.id == user.id && x.activated;
    lemma_first_index_update(db.users, by_id, u, user1);
    assert(there.user_named(username) == Some(u));
    assert(there.player(user.id) == Some(u));
    assert(there.users[u] == user1);
    assert(there.rooms == db.rooms);
    // The doorway of B that leads back.
    let k = choose|k: int|
        0 <= k < room_b.neighbors.len() && (#[trigger] room_b.neighbors[k]).direction == back
            && room_b.neighbors[k].riddle_id == riddle_id;
    assert(room_b.directions_distinct());
    lemma_doorway_is_found(room_b, k);
    assert(user1.has_solved(riddle_id));
    lemma_opposite_involution(direction);
    // The far side of that doorway is A.
    assert(room_a.has_doorway(direction, riddle_id));
    lemma_room_behind_is_found(db, a, direction, riddle_id);
    lemma_room_is_found(db, a);
    assert(passage(user1, room_b, back) == Ok::<(Seq<char>, Oid), Error>((direction, riddle_id)));
    let (here, second) = there.go(back, username, t2);
    assert(second == Ok::<int, Error>(a));
}

/// A riddle that was shown to an activated user is one that they have seen:
/// once the store has the attempt written that begins with the showing, an
/// answer of the user to the riddle is not refused for want of it. A user
/// who is not activated has nothing written, and the store is as it was.
pub proof fn lemma_shown_riddle_is_seen(
    db: DBView,
    riddle_id: Oid,
    username: Seq<char>,
    now: Timestamp,
)
    requires
        db.user_named(username) is Some,
    ensures
        ({
            let u = db.user_named(username).unwrap();
            let after = db.stamped(username, fresh_attempt(riddle_id, now));
            &&& after.user_named(username) == db.user_named(username)
            &&& after.access(riddle_id, username) is Ok <==> db.access(riddle_id, username) is Ok
            &&& db.users[u].activated ==> after.users[u].has_seen(riddle_id)
            &&& !db.users[u].activated ==> after.users[u] == db.users[u]
        }),
{
    let named = |x: UserView| x.username == username;
    let playing = |x: UserView| x.username == username && x.activated;
    let u = db.user_named(username).unwrap();
    lemma_first_index(db.users, named);
    lemma_first_index(db.users, playing);
    if db.users[u].activated {
        assert(playing(db.users[u]));
        assert forall|j: int| 0 <= j < u implies !playing(#[trigger] db.users[j]) by {
            assert(!named(db.users[j]));
        }
        lemma_first_index_is(db.users, playing, u);
    }
    match db.player_named(username) {
        Some(i) => {
            let stamped = UserView {
                current_riddle_attempt: Some(fresh_attempt(riddle_id, now)),
                ..db.users[i]
            };
            lemma_first_index_update(db.users, named, i, stamped);
        },
        None => {},
    }
}

/// No riddle enters the solved history twice: where the history holds each
/// riddle once, it does so after any answer.
pub proof fn lemma_solved_once_each_stays(
    user: UserView,
    riddle: RiddleView,
    correct: bool,
    now: Timestamp,
)
    requires
        user.solved_once_each(),
    ensures
        attempt_outcome(user, riddle, correct, now) matches Ok(after) ==> after.solved_once_each(),
{
    if let Ok(after) = attempt_outcome(user, riddle, correct, now) {
        if correct {
            assert forall|i: int, j: int| 0 <= i < j < after.solved.len() implies (
            #[trigger] after.solved[i]).riddle_id != (#[trigger] after.solved[j]).riddle_id by {
                if j < user.solved.len() {
                    assert(after.solved[i] == user.solved[i]);
                    assert(after.solved[j] == user.solved[j]);
                } else {
                    assert(after.solved[i] == user.solved[i]);
                    assert(user.solved[i].riddle_id != riddle.id);
                }
            }
        }
    }
}

/// The rooms entered are a set: where no room is listed twice, none is after
/// any step, and the room stepped into is listed.
pub proof fn lemma_rooms_entered_once_each_stays(
    user: UserView,
    to: Oid,
    finished: Option<GameCompletion>,
)
    requires
        user.rooms_entered_once_each(),
    ensures
        relocated(user, to, finished).rooms_entered_once_each(),
        relocated(user, to, finished).rooms_entered.contains(to),
        relocated(user, to, finished).solved == user.solved,
{
    lemma_set_added_no_duplicates(user.rooms_entered, to);
}

/// Replacing a user by one with the same identifier and the same name leaves
/// identifiers and names distinct.
pub proof fn lemma_users_stay_distinct(db: DBView, i: int, user: UserView)
    requires
        db.users_distinct(),
        0 <= i < db.users.len(),
        user.id == db.users[i].id,
        user.username == db.users[i].username,
    ensures
        db.with_user(i, user).users_distinct(),
        db.with_user(i, user).rooms == db.rooms,
{
    let after = db.with_user(i, user);
    assert forall|a: int, b: int| 0 <= a < b < after.users.len() implies (
    #[trigger] after.users[a]).id != (#[trigger] after.users[b]).id && after.users[a].username
        != after.users[b].username by {
        assert(after.users[a].id == db.users[a].id);
        assert(after.users[b].id == db.users[b].id);
        assert(after.users[a].username == db.users[a].username);
        assert(after.users[b].username == db.users[b].username);
    }
}

/// A well-formed store stays well-formed, whatever is answered and wherever
/// is stepped: answers and steps change what users have done and where they
/// stand, and neither who they are nor the rooms.
pub proof fn lemma_well_formed_stays(
    db: DBView,
    riddle_id: Oid,
    submitted: Seq<char>,
    direction: Seq<char>,
    username: Seq<char>,
    now: Timestamp,
)
    requires
        db.well_formed(),
    ensures
        db.solve(riddle_id, submitted, username, now).0.well_formed(),
        db.go(direction, username, now).0.well_formed(),
        db.stamped(username, fresh_attempt(riddle_id, now)).well_formed(),
{
    let solved = db.solve(riddle_id, submitted, username, now).0;
    if solved != db {
        let (id, u) = db.access(riddle_id, username).unwrap();
        let user = db.users[u];
        let i = db.player(user.id).unwrap();
        lemma_first_index(db.users, |x: UserView| x.id == user.id && x.activated);
        lemma_users_stay_distinct(db, i, solved.users[i]);
    }
    let gone = db.go(direction, username, now).0;
    if gone != db {
        let u = db.user_named(username).unwrap();
        let user = db.users[u];
        let i = db.player(user.id).unwrap();
        lemma_first_index(db.users, |x: UserView| x.id == user.id && x.activated);
        lemma_users_stay_distinct(db, i, gone.users[i]);
    }
    let stamped = db.stamped(username, fresh_attempt(riddle_id, now));
    if stamped != db {
        let u = db.player_named(username).unwrap();
        lemma_first_index(db.users, |x: UserView| x.username == username && x.activated);
        lemma_users_stay_distinct(db, u, stamped.users[u]);
    }
}

} // verus!
