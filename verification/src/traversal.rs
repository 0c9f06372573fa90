//! Walking through a doorway: which doorway a direction names, whether it is
//! open to the user, and where the user stands afterwards.

use crate::db::{DB, DBView};
use crate::error::Error;
use crate::ident::Oid;
use crate::model::{GameCompletion, Room, RoomView, Timestamp, User, UserView};
use crate::rooms::{opposite, opposite_of};
use vstd::prelude::*;
use vstd::string::StringExecFns;

verus! {

/// The far side of a doorway: the direction in which the room behind it has
/// its own doorway, and the riddle that locks both.
#[derive(Debug)]
pub struct Passage {
    pub opposite: String,
    pub riddle_id: Oid,
}

/// The doorway that the user may walk through when they head in a direction.
/// The room's first doorway in that direction is meant; it is open where the
/// user has solved its riddle, and it leads somewhere where its direction has
/// an opposite.
pub open spec fn passage(user: UserView, room: RoomView, direction: Seq<char>) -> Result<
    (Seq<char>, Oid),
    Error,
> {
    match room.doorway_in(direction) {
        None => Err(Error::NeighborNotFoundError),
        Some(d) => {
            let edge = room.neighbors[d];
            if !user.has_solved(edge.riddle_id) {
                Err(Error::RiddleNotSolvedError)
            } else {
                match opposite(edge.direction) {
                    None => Err(Error::RoomBehindNotFoundError),
                    Some(back) => Ok((back, edge.riddle_id)),
                }
            }
        },
    }
}

/// Finds the doorway that the user may walk through when they head in a
/// direction, or says why there is none.
pub fn find_passage(user: &User, room: &Room, direction: &str) -> (r: Result<Passage, Error>)
    ensures
        match passage(user@, room@, direction@) {
            Ok((back, riddle_id)) => r matches Ok(p) && p.opposite@ == back && p.riddle_id
                == riddle_id,
            Err(e) => r matches Err(x) && x == e,
        },
{
    let d = match room.find_doorway_in(direction) {
        Some(d) => d,
        None => {
            return Err(Error::NeighborNotFoundError);
        },
    };
    let edge = &room.neighbors[d];
    if !user.has_solved(&edge.riddle_id) {
        return Err(Error::RiddleNotSolvedError);
    }
    match opposite_of(edge.direction.as_str()) {
        Some(back) => Ok(Passage { opposite: String::from_str(back), riddle_id: edge.riddle_id }),
        None => Err(Error::RoomBehindNotFoundError),
    }
}

/// A list kept as a set: an item that it holds already is not added again.
pub open spec fn set_added<T>(s: Seq<T>, x: T) -> Seq<T> {
    if s.contains(x) {
        s
    } else {
        s.push(x)
    }
}

/// Adding to a list without repeats leaves it without repeats.
pub proof fn lemma_set_added_no_duplicates<T>(s: Seq<T>, x: T)
    requires
        s.no_duplicates(),
    ensures
        set_added(s, x).no_duplicates(),
        set_added(s, x).contains(x),
{
    if s.contains(x) {
    } else {
        let t = s.push(x);
        assert(t[s.len() as int] == x);
        assert forall|i: int, j: int| 0 <= i < t.len() && 0 <= j < t.len() && i != j implies t[i]
            != t[j] by {
            if i < s.len() && j < s.len() {
            } else if i < s.len() {
                assert(s.contains(t[i]));
            } else {
                assert(s.contains(t[j]));
            }
        }
    }
}

/// The mark that leaving a room earns: leaving an exit finishes the room's
/// game at `now`, leaving any other room earns nothing.
pub open spec fn completion(left: RoomView, now: Timestamp) -> Option<GameCompletion> {
    if left.is_exit() {
        Some(GameCompletion { game_id: left.game_id, timestamp: now })
    } else {
        None
    }
}

/// The user after a step into the room `to`: they stand there, the room is
/// among the rooms they have entered, and a finished game is marked.
pub open spec fn relocated(user: UserView, to: Oid, finished: Option<GameCompletion>) -> UserView {
    UserView {
        in_room: Some(to),
        rooms_entered: set_added(user.rooms_entered, to),
        finished: match finished {
            Some(c) => set_added(user.finished, c),
            None => user.finished,
        },
        ..user
    }
}

/// Adds a room to the rooms entered unless it is among them.
pub fn enter_room(rooms_entered: &mut Vec<Oid>, room_id: Oid)
    ensures
        final(rooms_entered)@ == set_added(old(rooms_entered)@, room_id),
{
    let mut i: usize = 0;
    while i < rooms_entered.len()
        invariant
            i <= rooms_entered.len(),
            rooms_entered@ == old(rooms_entered)@,
            forall|j: int| 0 <= j < i ==> rooms_entered@[j] != room_id,
        decreases rooms_entered.len() - i,
    {
        if rooms_entered[i] == room_id {
            assert(rooms_entered@.contains(room_id));
            return ;
        }
        i += 1;
    }
    rooms_entered.push(room_id);
}

/// Adds a mark to the finished games unless it is among them.
pub fn mark_finished(finished: &mut Vec<GameCompletion>, mark: GameCompletion)
    ensures
        final(finished)@ == set_added(old(finished)@, mark),
{
    let mut i: usize = 0;
    while i < finished.len()
        invariant
            i <= finished.len(),
            finished@ == old(finished)@,
            forall|j: int| 0 <= j < i ==> finished@[j] != mark,
        decreases finished.len() - i,
    {
        if finished[i] == mark {
            assert(finished@.contains(mark));
            return ;
        }
        i += 1;
    }
    finished.push(mark);
}

/// Whether leaving the room finishes its game.
pub fn is_exit(room: &Room) -> (r: bool)
    ensures
        r == room@.is_exit(),
{
    match room.exit {
        Some(b) => b,
        None => false,
    }
}

/// Moves the user out of the room `left` and into the room `behind`, and
/// hands out the mark of a finished game where `left` is an exit.
pub fn step_through(user: &mut User, left: &Room, behind: &Room, now: Timestamp) -> (r: Option<
    GameCompletion,
>)
    ensures
        r == completion(left@, now),
        final(user)@ == relocated(old(user)@, behind@.id, completion(left@, now)),
{
    user.in_room = Some(behind.id);
    enter_room(&mut user.rooms_entered, behind.id);
    if is_exit(left) {
        let mark = GameCompletion { game_id: left.game_id, timestamp: now };
        mark_finished(&mut user.finished, mark);
        Some(mark)
    } else {
        None
    }
}

impl DBView {
    /// The store after the player with that identifier was moved into the
    /// room `to`.
    pub open spec fn moved(self, id: Oid, to: Oid, finished: Option<GameCompletion>) -> DBView {
        match self.player(id) {
            Some(i) => self.with_user(i, relocated(self.users[i], to, finished)),
            None => self,
        }
    }
}

impl DB {
    /// Moves the stored player who has `user`'s identifier into the room
    /// `to`, as one update: where they stand, the rooms they have entered,
    /// and the mark of a finished game. Where no activated user has the
    /// identifier, nothing is written.
    pub fn set_user_room(&mut self, user: &User, to: Oid, finished: Option<GameCompletion>) -> (r:
        Result<(), Error>)
        ensures
            r is Ok,
            final(self)@ == old(self)@.moved(user.id, to, finished),
    {
        match self.find_player(&user.id) {
            Some(i) => {
                self.users[i].in_room = Some(to);
                enter_room(&mut self.users[i].rooms_entered, to);
                match finished {
                    Some(c) => {
                        mark_finished(&mut self.users[i].finished, c);
                    },
                    None => {},
                }
                assert(self@.users =~= old(self)@.users.update(
                    i as int,
                    relocated(old(self)@.users[i as int], to, finished),
                ));
            },
            None => {},
        }
        Ok(())
    }
}

} // verus!
