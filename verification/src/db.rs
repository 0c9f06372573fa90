//! The store: users, rooms, riddles and the bytes of attached files, held
//! as lists of documents. A query answers with the first document that
//! meets its filter, and an update changes the first document that meets
//! its filter and no other.

use crate::error::Error;
use crate::ident::Oid;
use crate::model::{PinType, Riddle, RiddleAttempt, RiddleView, Room, RoomView, User, UserView};
use crate::seqs::{first_index, lemma_first_index_is, lemma_first_index_none};
use crate::text::str_eq;
use vstd::prelude::*;

verus! {

/// The bytes of one attached file, in the chunks in which they were stored.
#[derive(Debug)]
pub struct StoredFile {
    pub id: Oid,
    pub chunks: Vec<Vec<u8>>,
}

/// A stored file as the rules see it.
pub struct StoredFileView {
    pub id: Oid,
    pub chunks: Seq<Seq<u8>>,
}

impl View for StoredFile {
    type V = StoredFileView;

    open spec fn view(&self) -> StoredFileView {
        StoredFileView { id: self.id, chunks: self.chunks@.map_values(|c: Vec<u8>| c@) }
    }
}

/// The store.
#[derive(Debug)]
pub struct DB {
    pub users: Vec<User>,
    pub rooms: Vec<Room>,
    pub riddles: Vec<Riddle>,
    pub files: Vec<StoredFile>,
}

/// The store as the rules see it: its documents, in order.
pub struct DBView {
    pub users: Seq<UserView>,
    pub rooms: Seq<RoomView>,
    pub riddles: Seq<RiddleView>,
    pub files: Seq<StoredFileView>,
}

impl View for DB {
    type V = DBView;

    open spec fn view(&self) -> DBView {
        DBView {
            users: self.users@.map_values(|u: User| u@),
            rooms: self.rooms@.map_values(|r: Room| r@),
            riddles: self.riddles@.map_values(|r: Riddle| r@),
            files: self.files@.map_values(|f: StoredFile| f@),
        }
    }
}

impl DBView {
    /// The first user of that name.
    pub open spec fn user_named(self, username: Seq<char>) -> Option<int> {
        first_index(self.users, |u: UserView| u.username == username)
    }

    /// The first user of that name who has not been activated and holds the
    /// pin.
    pub open spec fn user_pending(self, username: Seq<char>, pin: PinType) -> Option<int> {
        first_index(
            self.users,
            |u: UserView| u.username == username && u.pin == pin && !u.activated,
        )
    }

    /// The first user of that name or of that mail address.
    pub open spec fn user_holding(self, username: Seq<char>, email: Seq<char>) -> Option<int> {
        first_index(self.users, |u: UserView| u.username == username || u.email == email)
    }

    /// The first user of that name who has solved the riddle.
    pub open spec fn solver(self, username: Seq<char>, riddle_id: Oid) -> Option<int> {
        first_index(
            self.users,
            |u: UserView| u.username == username && u.has_solved(riddle_id),
        )
    }

    /// The first activated user with that identifier: the one that an update
    /// of a player's progress changes.
    pub open spec fn player(self, id: Oid) -> Option<int> {
        first_index(self.users, |u: UserView| u.id == id && u.activated)
    }

    /// The first activated user of that name.
    pub open spec fn player_named(self, username: Seq<char>) -> Option<int> {
        first_index(self.users, |u: UserView| u.username == username && u.activated)
    }

    /// The first room with that identifier.
    pub open spec fn room_at(self, id: Oid) -> Option<int> {
        first_index(self.rooms, |r: RoomView| r.id == id)
    }

    /// The first room with a doorway in that direction that the riddle locks.
    pub open spec fn room_behind(self, opposite: Seq<char>, riddle_id: Oid) -> Option<int> {
        first_index(self.rooms, |r: RoomView| r.has_doorway(opposite, riddle_id))
    }

    /// The first room that is marked as an entry.
    pub open spec fn entry_room(self) -> Option<int> {
        first_index(self.rooms, |r: RoomView| r.entry == Some(true))
    }

    /// The first riddle with that identifier.
    pub open spec fn riddle_at(self, id: Oid) -> Option<int> {
        first_index(self.riddles, |r: RiddleView| r.id == id)
    }

    /// The first riddle of that level.
    pub open spec fn riddle_of_level(self, level: u32) -> Option<int> {
        first_index(self.riddles, |r: RiddleView| r.level == level)
    }
}

impl DB {
    /// A store without documents.
    pub fn new() -> (r: DB)
        ensures
            r@.users.len() == 0,
            r@.rooms.len() == 0,
            r@.riddles.len() == 0,
            r@.files.len() == 0,
    {
        DB { users: Vec::new(), rooms: Vec::new(), riddles: Vec::new(), files: Vec::new() }
    }

    /// The position of the first user of that name.
    pub fn find_user(&self, username: &str) -> (r: Option<usize>)
        ensures
            match r {
                Some(i) => i < self.users.len() && self@.user_named(username@) == Some(i as int),
                None => self@.user_named(username@) is None,
            },
    {
        let ghost p = |u: UserView| u.username == username@;
        let mut i: usize = 0;
        while i < self.users.len()
            invariant
                i <= self.users.len(),
                p == (|u: UserView| u.username == username@),
                forall|j: int| 0 <= j < i ==> !p(#[trigger] self@.users[j]),
            decreases self.users.len() - i,
        {
            if str_eq(self.users[i].username.as_str(), username) {
                proof {
                    lemma_first_index_is(self@.users, p, i as int);
                }
                return Some(i);
            }
            i += 1;
        }
        proof {
            lemma_first_index_none(self@.users, p);
        }
        None
    }

    /// The position of the first room with that identifier.
    pub fn find_room(&self, id: &Oid) -> (r: Option<usize>)
        ensures
            match r {
                Some(i) => i < self.rooms.len() && self@.room_at(*id) == Some(i as int),
                None => self@.room_at(*id) is None,
            },
    {
        let ghost p = |r: RoomView| r.id == *id;
        let mut i: usize = 0;
        while i < self.rooms.len()
            invariant
                i <= self.rooms.len(),
                p == (|r: RoomView| r.id == *id),
                forall|j: int| 0 <= j < i ==> !p(#[trigger] self@.rooms[j]),
            decreases self.rooms.len() - i,
        {
            if self.rooms[i].id == *id {
                proof {
                    lemma_first_index_is(self@.rooms, p, i as int);
                }
                return Some(i);
            }
            i += 1;
        }
        proof {
            lemma_first_index_none(self@.rooms, p);
        }
        None
    }

    /// The position of the first riddle with that identifier.
    pub fn find_riddle(&self, id: &Oid) -> (r: Option<usize>)
        ensures
            match r {
                Some(i) => i < self.riddles.len() && self@.riddle_at(*id) == Some(i as int),
                None => self@.riddle_at(*id) is None,
            },
    {
        let ghost p = |r: RiddleView| r.id == *id;
        let mut i: usize = 0;
        while i < self.riddles.len()
            invariant
                i <= self.riddles.len(),
                p == (|r: RiddleView| r.id == *id),
                forall|j: int| 0 <= j < i ==> !p(#[trigger] self@.riddles[j]),
            decreases self.riddles.len() - i,
        {
            if self.riddles[i].id == *id {
                proof {
                    lemma_first_index_is(self@.riddles, p, i as int);
                }
                return Some(i);
            }
            i += 1;
        }
        proof {
            lemma_first_index_none(self@.riddles, p);
        }
        None
    }

    /// The user of that name, or `UserNotFoundError`.
    pub fn get_user(&self, username: &String) -> (r: Result<User, Error>)
        ensures
            match self@.user_named(username@) {
                Some(i) => r matches Ok(u) && u@ == self@.users[i],
                None => r == Err::<User, Error>(Error::UserNotFoundError),
            },
    {
        match self.find_user(username.as_str()) {
            Some(i) => Ok(self.users[i].clone()),
            None => Err(Error::UserNotFoundError),
        }
    }

    /// The room with that identifier, or `RoomNotFoundError`.
    pub fn get_room(&self, oid: &Oid) -> (r: Result<Room, Error>)
        ensures
            match self@.room_at(*oid) {
                Some(i) => r matches Ok(room) && room@ == self@.rooms[i],
                None => r == Err::<Room, Error>(Error::RoomNotFoundError),
            },
    {
        match self.find_room(oid) {
            Some(i) => Ok(self.rooms[i].clone()),
            None => Err(Error::RoomNotFoundError),
        }
    }

    /// The room on the other side of a doorway: the first room with a doorway
    /// in the direction `opposite` that the riddle locks, or
    /// `RoomBehindNotFoundError`.
    pub fn get_room_behind(&self, opposite: &String, riddle_id: &Oid) -> (r: Result<Room, Error>)
        ensures
            match self@.room_behind(opposite@, *riddle_id) {
                Some(i) => r matches Ok(room) && room@ == self@.rooms[i],
                None => r == Err::<Room, Error>(Error::RoomBehindNotFoundError),
            },
    {
        let ghost p = |r: RoomView| r.has_doorway(opposite@, *riddle_id);
        let mut i: usize = 0;
        while i < self.rooms.len()
            invariant
                i <= self.rooms.len(),
                p == (|r: RoomView| r.has_doorway(opposite@, *riddle_id)),
                forall|j: int| 0 <= j < i ==> !p(#[trigger] self@.rooms[j]),
            decreases self.rooms.len() - i,
        {
            if self.rooms[i].has_doorway(opposite.as_str(), riddle_id) {
                proof {
                    lemma_first_index_is(self@.rooms, p, i as int);
                }
                return Ok(self.rooms[i].clone());
            }
            i += 1;
        }
        proof {
            lemma_first_index_none(self@.rooms, p);
        }
        Err(Error::RoomBehindNotFoundError)
    }

    /// The riddle with that identifier, if the store holds one.
    pub fn get_riddle_by_oid(&self, oid: &Oid) -> (r: Result<Option<Riddle>, Error>)
        ensures
            match self@.riddle_at(*oid) {
                Some(i) => r matches Ok(Some(riddle)) && riddle@ == self@.riddles[i],
                None => r matches Ok(None),
            },
    {
        match self.find_riddle(oid) {
            Some(i) => Ok(Some(self.riddles[i].clone())),
            None => Ok(None),
        }
    }
}

impl DBView {
    /// The store with the user at position `i` replaced.
    pub open spec fn with_user(self, i: int, u: UserView) -> DBView {
        DBView { users: self.users.update(i, u), ..self }
    }

    /// The store after the solved history, the level and the score of the
    /// player with that identifier were written.
    pub open spec fn solved_set(
        self,
        id: Oid,
        solved: Seq<RiddleAttempt>,
        level: u32,
        score: i32,
    ) -> DBView {
        match self.player(id) {
            Some(i) => self.with_user(i, UserView { solved, level, score, ..self.users[i] }),
            None => self,
        }
    }

    /// The store after the score of the player with that identifier was
    /// written.
    pub open spec fn score_set(self, id: Oid, score: i32) -> DBView {
        match self.player(id) {
            Some(i) => self.with_user(i, UserView { score, ..self.users[i] }),
            None => self,
        }
    }
}

impl DB {
    /// The position of the first activated user with that identifier.
    pub fn find_player(&self, id: &Oid) -> (r: Option<usize>)
        ensures
            match r {
                Some(i) => i < self.users.len() && self@.player(*id) == Some(i as int),
                None => self@.player(*id) is None,
            },
    {
        let ghost p = |u: UserView| u.id == *id && u.activated;
        let mut i: usize = 0;
        while i < self.users.len()
            invariant
                i <= self.users.len(),
                p == (|u: UserView| u.id == *id && u.activated),
                forall|j: int| 0 <= j < i ==> !p(#[trigger] self@.users[j]),
            decreases self.users.len() - i,
        {
            if self.users[i].id == *id && self.users[i].activated {
                proof {
                    lemma_first_index_is(self@.users, p, i as int);
                }
                return Some(i);
            }
            i += 1;
        }
        proof {
            lemma_first_index_none(self@.users, p);
        }
        None
    }

    /// Writes a solved history, with the level and the score that `user`
    /// carries, to the stored player who has `user`'s identifier. Where no
    /// activated user has it, nothing is written.
    pub fn set_user_solved(&mut self, solutions: &Vec<RiddleAttempt>, user: &User) -> (r: Result<
        (),
        Error,
    >)
        ensures
            r is Ok,
            final(self)@ == old(self)@.solved_set(user.id, solutions@, user.level, user.score),
    {
        match self.find_player(&user.id) {
            Some(i) => {
                let solved = solutions.clone();
                assert(solved@ =~= solutions@);
                self.users[i].solved = solved;
                self.users[i].level = user.level;
                self.users[i].score = user.score;
                assert(self@.users =~= old(self)@.users.update(
                    i as int,
                    UserView {
                        solved: solutions@,
                        level: user.level,
                        score: user.score,
                        ..old(self)@.users[i as int]
                    },
                ));
                assert(self@.rooms =~= old(self)@.rooms);
                assert(self@.riddles =~= old(self)@.riddles);
                assert(self@.files =~= old(self)@.files);
            },
            None => {},
        }
        Ok(())
    }

    /// Writes the score that `user` carries to the stored player who has
    /// `user`'s identifier. Where no activated user has it, nothing is
    /// written.
    pub fn rewrite_user_score(&mut self, user: &User) -> (r: Result<(), Error>)
        ensures
            r is Ok,
            final(self)@ == old(self)@.score_set(user.id, user.score),
    {
        match self.find_player(&user.id) {
            Some(i) => {
                self.users[i].score = user.score;
                assert(self@.users =~= old(self)@.users.update(
                    i as int,
                    UserView { score: user.score, ..old(self)@.users[i as int] },
                ));
            },
            None => {},
        }
        Ok(())
    }
}

impl DB {
    /// The riddle with that identifier, where the user of that name has solved
    /// it and the store holds it.
    pub fn get_riddle_if_solved(&self, riddle_id: &Oid, username: &String) -> (r: Result<
        Option<Riddle>,
        Error,
    >)
        ensures
            match self@.solver(username@, *riddle_id) {
                None => r matches Ok(None),
                Some(_) => match self@.riddle_at(*riddle_id) {
                    Some(i) => r matches Ok(Some(riddle)) && riddle@ == self@.riddles[i],
                    None => r matches Ok(None),
                },
            },
    {
        let ghost p = |u: UserView| u.username == username@ && u.has_solved(*riddle_id);
        let mut i: usize = 0;
        while i < self.users.len()
            invariant
                i <= self.users.len(),
                p == (|u: UserView| u.username == username@ && u.has_solved(*riddle_id)),
                forall|j: int| 0 <= j < i ==> !p(#[trigger] self@.users[j]),
            decreases self.users.len() - i,
        {
            if str_eq(self.users[i].username.as_str(), username.as_str()) && self.users[i].has_solved(
                riddle_id,
            ) {
                proof {
                    lemma_first_index_is(self@.users, p, i as int);
                }
                return self.get_riddle_by_oid(riddle_id);
            }
            i += 1;
        }
        proof {
            lemma_first_index_none(self@.users, p);
        }
        Ok(None)
    }
}

impl DBView {
    /// The store after the attempt was written as the current one of the first
    /// activated user of that name. Where no activated user has the name, the
    /// store is as it was.
    pub open spec fn stamped(self, username: Seq<char>, attempt: RiddleAttempt) -> DBView {
        match self.player_named(username) {
            Some(i) => self.with_user(
                i,
                UserView { current_riddle_attempt: Some(attempt), ..self.users[i] },
            ),
            None => self,
        }
    }
}

impl DB {
    /// Writes the attempt as the current one of the first activated user of
    /// that name. Where no activated user has the name, nothing is written.
    pub fn set_current_riddle_attempt(&mut self, username: &String, attempt: RiddleAttempt) -> (r:
        Result<(), Error>)
        ensures
            r is Ok,
            final(self)@ == old(self)@.stamped(username@, attempt),
    {
        match self.find_player_named(username.as_str()) {
            Some(i) => {
                self.users[i].current_riddle_attempt = Some(attempt);
                assert(self@.users =~= old(self)@.users.update(
                    i as int,
                    UserView {
                        current_riddle_attempt: Some(attempt),
                        ..old(self)@.users[i as int]
                    },
                ));
            },
            None => {},
        }
        Ok(())
    }
}

impl DB {
    /// The first riddle of that level, if the store holds one.
    pub fn get_riddle_by_level(&self, level: u32) -> (r: Result<Option<Riddle>, Error>)
        ensures
            match self@.riddle_of_level(level) {
                Some(i) => r matches Ok(Some(riddle)) && riddle@ == self@.riddles[i],
                None => r matches Ok(None),
            },
    {
        let ghost p = |r: RiddleView| r.level == level;
        let mut i: usize = 0;
        while i < self.riddles.len()
            invariant
                i <= self.riddles.len(),
                p == (|r: RiddleView| r.level == level),
                forall|j: int| 0 <= j < i ==> !p(#[trigger] self@.riddles[j]),
            decreases self.riddles.len() - i,
        {
            if self.riddles[i].level == level {
                proof {
                    lemma_first_index_is(self@.riddles, p, i as int);
                }
                return Ok(Some(self.riddles[i].clone()));
            }
            i += 1;
        }
        proof {
            lemma_first_index_none(self@.riddles, p);
        }
        Ok(None)
    }
}

} // verus!
