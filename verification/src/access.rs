//! Which riddles a user may see: those that lock a doorway of the room in
//! which the user stands, and no others.

use crate::db::{DB, DBView};
use crate::error::Error;
use crate::ident::Oid;
use crate::model::{DirectionView, Room, RoomView, User, UserView};
use crate::seqs::lemma_first_index;
use vstd::prelude::*;

verus! {

/// The room in which the user stands, or `UserIsInNoRoom`.
pub open spec fn location(user: UserView) -> Result<Oid, Error> {
    match user.in_room {
        Some(room_id) => Ok(room_id),
        None => Err(Error::UserIsInNoRoom),
    }
}

/// The riddle as the room's first doorway to it names it, or
/// `DoorwayNotAccessible` where the riddle locks no doorway of the room.
pub open spec fn doorway_grant(room: RoomView, riddle_id: Oid) -> Result<Oid, Error> {
    match room.doorway_to(riddle_id) {
        Some(d) => Ok(room.neighbors[d].riddle_id),
        None => Err(Error::DoorwayNotAccessible),
    }
}

/// The room in which the user stands, or `UserIsInNoRoom`.
pub fn current_room(user: &User) -> (r: Result<Oid, Error>)
    ensures
        r == location(user@),
{
    match user.in_room {
        Some(room_id) => Ok(room_id),
        None => Err(Error::UserIsInNoRoom),
    }
}

/// Grants the riddle where it locks a doorway of the room, and refuses it
/// with `DoorwayNotAccessible` where it does not.
pub fn check_doorway(room: &Room, riddle_id: &Oid) -> (r: Result<Oid, Error>)
    ensures
        r == doorway_grant(room@, *riddle_id),
        r matches Ok(id) ==> id == *riddle_id,
{
    match room.find_doorway_to(riddle_id) {
        Some(d) => {
            proof {
                lemma_first_index(room@.neighbors, |d: DirectionView| d.riddle_id == *riddle_id);
            }
            Ok(room.neighbors[d].riddle_id)
        },
        None => Err(Error::DoorwayNotAccessible),
    }
}

impl DBView {
    /// Whether the user of that name may see the riddle. Access is granted,
    /// with the riddle and the position of the user, where the user exists,
    /// stands in a room that the store holds, and that room has a doorway
    /// that the riddle locks. Each other case has its error.
    pub open spec fn access(self, riddle_id: Oid, username: Seq<char>) -> Result<(Oid, int), Error> {
        match self.user_named(username) {
            None => Err(Error::UserNotFoundError),
            Some(u) => match location(self.users[u]) {
                Err(e) => Err(e),
                Ok(room_id) => match self.room_at(room_id) {
                    None => Err(Error::RoomNotFoundError),
                    Some(r) => match doorway_grant(self.rooms[r], riddle_id) {
                        Err(e) => Err(e),
                        Ok(id) => Ok((id, u)),
                    },
                },
            },
        }
    }
}

impl DB {
    /// Decides whether the user of that name may see the riddle, and hands
    /// out the riddle and the user where they may.
    pub fn riddle_accessibility(&self, oid: &Oid, username: &String) -> (r: Result<
        (Oid, User),
        Error,
    >)
        ensures
            match self@.access(*oid, username@) {
                Ok((id, u)) => r matches Ok((granted, user)) && granted == id && granted == *oid
                    && user@ == self@.users[u],
                Err(e) => r matches Err(x) && x == e,
            },
    {
        let user = match self.get_user(username) {
            Ok(user) => user,
            Err(e) => {
                return Err(e);
            },
        };
        let in_room = match current_room(&user) {
            Ok(in_room) => in_room,
            Err(e) => {
                return Err(e);
            },
        };
        let room = match self.get_room(&in_room) {
            Ok(room) => room,
            Err(e) => {
                return Err(e);
            },
        };
        match check_doorway(&room, oid) {
            Ok(id) => Ok((id, user)),
            Err(e) => Err(e),
        }
    }
}

} // verus!
