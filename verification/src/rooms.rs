//! Doorways: finding them in a room, and the direction that leads back.

use crate::ident::Oid;
use crate::model::{DirectionView, Room, RoomView};
use crate::seqs::{first_index, lemma_first_index_is, lemma_first_index_none};
use crate::text::str_eq;
use vstd::prelude::*;

verus! {

/// The direction that leads back: north and south are opposites, and so are
/// east and west. No other direction has an opposite.
pub open spec fn opposite(direction: Seq<char>) -> Option<Seq<char>> {
    if direction == seq!['n'] {
        Some(seq!['s'])
    } else if direction == seq!['s'] {
        Some(seq!['n'])
    } else if direction == seq!['e'] {
        Some(seq!['w'])
    } else if direction == seq!['w'] {
        Some(seq!['e'])
    } else {
        None
    }
}

/// Going back from where one came leads to where one was.
pub proof fn lemma_opposite_involution(direction: Seq<char>)
    ensures
        match opposite(direction) {
            Some(back) => opposite(back) == Some(direction),
            None => true,
        },
{
    assert(seq!['n'][0] == 'n');
    assert(seq!['s'][0] == 's');
    assert(seq!['e'][0] == 'e');
    assert(seq!['w'][0] == 'w');
}

/// The four directions, as texts and as sequences of characters.
proof fn lemma_direction_literals()
    ensures
        "n"@ == seq!['n'],
        "s"@ == seq!['s'],
        "e"@ == seq!['e'],
        "w"@ == seq!['w'],
{
    reveal_strlit("n");
    reveal_strlit("s");
    reveal_strlit("e");
    reveal_strlit("w");
    assert("n"@ =~= seq!['n']);
    assert("s"@ =~= seq!['s']);
    assert("e"@ =~= seq!['e']);
    assert("w"@ =~= seq!['w']);
}

/// The direction that leads back, if `direction` has one.
pub fn opposite_of(direction: &str) -> (r: Option<&'static str>)
    ensures
        match r {
            Some(back) => opposite(direction@) == Some(back@),
            None => opposite(direction@) is None,
        },
{
    proof {
        lemma_direction_literals();
    }
    if str_eq(direction, "n") {
        Some("s")
    } else if str_eq(direction, "s") {
        Some("n")
    } else if str_eq(direction, "e") {
        Some("w")
    } else if str_eq(direction, "w") {
        Some("e")
    } else {
        None
    }
}

impl RoomView {
    /// The first doorway that the riddle locks.
    pub open spec fn doorway_to(self, riddle_id: Oid) -> Option<int> {
        first_index(self.neighbors, |d: DirectionView| d.riddle_id == riddle_id)
    }

    /// The first doorway that leaves in the direction.
    pub open spec fn doorway_in(self, direction: Seq<char>) -> Option<int> {
        first_index(self.neighbors, |d: DirectionView| d.direction == direction)
    }

    /// Whether some doorway leaves in the direction and is locked by the
    /// riddle.
    pub open spec fn has_doorway(self, direction: Seq<char>, riddle_id: Oid) -> bool {
        exists|i: int|
            0 <= i < self.neighbors.len() && (#[trigger] self.neighbors[i]).direction == direction
                && self.neighbors[i].riddle_id == riddle_id
    }

    /// No two doorways leave in one direction.
    pub open spec fn directions_distinct(self) -> bool {
        forall|i: int, j: int|
            0 <= i < j < self.neighbors.len() ==> (#[trigger] self.neighbors[i]).direction != (
            #[trigger] self.neighbors[j]).direction
    }
}

impl Room {
    /// The position of the first doorway that the riddle locks.
    pub fn find_doorway_to(&self, riddle_id: &Oid) -> (r: Option<usize>)
        ensures
            match r {
                Some(i) => i < self.neighbors.len() && self@.doorway_to(*riddle_id) == Some(i as int),
                None => self@.doorway_to(*riddle_id) is None,
            },
    {
        let ghost p = |d: DirectionView| d.riddle_id == *riddle_id;
        let mut i: usize = 0;
        while i < self.neighbors.len()
            invariant
                i <= self.neighbors.len(),
                p == (|d: DirectionView| d.riddle_id == *riddle_id),
                forall|j: int| 0 <= j < i ==> !p(#[trigger] self@.neighbors[j]),
            decreases self.neighbors.len() - i,
        {
            if self.neighbors[i].riddle_id == *riddle_id {
                proof {
                    lemma_first_index_is(self@.neighbors, p, i as int);
                }
                return Some(i);
            }
            i += 1;
        }
        proof {
            lemma_first_index_none(self@.neighbors, p);
        }
        None
    }

    /// The position of the first doorway that leaves in the direction.
    pub fn find_doorway_in(&self, direction: &str) -> (r: Option<usize>)
        ensures
            match r {
                Some(i) => i < self.neighbors.len() && self@.doorway_in(direction@) == Some(i as int),
                None => self@.doorway_in(direction@) is None,
            },
    {
        let ghost p = |d: DirectionView| d.direction == direction@;
        let mut i: usize = 0;
        while i < self.neighbors.len()
            invariant
                i <= self.neighbors.len(),
                p == (|d: DirectionView| d.direction == direction@),
                forall|j: int| 0 <= j < i ==> !p(#[trigger] self@.neighbors[j]),
            decreases self.neighbors.len() - i,
        {
            if str_eq(self.neighbors[i].direction.as_str(), direction) {
                proof {
                    lemma_first_index_is(self@.neighbors, p, i as int);
                }
                return Some(i);
            }
            i += 1;
        }
        proof {
            lemma_first_index_none(self@.neighbors, p);
        }
        None
    }

    /// Whether some doorway leaves in the direction and is locked by the
    /// riddle.
    pub fn has_doorway(&self, direction: &str, riddle_id: &Oid) -> (r: bool)
        ensures
            r == self@.has_doorway(direction@, *riddle_id),
    {
        let mut i: usize = 0;
        while i < self.neighbors.len()
            invariant
                i <= self.neighbors.len(),
                forall|j: int|
                    0 <= j < i ==> !((#[trigger] self@.neighbors[j]).direction == direction@
                        && self@.neighbors[j].riddle_id == *riddle_id),
            decreases self.neighbors.len() - i,
        {
            if self.neighbors[i].riddle_id == *riddle_id && str_eq(
                self.neighbors[i].direction.as_str(),
                direction,
            ) {
                assert(self@.neighbors[i as int].direction == direction@);
                return true;
            }
            i += 1;
        }
        false
    }
}

} // verus!
