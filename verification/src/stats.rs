//! The size of a game: how many rooms it has, how many riddles lock its
//! doorways, and what solving them all is worth.

use crate::db::{DB, DBView};
use crate::error::Error;
use crate::ident::{Oid, is_oid_text};
use crate::model::{DirectionView, RiddleAttempt, RiddleView, RoomView, User, UserView};
use crate::responses::GameStatsResponse;
use vstd::prelude::*;

verus! {

/// How many items of `s` meet `p`.
pub open spec fn count_where<T>(s: Seq<T>, p: spec_fn(T) -> bool) -> nat
    decreases s.len(),
{
    if s.len() == 0 {
        0
    } else {
        count_where(s.drop_last(), p) + if p(s.last()) {
            1nat
        } else {
            0nat
        }
    }
}

/// No more items meet a condition than there are items.
pub proof fn lemma_count_where_bound<T>(s: Seq<T>, p: spec_fn(T) -> bool)
    ensures
        count_where(s, p) <= s.len(),
    decreases s.len(),
{
    if s.len() > 0 {
        lemma_count_where_bound(s.drop_last(), p);
    }
}

/// The riddles that lock the doorways of the rooms of a game, room by room
/// and doorway by doorway, each as often as it locks one.
pub open spec fn doorway_riddles(rooms: Seq<RoomView>, game_id: Oid) -> Seq<Oid>
    decreases rooms.len(),
{
    if rooms.len() == 0 {
        Seq::empty()
    } else if rooms.last().game_id == game_id {
        doorway_riddles(rooms.drop_last(), game_id) + rooms.last().neighbors.map_values(
            |d: DirectionView| d.riddle_id,
        )
    } else {
        doorway_riddles(rooms.drop_last(), game_id)
    }
}

/// The items of `s`, each once, in the order in which they first occur.
pub open spec fn distinct<T>(s: Seq<T>) -> Seq<T>
    decreases s.len(),
{
    if s.len() == 0 {
        Seq::empty()
    } else {
        let d = distinct(s.drop_last());
        if d.contains(s.last()) {
            d
        } else {
            d.push(s.last())
        }
    }
}

/// `distinct` holds what the sequence holds, and nothing twice.
pub proof fn lemma_distinct<T>(s: Seq<T>)
    ensures
        distinct(s).no_duplicates(),
        forall|x: T| distinct(s).contains(x) <==> s.contains(x),
        distinct(s).len() <= s.len(),
    decreases s.len(),
{
    if s.len() > 0 {
        let t = s.drop_last();
        let d = distinct(t);
        lemma_distinct(t);
        assert forall|x: T| distinct(s).contains(x) <==> s.contains(x) by {
            if s.contains(x) {
                let i = choose|i: int| 0 <= i < s.len() && s[i] == x;
                if i < t.len() {
                    assert(t[i] == x);
                    assert(t.contains(x));
                    assert(d.contains(x));
                    if !d.contains(s.last()) {
                        let j = choose|j: int| 0 <= j < d.len() && d[j] == x;
                        assert(d.push(s.last())[j] == x);
                    }
                } else {
                    assert(x == s.last());
                    if !d.contains(s.last()) {
                        assert(d.push(s.last())[d.len() as int] == x);
                    }
                }
            }
            if distinct(s).contains(x) {
                let j = choose|j: int| 0 <= j < distinct(s).len() && distinct(s)[j] == x;
                if d.contains(s.last()) || j < d.len() {
                    assert(d[j] == x);
                    assert(d.contains(x));
                    assert(t.contains(x));
                    let i = choose|i: int| 0 <= i < t.len() && t[i] == x;
                    assert(s[i] == x);
                } else {
                    assert(s[s.len() - 1] == x);
                }
            }
        }
        if !d.contains(s.last()) {
            let e = d.push(s.last());
            assert forall|i: int, j: int| 0 <= i < e.len() && 0 <= j < e.len() && i != j implies e[i]
                != e[j] by {
                if i < d.len() && j < d.len() {
                } else if i < d.len() {
                    assert(d.contains(e[i]));
                } else {
                    assert(d.contains(e[j]));
                }
            }
        }
    }
}

/// The sum of the difficulties of the riddles that the identifiers name. An
/// identifier that names no riddle adds nothing.
pub open spec fn total_difficulty(riddles: Seq<RiddleView>, ids: Seq<Oid>) -> int
    decreases ids.len(),
{
    if ids.len() == 0 {
        0
    } else {
        total_difficulty(riddles, ids.drop_last()) + difficulty_of(riddles, ids.last())
    }
}

/// The difficulty of the first riddle with that identifier, zero where there
/// is none.
pub open spec fn difficulty_of(riddles: Seq<RiddleView>, id: Oid) -> int {
    match crate::seqs::first_index(riddles, |r: RiddleView| r.id == id) {
        Some(i) => riddles[i].difficulty as int,
        None => 0,
    }
}

/// A count or a sum as it is reported: in thirty-two bits.
pub open spec fn reported(n: int) -> u32 {
    n as u32
}

/// A sum of difficulties as it is reported: a sum that thirty-two signed bits
/// cannot hold is reported as zero.
pub open spec fn reported_score(sum: int) -> u32 {
    if i32::MIN <= sum <= i32::MAX {
        (sum as i32) as u32
    } else {
        0
    }
}

impl DBView {
    /// How many rooms the game has.
    pub open spec fn num_rooms(self, game_id: Oid) -> nat {
        count_where(self.rooms, |r: RoomView| r.game_id == game_id)
    }

    /// The riddles that lock doorways of the game, each once.
    pub open spec fn game_riddles(self, game_id: Oid) -> Seq<Oid> {
        distinct(doorway_riddles(self.rooms, game_id))
    }

    /// How many riddles lock doorways of the game.
    pub open spec fn num_riddles(self, game_id: Oid) -> nat {
        self.game_riddles(game_id).len()
    }

    /// What solving every riddle of the game is worth.
    pub open spec fn max_score(self, game_id: Oid) -> int {
        total_difficulty(self.riddles, self.game_riddles(game_id))
    }
}

impl DB {
    /// How many rooms the game has.
    pub fn get_num_rooms(&self, game_id: &Oid) -> (r: Result<u32, Error>)
        ensures
            r matches Ok(n) && n == reported(self@.num_rooms(*game_id) as int),
    {
        let ghost p = |r: RoomView| r.game_id == *game_id;
        let mut count: usize = 0;
        let mut i: usize = 0;
        assert(self@.rooms.take(0) =~= Seq::empty());
        while i < self.rooms.len()
            invariant
                i <= self.rooms.len(),
                p == (|r: RoomView| r.game_id == *game_id),
                count == count_where(self@.rooms.take(i as int), p),
                count <= i,
            decreases self.rooms.len() - i,
        {
            assert(self@.rooms.take(i + 1).drop_last() =~= self@.rooms.take(i as int));
            if self.rooms[i].game_id == *game_id {
                count += 1;
            }
            i += 1;
        }
        assert(self@.rooms.take(self.rooms.len() as int) =~= self@.rooms);
        Ok(#[verifier::truncate] (count as u32))
    }

    /// The riddles that lock doorways of the game, each once, in the order in
    /// which the rooms and their doorways name them first.
    pub fn collect_game_riddles(&self, game_id: &Oid) -> (r: Vec<Oid>)
        ensures
            r@ == self@.game_riddles(*game_id),
    {
        let mut found: Vec<Oid> = Vec::new();
        let mut i: usize = 0;
        assert(self@.rooms.take(0) =~= Seq::empty());
        while i < self.rooms.len()
            invariant
                i <= self.rooms.len(),
                found@ == distinct(doorway_riddles(self@.rooms.take(i as int), *game_id)),
            decreases self.rooms.len() - i,
        {
            let room = &self.rooms[i];
            let ghost before = doorway_riddles(self@.rooms.take(i as int), *game_id);
            let ghost ids = room@.neighbors.map_values(|d: DirectionView| d.riddle_id);
            assert(self@.rooms.take(i + 1).drop_last() =~= self@.rooms.take(i as int));
            assert(self@.rooms.take(i + 1).last() == room@);
            if room.game_id == *game_id {
                let mut k: usize = 0;
                assert(before + ids.take(0) =~= before);
                while k < room.neighbors.len()
                    invariant
                        k <= room.neighbors.len(),
                        ids == room@.neighbors.map_values(|d: DirectionView| d.riddle_id),
                        found@ == distinct(before + ids.take(k as int)),
                    decreases room.neighbors.len() - k,
                {
                    let id = room.neighbors[k].riddle_id;
                    let ghost now = before + ids.take(k + 1);
                    assert(now.drop_last() =~= before + ids.take(k as int));
                    assert(now.last() == id);
                    let mut known = false;
                    let mut j: usize = 0;
                    while j < found.len() && !known
                        invariant
                            j <= found.len(),
                            !known ==> forall|x: int| 0 <= x < j ==> found@[x] != id,
                            known ==> found@.contains(id),
                        decreases found.len() - j + if known { 0int } else { 1int },
                    {
                        if found[j] == id {
                            known = true;
                        } else {
                            j += 1;
                        }
                    }
                    if !known {
                        found.push(id);
                    }
                    k += 1;
                }
                assert(ids.take(ids.len() as int) =~= ids);
            }
            i += 1;
        }
        assert(self@.rooms.take(self.rooms.len() as int) =~= self@.rooms);
        found
    }

    /// How many riddles lock doorways of the game.
    pub fn get_num_riddles(&self, game_id: &Oid) -> (r: Result<u32, Error>)
        ensures
            r matches Ok(n) && n == reported(self@.num_riddles(*game_id) as int),
    {
        let found = self.collect_game_riddles(game_id);
        Ok(#[verifier::truncate] (found.len() as u32))
    }
}

/// A sum of difficulties is no further from zero than as many times the
/// greatest difficulty as there are riddles.
pub proof fn lemma_total_difficulty_bound(riddles: Seq<RiddleView>, ids: Seq<Oid>)
    ensures
        -2147483648 * ids.len() <= total_difficulty(riddles, ids) <= 2147483648 * ids.len(),
    decreases ids.len(),
{
    if ids.len() > 0 {
        lemma_total_difficulty_bound(riddles, ids.drop_last());
    }
}

impl DB {
    /// What solving every riddle of the game is worth.
    pub fn get_max_score_for_game(&self, game_id: &Oid) -> (r: Result<u32, Error>)
        ensures
            r matches Ok(n) && n == reported_score(self@.max_score(*game_id)),
    {
        let found = self.collect_game_riddles(game_id);
        let mut sum: i128 = 0;
        let mut i: usize = 0;
        assert(found@.take(0) =~= Seq::empty());
        while i < found.len()
            invariant
                i <= found.len(),
                sum == total_difficulty(self@.riddles, found@.take(i as int)),
                -2147483648 * i <= sum <= 2147483648 * i,
            decreases found.len() - i,
        {
            assert(found@.take(i + 1).drop_last() =~= found@.take(i as int));
            proof {
                lemma_total_difficulty_bound(self@.riddles, found@.take(i + 1));
            }
            match self.find_riddle(&found[i]) {
                Some(k) => {
                    sum = sum + self.riddles[k].difficulty as i128;
                },
                None => {},
            }
            i += 1;
        }
        assert(found@.take(found.len() as int) =~= found@);
        if -2147483648 <= sum && sum <= 2147483647 {
            let total = sum as i32;
            Ok(#[verifier::truncate] (total as u32))
        } else {
            Ok(0)
        }
    }
}

/// The size of a game as it is reported to a player.
pub fn game_stats_handler(game_id_str: String, username: String, db: &DB) -> (r: Result<
    GameStatsResponse,
    Error,
>)
    ensures
        !is_oid_text(game_id_str@) ==> (r matches Err(e) && e is BsonOidError),
        is_oid_text(game_id_str@) ==> ({
            let game_id = crate::ident::oid_of_text(game_id_str@);
            r matches Ok(resp) && resp.ok && resp.message is None && resp.num_rooms == reported(
                db@.num_rooms(game_id) as int,
            ) as i32 && resp.num_riddles == reported(db@.num_riddles(game_id) as int) as i32
                && resp.max_score == reported_score(db@.max_score(game_id)) as i32
        }),
{
    let game_id = match Oid::parse_str(game_id_str.as_str()) {
        Ok(oid) => oid,
        Err(e) => {
            return Err(e);
        },
    };
    let num_rooms = match db.get_num_rooms(&game_id) {
        Ok(n) => n,
        Err(e) => {
            return Err(e);
        },
    };
    let num_riddles = match db.get_num_riddles(&game_id) {
        Ok(n) => n,
        Err(e) => {
            return Err(e);
        },
    };
    let max_score = match db.get_max_score_for_game(&game_id) {
        Ok(n) => n,
        Err(e) => {
            return Err(e);
        },
    };
    Ok(
        GameStatsResponse {
            ok: true,
            message: None,
            num_rooms: #[verifier::truncate] (num_rooms as i32),
            num_riddles: #[verifier::truncate] (num_riddles as i32),
            max_score: #[verifier::truncate] (max_score as i32),
        },
    )
}

/// What the table of scores shows of a user.
#[derive(Debug)]
pub struct UserScoreData {
    pub id: Oid,
    pub username: String,
    pub solved: Vec<RiddleAttempt>,
    pub current_riddle_attempt: Option<RiddleAttempt>,
    pub level: u32,
    pub score: i32,
    pub in_room: Option<Oid>,
}

/// An entry of the table of scores as the rules see it.
pub struct UserScoreDataView {
    pub id: Oid,
    pub username: Seq<char>,
    pub solved: Seq<RiddleAttempt>,
    pub current_riddle_attempt: Option<RiddleAttempt>,
    pub level: u32,
    pub score: i32,
    pub in_room: Option<Oid>,
}

impl View for UserScoreData {
    type V = UserScoreDataView;

    open spec fn view(&self) -> UserScoreDataView {
        UserScoreDataView {
            id: self.id,
            username: self.username@,
            solved: self.solved@,
            current_riddle_attempt: self.current_riddle_attempt,
            level: self.level,
            score: self.score,
            in_room: self.in_room,
        }
    }
}

/// What the table of scores shows of a user.
pub open spec fn score_entry(u: UserView) -> UserScoreDataView {
    UserScoreDataView {
        id: u.id,
        username: u.username,
        solved: u.solved,
        current_riddle_attempt: u.current_riddle_attempt,
        level: u.level,
        score: u.score,
        in_room: u.in_room,
    }
}

/// The entries of the activated users among `users`, in their order.
pub open spec fn score_entries(users: Seq<UserView>) -> Seq<UserScoreDataView>
    decreases users.len(),
{
    if users.len() == 0 {
        Seq::empty()
    } else if users.last().activated {
        score_entries(users.drop_last()).push(score_entry(users.last()))
    } else {
        score_entries(users.drop_last())
    }
}

/// Whether the scores of a table ascend.
pub open spec fn scores_ascend(table: Seq<UserScoreDataView>) -> bool {
    forall|i: int, j: int| 0 <= i <= j < table.len() ==> table[i].score <= table[j].score
}

impl UserScoreData {
    /// What the table of scores shows of a user.
    pub fn of(user: &User) -> (r: UserScoreData)
        ensures
            r@ == score_entry(user@),
    {
        let solved = user.solved.clone();
        assert(solved@ =~= user.solved@);
        UserScoreData {
            id: user.id,
            username: user.username.clone(),
            solved,
            current_riddle_attempt: user.current_riddle_attempt,
            level: user.level,
            score: user.score,
            in_room: user.in_room,
        }
    }
}

impl DB {
    /// The table of scores: the activated users, each once, the lowest score
    /// first.
    pub fn get_all_user_scores(&self) -> (r: Result<Vec<UserScoreData>, Error>)
        ensures
            r matches Ok(table) && {
                let shown = table@.map_values(|e: UserScoreData| e@);
                &&& scores_ascend(shown)
                &&& shown.to_multiset() == score_entries(self@.users).to_multiset()
            },
    {
        let mut table: Vec<UserScoreData> = Vec::new();
        let mut i: usize = 0;
        assert(self@.users.take(0) =~= Seq::empty());
        assert(table@.map_values(|e: UserScoreData| e@) =~= Seq::empty());
        while i < self.users.len()
            invariant
                i <= self.users.len(),
                scores_ascend(table@.map_values(|e: UserScoreData| e@)),
                table@.map_values(|e: UserScoreData| e@).to_multiset() == score_entries(
                    self@.users.take(i as int),
                ).to_multiset(),
            decreases self.users.len() - i,
        {
            let user = &self.users[i];
            assert(self@.users.take(i + 1).drop_last() =~= self@.users.take(i as int));
            assert(self@.users.take(i + 1).last() == user@);
            if user.activated {
                let entry = UserScoreData::of(user);
                let ghost before = table@.map_values(|e: UserScoreData| e@);
                let mut k: usize = 0;
                while k < table.len() && table[k].score <= entry.score
                    invariant
                        k <= table.len(),
                        before == table@.map_values(|e: UserScoreData| e@),
                        forall|j: int| 0 <= j < k ==> before[j].score <= entry.score,
                    decreases table.len() - k,
                {
                    k += 1;
                }
                let ghost shown = entry@;
                table.insert(k, entry);
                proof {
                    let after = table@.map_values(|e: UserScoreData| e@);
                    assert(after =~= before.insert(k as int, shown));
                    vstd::seq_lib::to_multiset_insert(before, k as int, shown);
                    vstd::seq_lib::to_multiset_build(
                        score_entries(self@.users.take(i as int)),
                        shown,
                    );
                    assert forall|a: int, b: int| 0 <= a <= b < after.len() implies after[a].score
                        <= after[b].score by {
                        if a < k && b > k {
                            assert(before[a].score <= before[b - 1].score);
                        } else if a < k && b < k {
                            assert(before[a].score <= before[b].score);
                        } else if a > k {
                            assert(before[a - 1].score <= before[b - 1].score);
                        } else if a == k && b > k {
                            assert(before[k as int].score <= before[b - 1].score);
                        }
                    }
                }
            }
            i += 1;
        }
        assert(self@.users.take(self.users.len() as int) =~= self@.users);
        Ok(table)
    }
}

} // verus!
