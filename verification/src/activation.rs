//! New accounts and their activation: the first room, and the recovery keys.

use crate::auth::Role;
use crate::clock::unix_now;
use crate::db::{DB, DBView};
use crate::error::Error;
use crate::ident::Oid;
use crate::model::{
    PinType, RoomView, Timestamp, User, UserView, WebauthnManagementData,
    WebauthnManagementDataView, texts_view,
};
use crate::random::draw_key_words;
use crate::seqs::{first_index, lemma_first_index_is, lemma_first_index_none};
use crate::text::{push_char, str_eq};
use vstd::prelude::*;
use vstd::string::StrSliceExecFns;

verus! {

/// The characters of which recovery keys are made: the lower-case letters but
/// the `l`, and the digits.
pub struct KeyChars;

/// The characters of which recovery keys are made, in order.
pub open spec fn key_charset() -> Seq<char> {
    "abcdefghijkmnopqrstuvwxyz0123456789"@
}

/// The character that a random word picks.
pub open spec fn key_char(word: u32) -> char {
    key_charset()[(word % 35) as int]
}

/// There are thirty-five characters for keys, each a letter or a digit of
/// ASCII.
pub proof fn lemma_key_charset()
    ensures
        key_charset().len() == 35,
        forall|i: int|
            0 <= i < 35 ==> ('a' <= #[trigger] key_charset()[i] <= 'z' || '0' <= key_charset()[i]
                <= '9'),
        !key_charset().contains('l'),
        !key_charset().contains('-'),
{
    reveal_strlit("abcdefghijkmnopqrstuvwxyz0123456789");
}

impl KeyChars {
    /// The character that a random word picks, as a byte.
    pub fn pick(&self, word: u32) -> (r: u8)
        ensures
            r as char == key_char(word),
            r < 128,
    {
        let charset = "abcdefghijkmnopqrstuvwxyz0123456789";
        proof {
            lemma_key_charset();
            assert(vstd::utf8::is_ascii_chars(charset@)) by {
                assert forall|i: int| 0 <= i < charset@.len() implies (charset@[i] as u32) < 128 by {
                    assert('a' <= key_charset()[i] <= 'z' || '0' <= key_charset()[i] <= '9');
                }
            }
        }
        let idx = (word % 35) as usize;
        charset.get_ascii(idx)
    }
}

/// The recovery key that sixteen random words spell: four groups of four
/// characters, with a hyphen between the groups.
pub open spec fn recovery_key(words: Seq<u32>) -> Seq<char> {
    Seq::new(
        19,
        |i: int|
            if i % 5 == 4 {
                '-'
            } else {
                key_char(words[i - i / 5])
            },
    )
}

/// The recovery keys that random words spell, sixteen words to a key.
pub open spec fn recovery_keys(words: Seq<u32>, count: int) -> Seq<Seq<char>> {
    Seq::new(count as nat, |k: int| recovery_key(words.subrange(16 * k, 16 * k + 16)))
}

/// Spells the recovery key of sixteen words.
pub fn make_recovery_key(words: &[u32; 16]) -> (r: String)
    ensures
        r@ == recovery_key(words@),
{
    let mut key = String::new();
    let mut i: usize = 0;
    while i < 19
        invariant
            i <= 19,
            key@ == recovery_key(words@).take(i as int),
        decreases 19 - i,
    {
        if i % 5 == 4 {
            push_char(&mut key, '-');
        } else {
            let b = KeyChars.pick(words[i - i / 5]);
            push_char(&mut key, b as char);
        }
        assert(recovery_key(words@).take(i + 1) =~= recovery_key(words@).take(i as int).push(
            recovery_key(words@)[i as int],
        ));
        i += 1;
    }
    assert(recovery_key(words@).take(19) =~= recovery_key(words@));
    key
}

/// Spells ten recovery keys from a hundred and sixty random words.
pub fn make_recovery_keys(words: &[u32; 160]) -> (r: Vec<String>)
    ensures
        texts_view(r@) == recovery_keys(words@, 10),
{
    let mut keys: Vec<String> = Vec::new();
    let mut k: usize = 0;
    while k < 10
        invariant
            k <= 10,
            keys@.len() == k,
            forall|j: int| 0 <= j < k ==> (#[trigger] keys@[j])@ == recovery_keys(words@, 10)[j],
        decreases 10 - k,
    {
        let mut part: [u32; 16] = [0u32; 16];
        let mut i: usize = 0;
        while i < 16
            invariant
                i <= 16,
                k < 10,
                forall|x: int| 0 <= x < i ==> part@[x] == words@[16 * k + x],
            decreases 16 - i,
        {
            part[i] = words[16 * k + i];
            i += 1;
        }
        assert(part@ =~= words@.subrange(16 * k, 16 * k + 16));
        keys.push(make_recovery_key(&part));
        k += 1;
    }
    assert(texts_view(keys@) =~= recovery_keys(words@, 10));
    keys
}

/// A user as they are when they have registered: not activated, nowhere,
/// with nothing solved and no score.
pub open spec fn fresh_user(
    id: Oid,
    now: Timestamp,
    username: Seq<char>,
    email: Seq<char>,
    role: Role,
    hash: Seq<char>,
    pin: PinType,
    totp_key: Seq<u8>,
) -> UserView {
    UserView {
        id,
        username,
        email,
        role,
        hash,
        pin,
        activated: false,
        created: Some(now),
        registered: None,
        last_login: None,
        solved: Seq::empty(),
        current_riddle_attempt: None,
        rooms_entered: Seq::empty(),
        finished: Seq::empty(),
        level: 0,
        score: 0,
        in_room: None,
        awaiting_second_factor: false,
        totp_key,
        recovery_keys: Seq::empty(),
        webauthn: WebauthnManagementDataView {
            registration_state: None,
            credentials: Seq::empty(),
            authentication_state: None,
        },
    }
}

impl User {
    /// A user who has registered at `now` and is known by `id`.
    pub fn new_at(
        id: Oid,
        now: Timestamp,
        username: &String,
        email: &String,
        role: Role,
        hash: String,
        pin: PinType,
        totp_key: Vec<u8>,
    ) -> (r: User)
        ensures
            r@ == fresh_user(id, now, username@, email@, role, hash@, pin, totp_key@),
    {
        let r = User {
            id,
            username: username.clone(),
            email: email.clone(),
            role,
            hash,
            pin,
            activated: false,
            created: Some(now),
            registered: None,
            last_login: None,
            solved: Vec::new(),
            current_riddle_attempt: None,
            rooms_entered: Vec::new(),
            finished: Vec::new(),
            level: 0,
            score: 0,
            in_room: None,
            awaiting_second_factor: false,
            totp_key,
            recovery_keys: Vec::new(),
            webauthn: WebauthnManagementData::new(),
        };
        assert(texts_view(r.recovery_keys@) =~= Seq::empty());
        r
    }

    /// A user who registers now, known by a new identifier.
    pub fn new(
        username: &String,
        email: &String,
        role: Role,
        hash: String,
        pin: PinType,
        totp_key: Vec<u8>,
    ) -> (r: User)
        ensures
            r.created is Some,
            r@ == fresh_user(
                r.id,
                r.created.unwrap(),
                username@,
                email@,
                role,
                hash@,
                pin,
                totp_key@,
            ),
    {
        User::new_at(Oid::new(), unix_now(), username, email, role, hash, pin, totp_key)
    }
}

/// A user as they are once they are activated at `now`: without a pin, with
/// recovery keys, and in their first room.
pub open spec fn activated_user(
    user: UserView,
    first_room: Oid,
    now: Timestamp,
    keys: Seq<Seq<char>>,
) -> UserView {
    UserView {
        activated: true,
        registered: Some(now),
        last_login: Some(now),
        in_room: Some(first_room),
        rooms_entered: user.rooms_entered.push(first_room),
        pin: 0,
        recovery_keys: keys,
        ..user
    }
}

/// Activates a user at `now`: puts them into their first room, takes their
/// pin, and gives them the ten recovery keys that the random `words` spell.
pub fn activate(user: &mut User, first_room_id: Oid, now: Timestamp, words: &[u32; 160])
    ensures
        final(user)@ == activated_user(
            old(user)@,
            first_room_id,
            now,
            recovery_keys(words@, 10),
        ),
{
    user.activated = true;
    user.registered = Some(now);
    user.last_login = Some(now);
    user.in_room = Some(first_room_id);
    user.rooms_entered.push(first_room_id);
    user.pin = 0;
    user.recovery_keys = make_recovery_keys(words);
}

impl DBView {
    /// The store with one more user.
    pub open spec fn with_new_user(self, user: UserView) -> DBView {
        DBView { users: self.users.push(user), ..self }
    }

    /// The first user of that name who is not activated.
    pub open spec fn pending_named(self, username: Seq<char>) -> Option<int> {
        first_index(self.users, |u: UserView| u.username == username && !u.activated)
    }

    /// The store after the activation of `user` was written to the first
    /// user of that name who is not activated.
    pub open spec fn activation_set(self, user: UserView) -> DBView {
        match self.pending_named(user.username) {
            Some(i) => self.with_user(
                i,
                UserView {
                    activated: user.activated,
                    registered: user.registered,
                    last_login: user.last_login,
                    in_room: user.in_room,
                    rooms_entered: user.rooms_entered,
                    recovery_keys: user.recovery_keys,
                    pin: 0,
                    ..self.users[i]
                },
            ),
            None => self,
        }
    }

    /// What an activation does: with no entry room it fails; else the user
    /// is activated in the first entry room, and the store is told.
    pub open spec fn activate(self, user: UserView, now: Timestamp, words: Seq<u32>) -> (
        DBView,
        Result<UserView, Error>,
    ) {
        match self.entry_room() {
            None => (self, Err(Error::RoomNotFoundError)),
            Some(e) => {
                let after = activated_user(user, self.rooms[e].id, now, recovery_keys(words, 10));
                (self.activation_set(after), Ok(after))
            },
        }
    }
}

impl DB {
    /// Adds a user to the store.
    pub fn create_user(&mut self, user: &User) -> (r: Result<(), Error>)
        ensures
            r is Ok,
            final(self)@ == old(self)@.with_new_user(user@),
    {
        self.users.push(user.clone());
        assert(self@.users =~= old(self)@.users.push(user@));
        Ok(())
    }

    /// The first user of that name who is not activated and holds the pin, or
    /// `UserNotFoundError`.
    pub fn get_user_with_pin(&self, username: &String, pin: PinType) -> (r: Result<User, Error>)
        ensures
            match self@.user_pending(username@, pin) {
                Some(i) => r matches Ok(u) && u@ == self@.users[i],
                None => r matches Err(e) && e == Error::UserNotFoundError,
            },
    {
        let ghost p = |u: UserView| u.username == username@ && u.pin == pin && !u.activated;
        let mut i: usize = 0;
        while i < self.users.len()
            invariant
                i <= self.users.len(),
                p == (|u: UserView| u.username == username@ && u.pin == pin && !u.activated),
                forall|j: int| 0 <= j < i ==> !p(#[trigger] self@.users[j]),
            decreases self.users.len() - i,
        {
            let u = &self.users[i];
            if u.pin == pin && !u.activated && str_eq(u.username.as_str(), username.as_str()) {
                proof {
                    lemma_first_index_is(self@.users, p, i as int);
                }
                return Ok(u.clone());
            }
            i += 1;
        }
        proof {
            lemma_first_index_none(self@.users, p);
        }
        Err(Error::UserNotFoundError)
    }

    /// The identifier of the first room that is marked as an entry.
    pub fn find_entry_room(&self) -> (r: Option<Oid>)
        ensures
            match self@.entry_room() {
                Some(i) => r == Some(self@.rooms[i].id),
                None => r is None,
            },
    {
        let ghost p = |r: RoomView| r.entry == Some(true);
        let mut i: usize = 0;
        while i < self.rooms.len()
            invariant
                i <= self.rooms.len(),
                p == (|r: RoomView| r.entry == Some(true)),
                forall|j: int| 0 <= j < i ==> !p(#[trigger] self@.rooms[j]),
            decreases self.rooms.len() - i,
        {
            let entry = match self.rooms[i].entry {
                Some(b) => b,
                None => false,
            };
            if entry {
                proof {
                    lemma_first_index_is(self@.rooms, p, i as int);
                }
                return Some(self.rooms[i].id);
            }
            i += 1;
        }
        proof {
            lemma_first_index_none(self@.rooms, p);
        }
        None
    }

    /// Writes the activation that `user` carries to the first stored user of
    /// that name who is not activated.
    fn set_user_activated(&mut self, user: &User)
        ensures
            final(self)@ == old(self)@.activation_set(user@),
    {
        let ghost p = |u: UserView| u.username == user@.username && !u.activated;
        let mut i: usize = 0;
        while i < self.users.len()
            invariant
                i <= self.users.len(),
                *self == *old(self),
                p == (|u: UserView| u.username == user@.username && !u.activated),
                forall|j: int| 0 <= j < i ==> !p(#[trigger] self@.users[j]),
            decreases self.users.len() - i,
        {
            if !self.users[i].activated && str_eq(
                self.users[i].username.as_str(),
                user.username.as_str(),
            ) {
                proof {
                    lemma_first_index_is(self@.users, p, i as int);
                }
                let rooms_entered = user.rooms_entered.clone();
                let recovery_keys = user.recovery_keys.clone();
                assert(rooms_entered@ =~= user.rooms_entered@);
                assert(texts_view(recovery_keys@) =~= texts_view(user.recovery_keys@));
                self.users[i].activated = user.activated;
                self.users[i].registered = user.registered;
                self.users[i].last_login = user.last_login;
                self.users[i].in_room = user.in_room;
                self.users[i].rooms_entered = rooms_entered;
                self.users[i].recovery_keys = recovery_keys;
                self.users[i].pin = 0;
                assert(self@.users =~= old(self)@.users.update(
                    i as int,
                    UserView {
                        activated: user.activated,
                        registered: user.registered,
                        last_login: user.last_login,
                        in_room: user.in_room,
                        rooms_entered: user@.rooms_entered,
                        recovery_keys: user@.recovery_keys,
                        pin: 0,
                        ..old(self)@.users[i as int]
                    },
                ));
                return ;
            }
            i += 1;
        }
        proof {
            lemma_first_index_none(self@.users, p);
        }
    }

    /// Activates the user at `now`: puts them into the first entry room,
    /// takes their pin, gives them the ten recovery keys that the random
    /// `words` spell, and writes all that to the store. Without an entry room
    /// the activation fails with `RoomNotFoundError` and nothing changes.
    pub fn activate_user_with(&mut self, user: &mut User, now: Timestamp, words: &[u32; 160]) -> (r:
        Result<(), Error>)
        ensures
            ({
                let (after, outcome) = old(self)@.activate(old(user)@, now, words@);
                &&& final(self)@ == after
                &&& match outcome {
                    Ok(u) => r is Ok && final(user)@ == u,
                    Err(e) => (r matches Err(x) && x == e) && final(user)@ == old(user)@,
                }
            }),
    {
        let first_room_id = match self.find_entry_room() {
            Some(id) => id,
            None => {
                return Err(Error::RoomNotFoundError);
            },
        };
        activate(user, first_room_id, now, words);
        self.set_user_activated(user);
        Ok(())
    }

    /// Activates the user at the time that the clock shows, with recovery
    /// keys drawn at random.
    pub fn activate_user(&mut self, user: &mut User) -> (r: Result<(), Error>)
        ensures
            exists|now: Timestamp, words: Seq<u32>|
                {
                    let (after, outcome) = #[trigger] old(self)@.activate(old(user)@, now, words);
                    &&& words.len() == 160
                    &&& final(self)@ == after
                    &&& match outcome {
                        Ok(u) => r is Ok && final(user)@ == u,
                        Err(e) => (r matches Err(x) && x == e) && final(user)@ == old(user)@,
                    }
                },
    {
        let now = unix_now();
        let words = draw_key_words();
        self.activate_user_with(user, now, &words)
    }
}

} // verus!
