//! The documents of the game: riddles, rooms with their doorways, and users
//! with their progress. Each type has a view that holds its text as
//! sequences of characters, and the rules are stated over those views.

use crate::auth::Role;
use crate::ident::Oid;
use crate::text::str_eq;
use vstd::prelude::*;
use vstd::string::StringExecFns;

verus! {

/// The view of an optional text.
pub open spec fn text_view(o: Option<String>) -> Option<Seq<char>> {
    match o {
        Some(s) => Some(s@),
        None => None,
    }
}

/// Copies an optional text.
pub fn clone_text(o: &Option<String>) -> (r: Option<String>)
    ensures
        r == *o,
{
    match o {
        Some(s) => Some(s.clone()),
        None => None,
    }
}

/// Seconds since the Unix epoch.
pub type Timestamp = i64;

/// A doorway: the direction in which it leaves its room, the riddle that
/// locks it, and the level it asks for.
#[derive(Debug)]
pub struct Direction {
    pub direction: String,
    pub riddle_id: Oid,
    pub level: u32,
}

/// A doorway as the rules see it.
pub struct DirectionView {
    pub direction: Seq<char>,
    pub riddle_id: Oid,
    pub level: u32,
}

impl View for Direction {
    type V = DirectionView;

    open spec fn view(&self) -> DirectionView {
        DirectionView { direction: self.direction@, riddle_id: self.riddle_id, level: self.level }
    }
}

impl Clone for Direction {
    fn clone(&self) -> (r: Self)
        ensures
            r@ == self@,
    {
        Direction {
            direction: self.direction.clone(),
            riddle_id: self.riddle_id,
            level: self.level,
        }
    }
}

/// The views of a list of doorways, in order.
pub open spec fn doorways_view(v: Seq<Direction>) -> Seq<DirectionView> {
    v.map_values(|d: Direction| d@)
}

/// A game: a named set of rooms.
#[derive(Debug)]
pub struct Game {
    pub id: Oid,
    pub name: String,
}

/// A room of one game with its doorways. `entry` marks the room in which new
/// players start, `exit` the room whose leaving finishes the game.
#[derive(Debug)]
pub struct Room {
    pub id: Oid,
    pub number: u32,
    pub coords: Option<String>,
    pub neighbors: Vec<Direction>,
    pub game_id: Oid,
    pub entry: Option<bool>,
    pub exit: Option<bool>,
}

/// A room as the rules see it.
pub struct RoomView {
    pub id: Oid,
    pub number: u32,
    pub coords: Option<Seq<char>>,
    pub neighbors: Seq<DirectionView>,
    pub game_id: Oid,
    pub entry: Option<bool>,
    pub exit: Option<bool>,
}

impl View for Room {
    type V = RoomView;

    open spec fn view(&self) -> RoomView {
        RoomView {
            id: self.id,
            number: self.number,
            coords: text_view(self.coords),
            neighbors: doorways_view(self.neighbors@),
            game_id: self.game_id,
            entry: self.entry,
            exit: self.exit,
        }
    }
}

impl Clone for Room {
    fn clone(&self) -> (r: Self)
        ensures
            r@ == self@,
    {
        let neighbors = self.neighbors.clone();
        assert(doorways_view(neighbors@) =~= doorways_view(self.neighbors@));
        Room {
            id: self.id,
            number: self.number,
            coords: clone_text(&self.coords),
            neighbors,
            game_id: self.game_id,
            entry: self.entry,
            exit: self.exit,
        }
    }
}

impl RoomView {
    /// Whether leaving this room finishes the game.
    pub open spec fn is_exit(self) -> bool {
        self.exit == Some(true)
    }
}

/// One resolution of an attached picture.
#[derive(Debug)]
pub struct UploadedFileVariant {
    pub file_id: Oid,
    pub name: String,
    pub scale: u32,
}

/// A variant as the rules see it.
pub struct UploadedFileVariantView {
    pub file_id: Oid,
    pub name: Seq<char>,
    pub scale: u32,
}

impl View for UploadedFileVariant {
    type V = UploadedFileVariantView;

    open spec fn view(&self) -> UploadedFileVariantView {
        UploadedFileVariantView { file_id: self.file_id, name: self.name@, scale: self.scale }
    }
}

impl Clone for UploadedFileVariant {
    fn clone(&self) -> (r: Self)
        ensures
            r@ == self@,
    {
        UploadedFileVariant { file_id: self.file_id, name: self.name.clone(), scale: self.scale }
    }
}

/// The views of a list of variants, in order.
pub open spec fn variants_view(v: Option<Vec<UploadedFileVariant>>) -> Option<
    Seq<UploadedFileVariantView>,
> {
    match v {
        Some(v) => Some(v@.map_values(|x: UploadedFileVariant| x@)),
        None => None,
    }
}

/// A file attached to a riddle: where its bytes are stored, and how to show
/// them.
#[derive(Debug)]
pub struct UploadedFile {
    pub file_id: Oid,
    pub name: String,
    pub retina: Option<String>,
    pub mime_type: String,
    pub width: Option<u32>,
    pub height: Option<u32>,
    pub scale: Option<u32>,
    pub variants: Option<Vec<UploadedFileVariant>>,
}

/// An attached file as the rules see it.
pub struct UploadedFileView {
    pub file_id: Oid,
    pub name: Seq<char>,
    pub retina: Option<Seq<char>>,
    pub mime_type: Seq<char>,
    pub width: Option<u32>,
    pub height: Option<u32>,
    pub scale: Option<u32>,
    pub variants: Option<Seq<UploadedFileVariantView>>,
}

impl View for UploadedFile {
    type V = UploadedFileView;

    open spec fn view(&self) -> UploadedFileView {
        UploadedFileView {
            file_id: self.file_id,
            name: self.name@,
            retina: text_view(self.retina),
            mime_type: self.mime_type@,
            width: self.width,
            height: self.height,
            scale: self.scale,
            variants: variants_view(self.variants),
        }
    }
}

impl Clone for UploadedFile {
    fn clone(&self) -> (r: Self)
        ensures
            r@ == self@,
    {
        let variants = match &self.variants {
            Some(v) => {
                let w = v.clone();
                assert(w@.map_values(|x: UploadedFileVariant| x@) =~= v@.map_values(
                    |x: UploadedFileVariant| x@,
                ));
                Some(w)
            },
            None => None,
        };
        UploadedFile {
            file_id: self.file_id,
            name: self.name.clone(),
            retina: clone_text(&self.retina),
            mime_type: self.mime_type.clone(),
            width: self.width,
            height: self.height,
            scale: self.scale,
            variants,
        }
    }
}

/// The views of a list of files, in order.
pub open spec fn files_view(v: Option<Vec<UploadedFile>>) -> Option<Seq<UploadedFileView>> {
    match v {
        Some(v) => Some(v@.map_values(|x: UploadedFile| x@)),
        None => None,
    }
}

/// A riddle: what solving it is worth, what a wrong answer costs, the level
/// it grants, and its text.
#[derive(Debug)]
pub struct Riddle {
    pub id: Oid,
    pub difficulty: i32,
    pub deduction: Option<i32>,
    pub level: u32,
    pub files: Option<Vec<UploadedFile>>,
    pub ignore_case: Option<bool>,
    pub solution: String,
    pub debriefing: Option<String>,
    pub task: Option<String>,
    pub credits: Option<String>,
    pub script: Option<String>,
    pub external_password_input: bool,
}

/// A riddle as the rules see it.
pub struct RiddleView {
    pub id: Oid,
    pub difficulty: i32,
    pub deduction: Option<i32>,
    pub level: u32,
    pub files: Option<Seq<UploadedFileView>>,
    pub ignore_case: Option<bool>,
    pub solution: Seq<char>,
    pub debriefing: Option<Seq<char>>,
    pub task: Option<Seq<char>>,
    pub credits: Option<Seq<char>>,
    pub script: Option<Seq<char>>,
    pub external_password_input: bool,
}

impl View for Riddle {
    type V = RiddleView;

    open spec fn view(&self) -> RiddleView {
        RiddleView {
            id: self.id,
            difficulty: self.difficulty,
            deduction: self.deduction,
            level: self.level,
            files: files_view(self.files),
            ignore_case: self.ignore_case,
            solution: self.solution@,
            debriefing: text_view(self.debriefing),
            task: text_view(self.task),
            credits: text_view(self.credits),
            script: text_view(self.script),
            external_password_input: self.external_password_input,
        }
    }
}

impl Clone for Riddle {
    fn clone(&self) -> (r: Self)
        ensures
            r@ == self@,
    {
        let files = match &self.files {
            Some(v) => {
                let w = v.clone();
                assert(w@.map_values(|x: UploadedFile| x@) =~= v@.map_values(
                    |x: UploadedFile| x@,
                ));
                Some(w)
            },
            None => None,
        };
        Riddle {
            id: self.id,
            difficulty: self.difficulty,
            deduction: self.deduction,
            level: self.level,
            files,
            ignore_case: self.ignore_case,
            solution: self.solution.clone(),
            debriefing: clone_text(&self.debriefing),
            task: clone_text(&self.task),
            credits: clone_text(&self.credits),
            script: clone_text(&self.script),
            external_password_input: self.external_password_input,
        }
    }
}

impl RiddleView {
    /// Whether answers are compared without regard to case.
    pub open spec fn folds_case(self) -> bool {
        self.ignore_case == Some(true)
    }

    /// What a wrong answer costs: the riddle's own deduction where it has
    /// one, else half its difficulty, and one point at least.
    pub open spec fn penalty(self) -> int {
        match self.deduction {
            Some(d) => d as int,
            None => if self.difficulty >= 2 {
                self.difficulty as int / 2
            } else {
                1
            },
        }
    }
}

impl Riddle {
    /// Whether answers are compared without regard to case.
    pub fn folds_case(&self) -> (r: bool)
        ensures
            r == self@.folds_case(),
    {
        match self.ignore_case {
            Some(b) => b,
            None => false,
        }
    }

    /// What a wrong answer costs.
    pub fn penalty(&self) -> (r: i32)
        ensures
            r == self@.penalty(),
    {
        match self.deduction {
            Some(d) => d,
            None => if self.difficulty >= 2 {
                self.difficulty / 2
            } else {
                1
            },
        }
    }
}

/// One user's work on one riddle: when the riddle was first shown, and when
/// it was solved, if it was.
#[derive(Debug, Clone, Copy, PartialEq, Eq, Structural)]
pub struct RiddleAttempt {
    pub riddle_id: Oid,
    pub t0: Option<Timestamp>,
    pub t_solved: Option<Timestamp>,
}

/// The mark that a user has finished a game, and when.
#[derive(Debug, Clone, Copy, PartialEq, Eq, Structural)]
pub struct GameCompletion {
    pub game_id: Oid,
    pub timestamp: Timestamp,
}

/// The number that activates a new account.
pub type PinType = u32;

/// One security key that a user has registered: its identifier, how often it
/// has signed, and whether it verified its holder.
#[derive(Debug)]
pub struct WebauthnCredential {
    pub cred_id: Vec<u8>,
    pub counter: u32,
    pub verified: bool,
}

/// A security key as the rules see it.
pub struct WebauthnCredentialView {
    pub cred_id: Seq<u8>,
    pub counter: u32,
    pub verified: bool,
}

impl View for WebauthnCredential {
    type V = WebauthnCredentialView;

    open spec fn view(&self) -> WebauthnCredentialView {
        WebauthnCredentialView {
            cred_id: self.cred_id@,
            counter: self.counter,
            verified: self.verified,
        }
    }
}

impl Clone for WebauthnCredential {
    fn clone(&self) -> (r: Self)
        ensures
            r@ == self@,
    {
        WebauthnCredential {
            cred_id: self.cred_id.clone(),
            counter: self.counter,
            verified: self.verified,
        }
    }
}

/// The view of an optional byte string.
pub open spec fn bytes_view(o: Option<Vec<u8>>) -> Option<Seq<u8>> {
    match o {
        Some(v) => Some(v@),
        None => None,
    }
}

/// Copies an optional byte string.
pub fn clone_bytes(o: &Option<Vec<u8>>) -> (r: Option<Vec<u8>>)
    ensures
        bytes_view(r) == bytes_view(*o),
{
    match o {
        Some(v) => Some(v.clone()),
        None => None,
    }
}

/// What a user's security keys need between requests: the state of a
/// registration or a login that is under way, as the bytes it was stored in,
/// and the keys registered so far.
#[derive(Debug)]
pub struct WebauthnManagementData {
    pub registration_state: Option<Vec<u8>>,
    pub credentials: Vec<WebauthnCredential>,
    pub authentication_state: Option<Vec<u8>>,
}

/// What security keys need, as the rules see it.
pub struct WebauthnManagementDataView {
    pub registration_state: Option<Seq<u8>>,
    pub credentials: Seq<WebauthnCredentialView>,
    pub authentication_state: Option<Seq<u8>>,
}

impl View for WebauthnManagementData {
    type V = WebauthnManagementDataView;

    open spec fn view(&self) -> WebauthnManagementDataView {
        WebauthnManagementDataView {
            registration_state: bytes_view(self.registration_state),
            credentials: self.credentials@.map_values(|c: WebauthnCredential| c@),
            authentication_state: bytes_view(self.authentication_state),
        }
    }
}

impl Clone for WebauthnManagementData {
    fn clone(&self) -> (r: Self)
        ensures
            r@ == self@,
    {
        let credentials = self.credentials.clone();
        assert(credentials@.map_values(|c: WebauthnCredential| c@) =~= self.credentials@.map_values(
            |c: WebauthnCredential| c@,
        ));
        WebauthnManagementData {
            registration_state: clone_bytes(&self.registration_state),
            credentials,
            authentication_state: clone_bytes(&self.authentication_state),
        }
    }
}

impl WebauthnManagementData {
    /// No registration or login under way, and no key.
    pub fn new() -> (r: WebauthnManagementData)
        ensures
            r@ == (WebauthnManagementDataView {
                registration_state: None,
                credentials: Seq::empty(),
                authentication_state: None,
            }),
    {
        let r = WebauthnManagementData {
            registration_state: None,
            credentials: Vec::new(),
            authentication_state: None,
        };
        assert(r.credentials@.map_values(|c: WebauthnCredential| c@) =~= Seq::empty());
        r
    }
}

/// The views of a list of texts, in order.
pub open spec fn texts_view(v: Seq<String>) -> Seq<Seq<char>> {
    v.map_values(|s: String| s@)
}

/// A player: who they are, how they log in, where they stand, and what they
/// have solved.
#[derive(Debug)]
pub struct User {
    pub id: Oid,
    pub username: String,
    pub email: String,
    pub role: Role,
    pub hash: String,
    pub pin: PinType,
    pub activated: bool,
    pub created: Option<Timestamp>,
    pub registered: Option<Timestamp>,
    pub last_login: Option<Timestamp>,
    pub solved: Vec<RiddleAttempt>,
    pub current_riddle_attempt: Option<RiddleAttempt>,
    pub rooms_entered: Vec<Oid>,
    pub finished: Vec<GameCompletion>,
    pub level: u32,
    pub score: i32,
    pub in_room: Option<Oid>,
    pub awaiting_second_factor: bool,
    pub totp_key: Vec<u8>,
    pub recovery_keys: Vec<String>,
    pub webauthn: WebauthnManagementData,
}

/// A user as the rules see them.
pub struct UserView {
    pub id: Oid,
    pub username: Seq<char>,
    pub email: Seq<char>,
    pub role: Role,
    pub hash: Seq<char>,
    pub pin: PinType,
    pub activated: bool,
    pub created: Option<Timestamp>,
    pub registered: Option<Timestamp>,
    pub last_login: Option<Timestamp>,
    pub solved: Seq<RiddleAttempt>,
    pub current_riddle_attempt: Option<RiddleAttempt>,
    pub rooms_entered: Seq<Oid>,
    pub finished: Seq<GameCompletion>,
    pub level: u32,
    pub score: i32,
    pub in_room: Option<Oid>,
    pub awaiting_second_factor: bool,
    pub totp_key: Seq<u8>,
    pub recovery_keys: Seq<Seq<char>>,
    pub webauthn: WebauthnManagementDataView,
}

impl View for User {
    type V = UserView;

    open spec fn view(&self) -> UserView {
        UserView {
            id: self.id,
            username: self.username@,
            email: self.email@,
            role: self.role,
            hash: self.hash@,
            pin: self.pin,
            activated: self.activated,
            created: self.created,
            registered: self.registered,
            last_login: self.last_login,
            solved: self.solved@,
            current_riddle_attempt: self.current_riddle_attempt,
            rooms_entered: self.rooms_entered@,
            finished: self.finished@,
            level: self.level,
            score: self.score,
            in_room: self.in_room,
            awaiting_second_factor: self.awaiting_second_factor,
            totp_key: self.totp_key@,
            recovery_keys: texts_view(self.recovery_keys@),
            webauthn: self.webauthn@,
        }
    }
}

impl Clone for User {
    fn clone(&self) -> (r: Self)
        ensures
            r@ == self@,
    {
        let solved = self.solved.clone();
        let rooms_entered = self.rooms_entered.clone();
        let finished = self.finished.clone();
        let totp_key = self.totp_key.clone();
        let recovery_keys = self.recovery_keys.clone();
        assert(solved@ =~= self.solved@);
        assert(rooms_entered@ =~= self.rooms_entered@);
        assert(finished@ =~= self.finished@);
        assert(totp_key@ =~= self.totp_key@);
        assert(texts_view(recovery_keys@) =~= texts_view(self.recovery_keys@));
        User {
            id: self.id,
            username: self.username.clone(),
            email: self.email.clone(),
            role: self.role,
            hash: self.hash.clone(),
            pin: self.pin,
            activated: self.activated,
            created: self.created,
            registered: self.registered,
            last_login: self.last_login,
            solved,
            current_riddle_attempt: self.current_riddle_attempt,
            rooms_entered,
            finished,
            level: self.level,
            score: self.score,
            in_room: self.in_room,
            awaiting_second_factor: self.awaiting_second_factor,
            totp_key,
            recovery_keys,
            webauthn: self.webauthn.clone(),
        }
    }
}

impl UserView {
    /// Whether the solved history holds the riddle.
    pub open spec fn has_solved(self, riddle_id: Oid) -> bool {
        exists|i: int| 0 <= i < self.solved.len() && (#[trigger] self.solved[i]).riddle_id == riddle_id
    }

    /// Whether the user was shown the riddle and is working on it: the current
    /// attempt is for this riddle and carries the time of its first showing.
    pub open spec fn has_seen(self, riddle_id: Oid) -> bool {
        match self.current_riddle_attempt {
            Some(a) => a.riddle_id == riddle_id && a.t0 is Some,
            None => false,
        }
    }

    /// No riddle occurs twice in the solved history.
    pub open spec fn solved_once_each(self) -> bool {
        forall|i: int, j: int|
            0 <= i < j < self.solved.len() ==> (#[trigger] self.solved[i]).riddle_id != (
            #[trigger] self.solved[j]).riddle_id
    }

    /// No room occurs twice among the rooms entered.
    pub open spec fn rooms_entered_once_each(self) -> bool {
        self.rooms_entered.no_duplicates()
    }
}

/// A second proof of identity that a user can set up: a one-time password
/// or a security key.
#[derive(Debug, Clone, Copy, PartialEq, Eq, Structural)]
pub enum SecondFactor {
    Totp,
    Fido2,
}

impl SecondFactor {
    /// The name under which the factor is known.
    pub open spec fn name(self) -> Seq<char> {
        match self {
            SecondFactor::Totp => "TOTP"@,
            SecondFactor::Fido2 => "FIDO2"@,
        }
    }

    /// The factor of that name. A name that is none of a factor stands for
    /// the one-time password.
    pub open spec fn named(factor: Seq<char>) -> SecondFactor {
        if factor == "FIDO2"@ {
            SecondFactor::Fido2
        } else {
            SecondFactor::Totp
        }
    }

    /// The factor of that name, the one-time password where the name is
    /// unknown.
    pub fn from_str(factor: &str) -> (r: SecondFactor)
        ensures
            r == SecondFactor::named(factor@),
    {
        proof {
            reveal_strlit("TOTP");
            reveal_strlit("FIDO2");
            assert("TOTP"@.len() == 4 && "FIDO2"@.len() == 5);
        }
        if str_eq(factor, "TOTP") {
            SecondFactor::Totp
        } else if str_eq(factor, "FIDO2") {
            SecondFactor::Fido2
        } else {
            SecondFactor::Totp
        }
    }

    /// The name under which the factor is known.
    pub fn as_str(&self) -> (r: &'static str)
        ensures
            r@ == self.name(),
    {
        match self {
            SecondFactor::Totp => "TOTP",
            SecondFactor::Fido2 => "FIDO2",
        }
    }

    /// The name under which the factor is known.
    pub fn to_string(&self) -> (r: String)
        ensures
            r@ == self.name(),
    {
        String::from_str(self.as_str())
    }
}

/// A factor's own name names it.
pub proof fn lemma_second_factor_name_round_trip(f: SecondFactor)
    ensures
        SecondFactor::named(f.name()) == f,
{
    reveal_strlit("TOTP");
    reveal_strlit("FIDO2");
    assert("TOTP"@.len() == 4 && "FIDO2"@.len() == 5);
}

} // verus!
