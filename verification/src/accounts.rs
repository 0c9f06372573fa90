//! What the store does for accounts: logins, passwords, roles, and second
//! factors.

use crate::auth::Role;
use crate::clock::unix_now;
use crate::db::{DB, DBView};
use crate::error::Error;
use crate::model::{
    Timestamp, User, UserView, WebauthnCredential, WebauthnCredentialView,
    WebauthnManagementDataView,
};
use crate::passwd::{Password, password_hash};
use crate::seqs::{lemma_first_index_is, lemma_first_index_none};
use crate::text::str_eq;
use vstd::prelude::*;

verus! {

impl DBView {
    /// The store after a login of the first activated user of that name was
    /// written: they have logged in at `now` and await no second factor.
    pub open spec fn logged_in(self, username: Seq<char>, now: Timestamp) -> DBView {
        match self.player_named(username) {
            Some(i) => self.with_user(
                i,
                UserView {
                    last_login: Some(now),
                    awaiting_second_factor: false,
                    ..self.users[i]
                },
            ),
            None => self,
        }
    }

    /// The store after it was written whether the player with that identifier
    /// awaits a second factor.
    pub open spec fn awaiting_set(self, id: crate::ident::Oid, awaiting: bool) -> DBView {
        match self.player(id) {
            Some(i) => self.with_user(
                i,
                UserView { awaiting_second_factor: awaiting, ..self.users[i] },
            ),
            None => self,
        }
    }

    /// The store after the hash of a new password was written to the first
    /// activated user of that name.
    pub open spec fn hash_set(self, username: Seq<char>, hash: Seq<char>) -> DBView {
        match self.player_named(username) {
            Some(i) => self.with_user(i, UserView { hash, ..self.users[i] }),
            None => self,
        }
    }

    /// The store after a role was written to the first activated user of that
    /// name.
    pub open spec fn role_set(self, username: Seq<char>, role: Role) -> DBView {
        match self.player_named(username) {
            Some(i) => self.with_user(i, UserView { role, ..self.users[i] }),
            None => self,
        }
    }

    /// The store after the secret for one-time passwords of the user at
    /// position `i`, if there is one, was written.
    pub open spec fn totp_key_set(self, i: Option<int>, key: Seq<u8>) -> DBView {
        match i {
            Some(i) => self.with_user(i, UserView { totp_key: key, ..self.users[i] }),
            None => self,
        }
    }

    /// The store after what the security keys of the first activated user of
    /// that name need was written.
    pub open spec fn webauthn_set(self, username: Seq<char>, data: WebauthnManagementDataView) -> DBView {
        match self.player_named(username) {
            Some(i) => self.with_user(i, UserView { webauthn: data, ..self.users[i] }),
            None => self,
        }
    }
}

/// The keys with the counter and the verdict of the keys that have the
/// identifier replaced.
pub open spec fn credentials_updated(
    credentials: Seq<WebauthnCredentialView>,
    cred_id: Seq<u8>,
    counter: u32,
    verified: bool,
) -> Seq<WebauthnCredentialView> {
    credentials.map_values(
        |c: WebauthnCredentialView|
            if c.cred_id == cred_id {
                WebauthnCredentialView { counter, verified, ..c }
            } else {
                c
            },
    )
}

/// Whether two byte strings hold the same bytes.
pub fn bytes_eq(a: &Vec<u8>, b: &Vec<u8>) -> (r: bool)
    ensures
        r == (a@ == b@),
{
    if a.len() != b.len() {
        return false;
    }
    let mut i: usize = 0;
    while i < a.len()
        invariant
            i <= a.len(),
            a.len() == b.len(),
            forall|j: int| 0 <= j < i ==> a@[j] == b@[j],
        decreases a.len() - i,
    {
        if a[i] != b[i] {
            return false;
        }
        i += 1;
    }
    assert(a@ =~= b@);
    true
}

impl DB {
    /// The position of the first activated user of that name.
    pub fn find_player_named(&self, username: &str) -> (r: Option<usize>)
        ensures
            match r {
                Some(i) => i < self.users.len() && self@.player_named(username@) == Some(i as int),
                None => self@.player_named(username@) is None,
            },
    {
        let ghost p = |u: UserView| u.username == username@ && u.activated;
        let mut i: usize = 0;
        while i < self.users.len()
            invariant
                i <= self.users.len(),
                p == (|u: UserView| u.username == username@ && u.activated),
                forall|j: int| 0 <= j < i ==> !p(#[trigger] self@.users[j]),
            decreases self.users.len() - i,
        {
            if self.users[i].activated && str_eq(self.users[i].username.as_str(), username) {
                proof {
                    lemma_first_index_is(self@.users, p, i as int);
                }
                return Some(i);
            }
            i += 1;
        }
        proof {
            lemma_first_index_none(self@.users, p);
        }
        None
    }

    /// Writes a login at `now` to the first activated user who has `user`'s
    /// name: the time, and that they await no second factor.
    pub fn login_user_at(&mut self, user: &User, now: Timestamp) -> (r: Result<(), Error>)
        ensures
            r is Ok,
            final(self)@ == old(self)@.logged_in(user@.username, now),
    {
        match self.find_player_named(user.username.as_str()) {
            Some(i) => {
                self.users[i].last_login = Some(now);
                self.users[i].awaiting_second_factor = false;
                assert(self@.users =~= old(self)@.users.update(
                    i as int,
                    UserView {
                        last_login: Some(now),
                        awaiting_second_factor: false,
                        ..old(self)@.users[i as int]
                    },
                ));
            },
            None => {},
        }
        Ok(())
    }

    /// Writes a login at the time that the clock shows.
    pub fn login_user(&mut self, user: &User) -> (r: Result<(), Error>)
        ensures
            r is Ok,
            exists|now: Timestamp| final(self)@ == #[trigger] old(self)@.logged_in(user@.username, now),
    {
        let now = unix_now();
        self.login_user_at(user, now)
    }

    /// Writes whether the player who has `user`'s identifier awaits a second
    /// factor.
    pub fn set_user_awaiting_2fa(&mut self, user: &User, awaiting: bool) -> (r: Result<(), Error>)
        ensures
            r is Ok,
            final(self)@ == old(self)@.awaiting_set(user.id, awaiting),
    {
        match self.find_player(&user.id) {
            Some(i) => {
                self.users[i].awaiting_second_factor = awaiting;
                assert(self@.users =~= old(self)@.users.update(
                    i as int,
                    UserView { awaiting_second_factor: awaiting, ..old(self)@.users[i as int] },
                ));
            },
            None => {},
        }
        Ok(())
    }

    /// Hashes a password with a salt and writes the hash to the first
    /// activated user of that name. Where the password cannot be hashed,
    /// nothing is written and the call fails with `HashingError`.
    pub fn set_user_password_with_salt(
        &mut self,
        username: &String,
        password: &String,
        salt: &Vec<u8>,
    ) -> (r: Result<(), Error>)
        ensures
            match password_hash(password@, salt@) {
                Some(h) => r is Ok && final(self)@ == old(self)@.hash_set(username@, h),
                None => (r matches Err(e) && e == Error::HashingError) && final(self)@ == old(
                    self,
                )@,
            },
    {
        let hash = match Password::hash_with_salt(password, salt) {
            Ok(hash) => hash,
            Err(e) => {
                return Err(e);
            },
        };
        match self.find_player_named(username.as_str()) {
            Some(i) => {
                self.users[i].hash = hash;
                assert(self@.users =~= old(self)@.users.update(
                    i as int,
                    UserView { hash: hash@, ..old(self)@.users[i as int] },
                ));
            },
            None => {},
        }
        Ok(())
    }

    /// Hashes a password with a salt drawn at random and writes the hash to
    /// the first activated user of that name.
    pub fn set_user_password(&mut self, username: &String, password: &String) -> (r: Result<
        (),
        Error,
    >)
        ensures
            exists|salt: Seq<u8>|
                salt.len() == 16 && match #[trigger] password_hash(password@, salt) {
                    Some(h) => r is Ok && final(self)@ == old(self)@.hash_set(username@, h),
                    None => (r matches Err(e) && e == Error::HashingError) && final(self)@ == old(
                        self,
                    )@,
                },
    {
        let salt = crate::random::random_bytes(16);
        self.set_user_password_with_salt(username, password, &salt)
    }

    /// The role of the first user of that name, or `UserNotFoundError`.
    pub fn get_user_role(&self, username: &String) -> (r: Result<Role, Error>)
        ensures
            match self@.user_named(username@) {
                Some(i) => r == Ok::<Role, Error>(self@.users[i].role),
                None => r matches Err(e) && e == Error::UserNotFoundError,
            },
    {
        match self.find_user(username.as_str()) {
            Some(i) => Ok(self.users[i].role),
            None => Err(Error::UserNotFoundError),
        }
    }

    /// Gives the first activated user of that name a role. Without such a
    /// user the call fails with `UserNotFoundError`, and where the user has
    /// the role already, with `CannotPromoteUserError`.
    pub fn promote_user(&mut self, username: &String, role: &Role) -> (r: Result<(), Error>)
        ensures
            match old(self)@.player_named(username@) {
                None => (r matches Err(e) && e == Error::UserNotFoundError) && final(self)@ == old(
                    self,
                )@,
                Some(i) => if old(self)@.users[i].role == *role {
                    (r matches Err(e) && e == Error::CannotPromoteUserError) && final(self)@
                        == old(self)@
                } else {
                    r is Ok && final(self)@ == old(self)@.role_set(username@, *role)
                },
            },
    {
        match self.find_player_named(username.as_str()) {
            Some(i) => {
                if self.users[i].role == *role {
                    return Err(Error::CannotPromoteUserError);
                }
                self.users[i].role = *role;
                assert(self@.users =~= old(self)@.users.update(
                    i as int,
                    UserView { role: *role, ..old(self)@.users[i as int] },
                ));
                Ok(())
            },
            None => Err(Error::UserNotFoundError),
        }
    }

    /// Whether some user has that name or that mail address.
    pub fn is_username_or_email_taken(&self, username: &String, email: &String) -> (r: Result<
        bool,
        Error,
    >)
        ensures
            r == Ok::<bool, Error>(self@.user_holding(username@, email@) is Some),
    {
        let ghost p = |u: UserView| u.username == username@ || u.email == email@;
        let mut i: usize = 0;
        while i < self.users.len()
            invariant
                i <= self.users.len(),
                p == (|u: UserView| u.username == username@ || u.email == email@),
                forall|j: int| 0 <= j < i ==> !p(#[trigger] self@.users[j]),
            decreases self.users.len() - i,
        {
            let u = &self.users[i];
            if str_eq(u.username.as_str(), username.as_str()) || str_eq(
                u.email.as_str(),
                email.as_str(),
            ) {
                proof {
                    lemma_first_index_is(self@.users, p, i as int);
                }
                return Ok(true);
            }
            i += 1;
        }
        proof {
            lemma_first_index_none(self@.users, p);
        }
        Ok(false)
    }

    /// Writes a secret for one-time passwords to the first user of that
    /// name, activated or not.
    pub fn set_totp_key(&mut self, username: &String, key: &Vec<u8>) -> (r: Result<(), Error>)
        ensures
            r is Ok,
            final(self)@ == old(self)@.totp_key_set(old(self)@.user_named(username@), key@),
    {
        match self.find_user(username.as_str()) {
            Some(i) => {
                self.users[i].totp_key = key.clone();
                assert(self@.users =~= old(self)@.users.update(
                    i as int,
                    UserView { totp_key: key@, ..old(self)@.users[i as int] },
                ));
            },
            None => {},
        }
        Ok(())
    }

    /// Takes the secret for one-time passwords from the first activated user
    /// of that name.
    pub fn unset_totp_key(&mut self, username: &String) -> (r: Result<(), Error>)
        ensures
            r is Ok,
            final(self)@ == old(self)@.totp_key_set(
                old(self)@.player_named(username@),
                Seq::empty(),
            ),
    {
        match self.find_player_named(username.as_str()) {
            Some(i) => {
                self.users[i].totp_key = Vec::new();
                assert(self@.users =~= old(self)@.users.update(
                    i as int,
                    UserView { totp_key: Seq::empty(), ..old(self)@.users[i as int] },
                ));
            },
            None => {},
        }
        Ok(())
    }

    /// Writes the state of a registration of a security key that is under
    /// way to the first activated user of that name.
    pub fn save_webauthn_registration_state(&mut self, username: &String, rs: &Vec<u8>) -> (r:
        Result<(), Error>)
        ensures
            r is Ok,
            final(self)@ == match old(self)@.player_named(username@) {
                Some(i) => old(self)@.webauthn_set(
                    username@,
                    WebauthnManagementDataView {
                        registration_state: Some(rs@),
                        ..old(self)@.users[i].webauthn
                    },
                ),
                None => old(self)@,
            },
    {
        match self.find_player_named(username.as_str()) {
            Some(i) => {
                self.users[i].webauthn.registration_state = Some(rs.clone());
                assert(self@.users =~= old(self)@.users.update(
                    i as int,
                    UserView {
                        webauthn: WebauthnManagementDataView {
                            registration_state: Some(rs@),
                            ..old(self)@.users[i as int].webauthn
                        },
                        ..old(self)@.users[i as int]
                    },
                ));
            },
            None => {},
        }
        Ok(())
    }

    /// Writes the state of a login with a security key that is under way to
    /// the first activated user of that name.
    pub fn save_webauthn_authentication_state(&mut self, username: &String, st: &Vec<u8>) -> (r:
        Result<(), Error>)
        ensures
            r is Ok,
            final(self)@ == match old(self)@.player_named(username@) {
                Some(i) => old(self)@.webauthn_set(
                    username@,
                    WebauthnManagementDataView {
                        authentication_state: Some(st@),
                        ..old(self)@.users[i].webauthn
                    },
                ),
                None => old(self)@,
            },
    {
        match self.find_player_named(username.as_str()) {
            Some(i) => {
                self.users[i].webauthn.authentication_state = Some(st.clone());
                assert(self@.users =~= old(self)@.users.update(
                    i as int,
                    UserView {
                        webauthn: WebauthnManagementDataView {
                            authentication_state: Some(st@),
                            ..old(self)@.users[i as int].webauthn
                        },
                        ..old(self)@.users[i as int]
                    },
                ));
            },
            None => {},
        }
        Ok(())
    }

    /// Writes the security keys of the first activated user of that name.
    pub fn save_webauthn_registration(&mut self, username: &String, creds: &Vec<WebauthnCredential>) -> (r:
        Result<(), Error>)
        ensures
            r is Ok,
            final(self)@ == match old(self)@.player_named(username@) {
                Some(i) => old(self)@.webauthn_set(
                    username@,
                    WebauthnManagementDataView {
                        credentials: creds@.map_values(|c: WebauthnCredential| c@),
                        ..old(self)@.users[i].webauthn
                    },
                ),
                None => old(self)@,
            },
    {
        match self.find_player_named(username.as_str()) {
            Some(i) => {
                let copy = creds.clone();
                assert(copy@.map_values(|c: WebauthnCredential| c@) =~= creds@.map_values(
                    |c: WebauthnCredential| c@,
                ));
                self.users[i].webauthn.credentials = copy;
                assert(self@.users =~= old(self)@.users.update(
                    i as int,
                    UserView {
                        webauthn: WebauthnManagementDataView {
                            credentials: creds@.map_values(|c: WebauthnCredential| c@),
                            ..old(self)@.users[i as int].webauthn
                        },
                        ..old(self)@.users[i as int]
                    },
                ));
            },
            None => {},
        }
        Ok(())
    }

    /// Writes the counter and the verdict of a login to the security keys
    /// with that identifier of the first activated user of that name.
    pub fn update_webauthn_cred(
        &mut self,
        username: &String,
        cred_id: &Vec<u8>,
        counter: u32,
        user_verified: bool,
    ) -> (r: Result<(), Error>)
        ensures
            r is Ok,
            final(self)@ == match old(self)@.player_named(username@) {
                Some(i) => old(self)@.webauthn_set(
                    username@,
                    WebauthnManagementDataView {
                        credentials: credentials_updated(
                            old(self)@.users[i].webauthn.credentials,
                            cred_id@,
                            counter,
                            user_verified,
                        ),
                        ..old(self)@.users[i].webauthn
                    },
                ),
                None => old(self)@,
            },
    {
        match self.find_player_named(username.as_str()) {
            Some(i) => {
                let ghost before = self@.users[i as int].webauthn.credentials;
                let mut k: usize = 0;
                while k < self.users[i].webauthn.credentials.len()
                    invariant
                        i < self.users.len(),
                        self.users@.len() == old(self).users@.len(),
                        k <= self.users[i as int].webauthn.credentials.len(),
                        self.users[i as int].webauthn.credentials@.len() == before.len(),
                        before == old(self)@.users[i as int].webauthn.credentials,
                        forall|j: int|
                            0 <= j < self.users@.len() && j != i ==> self.users@[j] == old(
                                self,
                            ).users@[j],
                        self.rooms == old(self).rooms,
                        self.riddles == old(self).riddles,
                        self.files == old(self).files,
                        self@.users[i as int] == (UserView {
                            webauthn: self@.users[i as int].webauthn,
                            ..old(self)@.users[i as int]
                        }),
                        self@.users[i as int].webauthn == (WebauthnManagementDataView {
                            credentials: self@.users[i as int].webauthn.credentials,
                            ..old(self)@.users[i as int].webauthn
                        }),
                        forall|j: int|
                            0 <= j < k ==> self@.users[i as int].webauthn.credentials[j]
                                == credentials_updated(before, cred_id@, counter, user_verified)[j],
                        forall|j: int|
                            k <= j < before.len() ==> self@.users[i as int].webauthn.credentials[j]
                                == before[j],
                    decreases before.len() - k,
                {
                    if bytes_eq(&self.users[i].webauthn.credentials[k].cred_id, cred_id) {
                        self.users[i].webauthn.credentials[k].counter = counter;
                        self.users[i].webauthn.credentials[k].verified = user_verified;
                    }
                    k += 1;
                }
                assert(self@.users[i as int].webauthn.credentials =~= credentials_updated(
                    before,
                    cred_id@,
                    counter,
                    user_verified,
                ));
                assert(self@.users =~= old(self)@.users.update(
                    i as int,
                    UserView {
                        webauthn: WebauthnManagementDataView {
                            credentials: credentials_updated(
                                before,
                                cred_id@,
                                counter,
                                user_verified,
                            ),
                            ..old(self)@.users[i as int].webauthn
                        },
                        ..old(self)@.users[i as int]
                    },
                ));
            },
            None => {},
        }
        Ok(())
    }
}

} // verus!
