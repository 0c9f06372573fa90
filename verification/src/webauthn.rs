//! Security keys: how the site presents itself to them, and what is decided
//! around the registration of one.

use crate::db::DB;
use crate::model::{User, UserView, WebauthnCredential, WebauthnCredentialView};
use vstd::prelude::*;
use vstd::string::StrSliceExecFns;

verus! {

/// Whether `url::Url::parse` reads a text as an address.
pub uninterp spec fn url_parses(text: Seq<char>) -> bool;

/// Calls `url::Url::parse`. Whether the text is read as an address depends
/// on the text alone.
#[verifier::external_body]
fn parses_as_url(text: &str) -> (r: bool)
    ensures
        r == url_parses(text@),
{
    url::Url::parse(text).is_ok()
}

/// Whether a key is to be part of the device or apart from it.
#[derive(Debug, Clone, Copy, PartialEq, Eq, Structural)]
pub enum AuthenticatorAttachment {
    Platform,
    CrossPlatform,
}

/// How much a key is asked to say of its make.
#[derive(Debug, Clone, Copy, PartialEq, Eq, Structural)]
pub enum AttestationConveyancePreference {
    NoAttestation,
    Indirect,
    Direct,
}

/// The algorithms with which a key may sign.
#[derive(Debug, Clone, Copy, PartialEq, Eq, Structural)]
pub enum COSEAlgorithm {
    ES256,
    ES384,
    ES512,
    RS256,
    RS384,
    RS512,
    PS256,
    PS384,
    PS512,
    EDDSA,
}

/// The algorithms that the site accepts, in the order of its preference.
pub open spec fn accepted_algorithms() -> Seq<COSEAlgorithm> {
    seq![
        COSEAlgorithm::ES256,
        COSEAlgorithm::ES384,
        COSEAlgorithm::ES512,
        COSEAlgorithm::RS256,
        COSEAlgorithm::RS384,
        COSEAlgorithm::RS512,
        COSEAlgorithm::PS256,
        COSEAlgorithm::PS384,
        COSEAlgorithm::PS512,
        COSEAlgorithm::EDDSA,
    ]
}

/// How the site presents itself to security keys.
#[derive(Debug)]
pub struct WebauthnVolatileConfig {
    pub rp_name: String,
    pub rp_id: String,
    pub rp_origin: String,
    pub attachment: Option<AuthenticatorAttachment>,
}

impl WebauthnVolatileConfig {
    /// The site of that name and identifier at that origin, which must be an
    /// address.
    pub fn new(
        rp_name: &str,
        rp_origin: &str,
        rp_id: &str,
        attachment: Option<AuthenticatorAttachment>,
    ) -> (r: WebauthnVolatileConfig)
        requires
            url_parses(rp_origin@),
        ensures
            r.rp_name@ == rp_name@,
            r.rp_origin@ == rp_origin@,
            r.rp_id@ == rp_id@,
            r.attachment == attachment,
    {
        WebauthnVolatileConfig {
            rp_name: rp_name.to_owned(),
            rp_id: rp_id.to_owned(),
            rp_origin: rp_origin.to_owned(),
            attachment,
        }
    }

    /// The site of that name and identifier at that origin, or `None` where
    /// the origin is no address.
    pub fn try_new(
        rp_name: &str,
        rp_origin: &str,
        rp_id: &str,
        attachment: Option<AuthenticatorAttachment>,
    ) -> (r: Option<WebauthnVolatileConfig>)
        ensures
            r is Some <==> url_parses(rp_origin@),
            r matches Some(c) ==> c.rp_name@ == rp_name@ && c.rp_origin@ == rp_origin@ && c.rp_id@
                == rp_id@ && c.attachment == attachment,
    {
        if parses_as_url(rp_origin) {
            Some(WebauthnVolatileConfig::new(rp_name, rp_origin, rp_id, attachment))
        } else {
            None
        }
    }

    /// The name of the site.
    pub fn get_relying_party_name(&self) -> (r: &str)
        ensures
            r@ == self.rp_name@,
    {
        self.rp_name.as_str()
    }

    /// The identifier of the site.
    pub fn get_relying_party_id(&self) -> (r: &str)
        ensures
            r@ == self.rp_id@,
    {
        self.rp_id.as_str()
    }

    /// The origin of the site.
    pub fn get_origin(&self) -> (r: &str)
        ensures
            r@ == self.rp_origin@,
    {
        self.rp_origin.as_str()
    }

    /// Which keys the site would like.
    pub fn get_authenticator_attachment(&self) -> (r: Option<AuthenticatorAttachment>)
        ensures
            r == self.attachment,
    {
        self.attachment
    }

    /// The site asks keys to say directly of what make they are.
    pub fn get_attestation_preference(&self) -> (r: AttestationConveyancePreference)
        ensures
            r == AttestationConveyancePreference::Direct,
    {
        AttestationConveyancePreference::Direct
    }

    /// The algorithms that the site accepts.
    pub fn get_credential_algorithms(&self) -> (r: Vec<COSEAlgorithm>)
        ensures
            r@ == accepted_algorithms(),
    {
        let mut algorithms: Vec<COSEAlgorithm> = Vec::new();
        algorithms.push(COSEAlgorithm::ES256);
        algorithms.push(COSEAlgorithm::ES384);
        algorithms.push(COSEAlgorithm::ES512);
        algorithms.push(COSEAlgorithm::RS256);
        algorithms.push(COSEAlgorithm::RS384);
        algorithms.push(COSEAlgorithm::RS512);
        algorithms.push(COSEAlgorithm::PS256);
        algorithms.push(COSEAlgorithm::PS384);
        algorithms.push(COSEAlgorithm::PS512);
        algorithms.push(COSEAlgorithm::EDDSA);
        assert(algorithms@ =~= accepted_algorithms());
        algorithms
    }

    /// The site accepts keys that were registered on one of its subdomains.
    pub fn allow_subdomains_origin(&self) -> (r: bool)
        ensures
            r,
    {
        true
    }
}

/// Why the registration of a security key fails.
#[derive(Debug, Clone, Copy, PartialEq, Eq, Structural)]
pub enum WebauthnFailure {
    /// The store knows no user of the name.
    UserNotPresent,
    /// No registration of the user is under way.
    ChallengeNotFound,
    /// The state of the registration could not be stored.
    ChallengePersistenceError,
}

/// What a key is challenged with when a user begins to register it: who the
/// user is, and which keys they have already.
#[derive(Debug)]
pub struct RegistrationChallenge {
    pub user_id: Vec<u8>,
    pub user_name: String,
    pub user_display_name: String,
    pub excluded: Option<Vec<Vec<u8>>>,
}

/// The identifiers of the keys that a user has, in order.
pub open spec fn credential_ids(credentials: Seq<WebauthnCredentialView>) -> Seq<Seq<u8>> {
    credentials.map_values(|c: WebauthnCredentialView| c.cred_id)
}

/// The keys that a user may not register once more: those that they have,
/// and none to speak of where they have none.
pub open spec fn excluded_credentials(user: UserView) -> Option<Seq<Seq<u8>>> {
    if user.webauthn.credentials.len() > 0 {
        Some(credential_ids(user.webauthn.credentials))
    } else {
        None
    }
}

/// The view of an optional list of byte strings.
pub open spec fn ids_view(o: Option<Vec<Vec<u8>>>) -> Option<Seq<Seq<u8>>> {
    match o {
        Some(v) => Some(v@.map_values(|id: Vec<u8>| id@)),
        None => None,
    }
}

/// Lists the keys that a user may not register once more.
pub fn list_excluded_credentials(user: &User) -> (r: Option<Vec<Vec<u8>>>)
    ensures
        ids_view(r) == excluded_credentials(user@),
{
    let credentials = &user.webauthn.credentials;
    assert(user@.webauthn.credentials.len() == credentials@.len());
    if credentials.len() == 0 {
        return None;
    }
    let mut ids: Vec<Vec<u8>> = Vec::new();
    let mut i: usize = 0;
    while i < credentials.len()
        invariant
            i <= credentials.len(),
            ids@.len() == i,
            forall|j: int| 0 <= j < i ==> (#[trigger] ids@[j])@ == credentials@[j].cred_id@,
        decreases credentials.len() - i,
    {
        ids.push(credentials[i].cred_id.clone());
        i += 1;
    }
    assert(ids@.map_values(|id: Vec<u8>| id@) =~= credential_ids(user@.webauthn.credentials));
    Some(ids)
}

/// Says with what a key is to be challenged when a user begins to register
/// it under a name: the user is known to the key by the bytes of the name,
/// and the keys that they have are excluded.
pub fn registration_challenge(user: &User, username: &String) -> (r: RegistrationChallenge)
    ensures
        r.user_id@ == vstd::utf8::encode_utf8(username@),
        r.user_name@ == username@,
        r.user_display_name@ == username@,
        ids_view(r.excluded) == excluded_credentials(user@),
{
    RegistrationChallenge {
        user_id: username.as_str().as_bytes_vec(),
        user_name: username.clone(),
        user_display_name: username.clone(),
        excluded: list_excluded_credentials(user),
    }
}

/// The keys of a user after a registration: with the new key where the
/// registration has yielded one, and as they were where it has not.
pub open spec fn credentials_after(
    credentials: Seq<WebauthnCredentialView>,
    registered: Option<WebauthnCredentialView>,
) -> Seq<WebauthnCredentialView> {
    match registered {
        Some(c) => credentials.push(c),
        None => credentials,
    }
}

/// The one who registers security keys for the site.
#[derive(Debug)]
pub struct WebauthnActor {
    pub config: WebauthnVolatileConfig,
}

impl WebauthnActor {
    /// The one who registers keys for the site that `config` presents.
    pub fn new(config: WebauthnVolatileConfig) -> (r: WebauthnActor)
        ensures
            r.config == config,
    {
        WebauthnActor { config }
    }

    /// Begins the registration of a key for the user of that name: says with
    /// what the key is to be challenged, or fails with `UserNotPresent`. The
    /// user is known to the key by the bytes of their name.
    pub fn challenge_register(&self, db: &DB, username: &String) -> (r: Result<
        RegistrationChallenge,
        WebauthnFailure,
    >)
        ensures
            match db@.user_named(username@) {
                None => r == Err::<RegistrationChallenge, WebauthnFailure>(
                    WebauthnFailure::UserNotPresent,
                ),
                Some(u) => r matches Ok(c) && c.user_id@ == vstd::utf8::encode_utf8(username@)
                    && c.user_name@ == username@ && c.user_display_name@ == username@
                    && ids_view(c.excluded) == excluded_credentials(db@.users[u]),
            },
    {
        let user = match db.get_user(username) {
            Ok(user) => user,
            Err(_) => {
                return Err(WebauthnFailure::UserNotPresent);
            },
        };
        Ok(registration_challenge(&user, username))
    }

    /// Finds what the end of a registration needs: the state of the
    /// registration that is under way for the user of that name, and the keys
    /// that they have. Fails with `UserNotPresent` or `ChallengeNotFound`.
    pub fn registration_under_way(&self, db: &DB, username: &String) -> (r: Result<
        (Vec<u8>, Vec<WebauthnCredential>),
        WebauthnFailure,
    >)
        ensures
            match db@.user_named(username@) {
                None => r matches Err(e) && e == WebauthnFailure::UserNotPresent,
                Some(u) => match db@.users[u].webauthn.registration_state {
                    None => r matches Err(e) && e == WebauthnFailure::ChallengeNotFound,
                    Some(state) => r matches Ok((rs, creds)) && rs@ == state && creds@.map_values(
                        |c: WebauthnCredential| c@,
                    ) == db@.users[u].webauthn.credentials,
                },
            },
    {
        let user = match db.get_user(username) {
            Ok(user) => user,
            Err(_) => {
                return Err(WebauthnFailure::UserNotPresent);
            },
        };
        let rs = match user.webauthn.registration_state {
            Some(rs) => rs,
            None => {
                return Err(WebauthnFailure::ChallengeNotFound);
            },
        };
        Ok((rs, user.webauthn.credentials))
    }

    /// Ends a registration: adds the key that the registration has yielded,
    /// if it has yielded one, to the keys of the user, and writes the keys to
    /// the store.
    pub fn register(
        &self,
        db: &mut DB,
        username: &String,
        credentials: Vec<WebauthnCredential>,
        registered: Option<WebauthnCredential>,
    ) -> (r: Result<(), WebauthnFailure>)
        ensures
            r is Ok,
            final(db)@ == match old(db)@.player_named(username@) {
                Some(i) => old(db)@.webauthn_set(
                    username@,
                    crate::model::WebauthnManagementDataView {
                        credentials: credentials_after(
                            credentials@.map_values(|c: WebauthnCredential| c@),
                            match registered {
                                Some(c) => Some(c@),
                                None => None,
                            },
                        ),
                        ..old(db)@.users[i].webauthn
                    },
                ),
                None => old(db)@,
            },
    {
        let mut ucreds = credentials;
        let ghost before = ucreds@.map_values(|c: WebauthnCredential| c@);
        match registered {
            Some(cred) => {
                let ghost shown = cred@;
                ucreds.push(cred);
                assert(ucreds@.map_values(|c: WebauthnCredential| c@) =~= before.push(shown));
            },
            None => {},
        }
        let _ = db.save_webauthn_registration(username, &ucreds);
        Ok(())
    }
}

} // verus!
