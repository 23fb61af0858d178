//! The concrete credential schemes behind the provider dispatch.
//!
//! Each scheme answers the same four questions — authenticate, where to
//! log in, log in, log out — over the request content the host hands
//! over. The shared-secret scheme is self-contained. The two richer
//! schemes decide over state their host keeps current: the user list
//! read from configuration, and — for the protocol-exchange scheme,
//! whose wire traffic cannot happen here — the sessions and code
//! exchanges its protocol engine has already validated.

use vstd::prelude::*;
use crate::actor::ActorDef;
use crate::attributes::{Attributes, attrs_unique_keys};
use crate::authorizer::{Auth, LoggedInUser};
use crate::errors::AuthError;
use crate::host::fresh_session_token;
use crate::http::{HttpResponse, RequestInfo};
use crate::token::Token;

verus! {

/// The fixed system identity the shared-secret scheme authenticates.
pub open spec fn admin_token_name() -> Seq<char> {
    "admin-token"@
}

/// The fixed attribute mapping of the system identity: the `admin`
/// role.
pub open spec fn admin_token_attrs() -> Seq<(Seq<char>, Seq<char>)> {
    seq![("role"@, "admin"@)]
}

/// The identifier submitted with an identifier/password-hash
/// credential, if the request carries one.
pub open spec fn submitted_id(request: RequestInfo) -> Seq<char> {
    match request.credential {
        Some(Auth::IdAndPasswordHash { id, .. }) => id@,
        _ => Seq::empty(),
    }
}

/// The password hash submitted with an identifier/password-hash
/// credential, if the request carries one.
pub open spec fn submitted_hash(request: RequestInfo) -> Seq<char> {
    match request.credential {
        Some(Auth::IdAndPasswordHash { password_hash, .. }) => password_hash@,
        _ => Seq::empty(),
    }
}

/// The code submitted with an authorization-code credential, if the
/// request carries one.
pub open spec fn submitted_code(request: RequestInfo) -> Seq<char> {
    match request.credential {
        Some(Auth::AuthorizationCode { code, .. }) => code@,
        _ => Seq::empty(),
    }
}

/// The fixed identity of the shared-secret scheme, as a context.
fn admin_token_actor_def() -> (def: ActorDef)
    ensures
        def.name@ == admin_token_name(),
        def.attributes@ =~= admin_token_attrs(),
        def.auth_error is None,
        def.wf(),
{
    let mut attributes = Attributes::new();
    attributes.add(String::from_str("role"), String::from_str("admin"));
    ActorDef { name: String::from_str("admin-token"), attributes, auth_error: None }
}

//------------ AdminTokenAuthProvider ----------------------------------------

/// The original shared-secret scheme: one configured admin token, one
/// fixed system identity. Synchronous and self-contained — it inspects
/// only the request's own bearer token.
#[derive(Debug)]
pub struct AdminTokenAuthProvider {
    required_token: Token,
}

impl AdminTokenAuthProvider {
    /// The configured shared secret.
    pub closed spec fn spec_token(&self) -> Seq<char> {
        self.required_token@
    }

    /// The request carries the correct shared secret.
    pub open spec fn recognizes(&self, request: RequestInfo) -> bool {
        request.bearer_token matches Some(t) && t@ == self.spec_token()
    }

    /// The request carries a bearer token, but the wrong one.
    pub open spec fn rejects(&self, request: RequestInfo) -> bool {
        request.bearer_token matches Some(t) && t@ != self.spec_token()
    }

    pub fn new(required_token: Token) -> (provider: Self)
        ensures
            provider.spec_token() == required_token@,
    {
        AdminTokenAuthProvider { required_token }
    }

    /// Who the request is from, to this scheme: the system identity on
    /// the correct secret, nobody when no bearer token is present, and
    /// a credential error on a wrong secret.
    pub fn authenticate(&self, request: &RequestInfo) -> (result: Result<
        Option<ActorDef>,
        AuthError,
    >)
        ensures
            match result {
                Ok(Some(def)) => self.recognizes(*request) && def.name@ == admin_token_name()
                    && def.attributes@ =~= admin_token_attrs() && def.auth_error is None
                    && def.wf(),
                Ok(None) => request.bearer_token is None,
                Err(e) => self.rejects(*request) && e is AuthenticationError,
            },
    {
        match &request.bearer_token {
            None => Ok(None),
            Some(token) => {
                if token.matches(&self.required_token) {
                    Ok(Some(admin_token_actor_def()))
                } else {
                    Err(AuthError::AuthenticationError(String::from_str("invalid bearer token")))
                }
            },
        }
    }

    /// Where to direct an interactive client: the local login form.
    pub fn get_login_url(&self) -> (result: Result<HttpResponse, AuthError>)
        ensures
            result matches Ok(r) && r matches HttpResponse::Text(path) && path@ == "/login"@,
    {
        Ok(HttpResponse::text(String::from_str("/login")))
    }

    /// Log in with the shared secret itself: succeeds exactly on the
    /// correct bearer token, and the session token it hands back is
    /// that same secret.
    pub fn login(&self, request: &RequestInfo) -> (result: Result<LoggedInUser, AuthError>)
        ensures
            match result {
                Ok(user) => self.recognizes(*request) && user.id@ == admin_token_name()
                    && user.attributes@ =~= admin_token_attrs() && user.token@
                    == self.spec_token(),
                Err(e) => !self.recognizes(*request) && e is AuthenticationError,
            },
    {
        match self.authenticate(request)? {
            Some(def) => Ok(LoggedInUser {
                token: self.required_token.clone(),
                id: def.name,
                attributes: def.attributes,
            }),
            None => Err(AuthError::AuthenticationError(String::from_str("missing bearer token"))),
        }
    }

    /// There is no session to end; tell the client to drop the secret.
    pub fn logout(&self, request: &RequestInfo) -> (result: Result<HttpResponse, AuthError>)
        ensures
            result matches Ok(r) && r matches HttpResponse::Text(content) && content@
                == "please remove your credentials"@,
    {
        let _ = request;
        Ok(HttpResponse::text(String::from_str("please remove your credentials")))
    }
}

//------------ ConfigFileAuthProvider ----------------------------------------

/// One user known to the local-file scheme: an identifier, the hash of
/// the user's password, and the attributes the identity carries.
#[derive(Clone, Debug)]
pub struct UserDetails {
    pub id: String,
    pub password_hash: Token,
    pub attributes: Attributes,
}

/// Every user has a distinct, non-empty identifier and a well-formed
/// attribute mapping.
pub open spec fn users_wf(users: Seq<UserDetails>) -> bool {
    &&& forall|i: int, j: int|
        0 <= i < j < users.len() ==> (#[trigger] users[i]).id@ != (#[trigger] users[j]).id@
    &&& forall|i: int| 0 <= i < users.len() ==> (#[trigger] users[i]).id@.len() > 0
    &&& forall|i: int| 0 <= i < users.len() ==> attrs_unique_keys((#[trigger] users[i]).attributes@)
}

/// The local username/password-file scheme: users and their password
/// hashes read from configuration at startup.
#[derive(Debug)]
pub struct ConfigFileAuthProvider {
    users: Vec<UserDetails>,
}

impl ConfigFileAuthProvider {
    /// The configured users.
    pub closed spec fn spec_users(&self) -> Seq<UserDetails> {
        self.users@
    }

    pub open spec fn wf(&self) -> bool {
        users_wf(self.spec_users())
    }

    /// Some configured user has this identifier.
    pub open spec fn has_user(&self, id: Seq<char>) -> bool {
        exists|i: int| 0 <= i < self.spec_users().len() && (#[trigger] self.spec_users()[i]).id@
            == id
    }

    /// The position of the user with this identifier.
    pub open spec fn user_index(&self, id: Seq<char>) -> int {
        choose|i: int| 0 <= i < self.spec_users().len() && (#[trigger] self.spec_users()[i]).id@
            == id
    }

    /// The stored password hash of the user with this identifier.
    pub open spec fn spec_user_hash(&self, id: Seq<char>) -> Seq<char> {
        self.spec_users()[self.user_index(id)].password_hash@
    }

    /// The attributes of the user with this identifier.
    pub open spec fn spec_user_attrs(&self, id: Seq<char>) -> Seq<(Seq<char>, Seq<char>)> {
        self.spec_users()[self.user_index(id)].attributes@
    }

    /// The request submits an identifier/password-hash credential — the
    /// only credential this scheme understands.
    pub open spec fn presents(&self, request: RequestInfo) -> bool {
        request.credential matches Some(Auth::IdAndPasswordHash { .. })
    }

    /// The submitted identifier names a configured user and the
    /// submitted hash is that user's stored hash.
    pub open spec fn recognizes(&self, request: RequestInfo) -> bool {
        &&& self.presents(request)
        &&& self.has_user(submitted_id(request))
        &&& self.spec_user_hash(submitted_id(request)) == submitted_hash(request)
    }

    /// Build the scheme from the configured users. Fails at startup,
    /// and only there, when two users share an identifier or an
    /// identifier is empty or a user's attribute mapping repeats a key.
    pub fn new(users: Vec<UserDetails>) -> (result: Result<Self, AuthError>)
        ensures
            result is Ok <==> users_wf(users@),
            result matches Ok(provider) ==> provider.spec_users() == users@,
            result matches Err(e) ==> e is ConfigurationError,
    {
        let mut i: usize = 0;
        while i < users.len()
            invariant
                i <= users@.len(),
                forall|a: int, b: int|
                    0 <= a < b < i ==> (#[trigger] users@[a]).id@ != (#[trigger] users@[b]).id@,
                forall|a: int| 0 <= a < i ==> (#[trigger] users@[a]).id@.len() > 0,
                forall|a: int|
                    0 <= a < i ==> attrs_unique_keys((#[trigger] users@[a]).attributes@),
            decreases users@.len() - i,
        {
            if users[i].id.as_str().is_empty() {
                return Err(AuthError::ConfigurationError(String::from_str(
                    "a configured user has an empty identifier",
                )));
            }
            if !users[i].attributes.keys_unique() {
                return Err(AuthError::ConfigurationError(String::from_str(
                    "a configured user repeats an attribute key",
                )));
            }
            let mut j: usize = 0;
            while j < i
                invariant
                    j <= i < users@.len(),
                    forall|b: int| 0 <= b < j ==> (#[trigger] users@[b]).id@ != users@[i as int].id@,
                decreases i - j,
            {
                if users[j].id.eq(&users[i].id) {
                    return Err(AuthError::ConfigurationError(String::from_str(
                        "two configured users share an identifier",
                    )));
                }
                j += 1;
            }
            i += 1;
        }
        Ok(ConfigFileAuthProvider { users })
    }

    /// The position of the user with this identifier, by scanning.
    fn find_user(&self, id: &String) -> (found: Option<usize>)
        ensures
            match found {
                Some(i) => i < self.spec_users().len() && self.spec_users()[i as int].id@ == id@,
                None => !self.has_user(id@),
            },
    {
        let mut i: usize = 0;
        while i < self.users.len()
            invariant
                i <= self.spec_users().len(),
                forall|j: int| 0 <= j < i ==> (#[trigger] self.spec_users()[j]).id@ != id@,
            decreases self.spec_users().len() - i,
        {
            if self.users[i].id.eq(id) {
                return Some(i);
            }
            i += 1;
        }
        None
    }

    /// Who the request is from, to this scheme: the matched user on a
    /// correct identifier/hash pair, nobody when no such credential is
    /// present, and a credential error on a wrong pair.
    pub fn authenticate(&self, request: &RequestInfo) -> (result: Result<
        Option<ActorDef>,
        AuthError,
    >)
        requires
            self.wf(),
        ensures
            match result {
                Ok(Some(def)) => self.recognizes(*request) && def.name@ == submitted_id(*request)
                    && def.attributes@ == self.spec_user_attrs(submitted_id(*request))
                    && def.auth_error is None && def.wf(),
                Ok(None) => !self.presents(*request),
                Err(e) => self.presents(*request) && !self.recognizes(*request)
                    && e is AuthenticationError,
            },
    {
        match &request.credential {
            Some(Auth::IdAndPasswordHash { id, password_hash }) => {
                match self.find_user(id) {
                    Some(i) => {
                        proof {
                            let w = self.user_index(id@);
                            assert(self.spec_users()[w].id@ == id@);
                            assert(w == i as int);
                        }
                        if self.users[i].password_hash.matches(password_hash) {
                            Ok(Some(ActorDef {
                                name: id.clone(),
                                attributes: self.users[i].attributes.clone(),
                                auth_error: None,
                            }))
                        } else {
                            Err(AuthError::AuthenticationError(String::from_str(
                                "incorrect credentials",
                            )))
                        }
                    },
                    None => Err(AuthError::AuthenticationError(String::from_str("unknown user"))),
                }
            },
            _ => Ok(None),
        }
    }

    /// Where to direct an interactive client: the local login form.
    pub fn get_login_url(&self) -> (result: Result<HttpResponse, AuthError>)
        ensures
            result matches Ok(r) && r matches HttpResponse::Text(path) && path@ == "/login"@,
    {
        Ok(HttpResponse::text(String::from_str("/login")))
    }

    /// Log in with an identifier and password hash: succeeds exactly on
    /// a correct pair, handing back a freshly issued session token.
    pub fn login(&self, request: &RequestInfo) -> (result: Result<LoggedInUser, AuthError>)
        requires
            self.wf(),
        ensures
            match result {
                Ok(user) => self.recognizes(*request) && user.id@ == submitted_id(*request)
                    && user.attributes@ == self.spec_user_attrs(submitted_id(*request)),
                Err(e) => !self.recognizes(*request) && e is AuthenticationError,
            },
    {
        match self.authenticate(request)? {
            Some(def) => Ok(LoggedInUser {
                token: fresh_session_token(),
                id: def.name,
                attributes: def.attributes,
            }),
            None => Err(AuthError::AuthenticationError(String::from_str("missing credentials"))),
        }
    }

    /// Tell the client to return to the login form.
    pub fn logout(&self, request: &RequestInfo) -> (result: Result<HttpResponse, AuthError>)
        ensures
            result matches Ok(r) && r matches HttpResponse::Redirect(path) && path@ == "/login"@,
    {
        let _ = request;
        Ok(HttpResponse::redirect(String::from_str("/login")))
    }
}

//------------ OpenIDConnectAuthProvider -------------------------------------

/// An identity the protocol engine has validated with the external
/// identity service, reachable under a key: a session under its bearer
/// token, or a completed code exchange under its authorization code.
#[derive(Debug)]
pub struct ValidatedIdentity {
    pub key: Token,
    pub id: String,
    pub attributes: Attributes,
}

/// Every validated identity sits under a distinct key and carries a
/// well-formed attribute mapping.
pub open spec fn identities_wf(identities: Seq<ValidatedIdentity>) -> bool {
    &&& forall|i: int, j: int|
        0 <= i < j < identities.len() ==> (#[trigger] identities[i]).key@ != (
        #[trigger] identities[j]).key@
    &&& forall|i: int|
        0 <= i < identities.len() ==> attrs_unique_keys(
            (#[trigger] identities[i]).attributes@,
        )
}

/// Some identity sits under this key.
pub open spec fn identities_have(identities: Seq<ValidatedIdentity>, key: Seq<char>) -> bool {
    exists|i: int| 0 <= i < identities.len() && (#[trigger] identities[i]).key@ == key
}

/// The position of the identity under this key.
pub open spec fn identities_index(identities: Seq<ValidatedIdentity>, key: Seq<char>) -> int {
    choose|i: int| 0 <= i < identities.len() && (#[trigger] identities[i]).key@ == key
}

/// The protocol-exchange scheme. Its wire traffic — redirecting the
/// end user to the external identity service and exchanging codes and
/// tokens with it — is the host's, performed by its protocol engine
/// before this core is consulted. What this scheme decides over is the
/// engine's validated state: the sessions whose tokens it has accepted
/// and the authorization codes it has exchanged, together with whether
/// the service was reachable at all.
#[derive(Debug)]
pub struct OpenIDConnectAuthProvider {
    issuer_url: String,
    sessions: Vec<ValidatedIdentity>,
    exchanged: Vec<ValidatedIdentity>,
    available: bool,
}

impl OpenIDConnectAuthProvider {
    /// The external identity service's base location.
    pub closed spec fn spec_issuer_url(&self) -> Seq<char> {
        self.issuer_url@
    }

    /// The sessions the protocol engine has validated.
    pub closed spec fn spec_sessions(&self) -> Seq<ValidatedIdentity> {
        self.sessions@
    }

    /// The code exchanges the protocol engine has completed.
    pub closed spec fn spec_exchanged(&self) -> Seq<ValidatedIdentity> {
        self.exchanged@
    }

    /// Whether the external identity service was reachable.
    pub closed spec fn spec_available(&self) -> bool {
        self.available
    }

    pub open spec fn wf(&self) -> bool {
        identities_wf(self.spec_sessions()) && identities_wf(self.spec_exchanged())
    }

    /// The request's bearer token names a validated session.
    pub open spec fn recognizes(&self, request: RequestInfo) -> bool {
        request.bearer_token matches Some(t) && identities_have(self.spec_sessions(), t@)
    }

    /// The identity of the session the request's bearer token names.
    pub open spec fn spec_session_of(&self, request: RequestInfo) -> ValidatedIdentity {
        match request.bearer_token {
            Some(t) => self.spec_sessions()[identities_index(self.spec_sessions(), t@)],
            None => self.spec_sessions()[0],
        }
    }

    /// The request submits an authorization-code credential.
    pub open spec fn presents_code(&self, request: RequestInfo) -> bool {
        request.credential matches Some(Auth::AuthorizationCode { .. })
    }

    /// The submitted authorization code names a completed exchange.
    pub open spec fn code_recognized(&self, request: RequestInfo) -> bool {
        self.presents_code(request) && identities_have(
            self.spec_exchanged(),
            submitted_code(request),
        )
    }

    /// The identity of the exchange the submitted code names.
    pub open spec fn spec_grant_of(&self, request: RequestInfo) -> ValidatedIdentity {
        self.spec_exchanged()[identities_index(self.spec_exchanged(), submitted_code(request))]
    }

    /// Build the scheme from the protocol engine's validated state.
    /// Fails, before any request is answered, when two entries of a
    /// list share a key or an attribute mapping repeats a key.
    pub fn new(
        issuer_url: String,
        sessions: Vec<ValidatedIdentity>,
        exchanged: Vec<ValidatedIdentity>,
        available: bool,
    ) -> (result: Result<Self, AuthError>)
        ensures
            result is Ok <==> identities_wf(sessions@) && identities_wf(exchanged@),
            result matches Ok(provider) ==> provider.spec_issuer_url() == issuer_url@
                && provider.spec_sessions() == sessions@ && provider.spec_exchanged()
                == exchanged@ && provider.spec_available() == available,
            result matches Err(e) ==> e is ConfigurationError,
    {
        if !Self::check_identities(&sessions) || !Self::check_identities(&exchanged) {
            return Err(AuthError::ConfigurationError(String::from_str(
                "validated identities repeat a key",
            )));
        }
        Ok(OpenIDConnectAuthProvider { issuer_url, sessions, exchanged, available })
    }

    /// Whether the list keeps every key distinct and every attribute
    /// mapping well-formed, by scanning.
    fn check_identities(identities: &Vec<ValidatedIdentity>) -> (ok: bool)
        ensures
            ok == identities_wf(identities@),
    {
        let mut i: usize = 0;
        while i < identities.len()
            invariant
                i <= identities@.len(),
                forall|a: int, b: int|
                    0 <= a < b < i ==> (#[trigger] identities@[a]).key@ != (
                    #[trigger] identities@[b]).key@,
                forall|a: int|
                    0 <= a < i ==> attrs_unique_keys((#[trigger] identities@[a]).attributes@),
            decreases identities@.len() - i,
        {
            if !identities[i].attributes.keys_unique() {
                return false;
            }
            let mut j: usize = 0;
            while j < i
                invariant
                    j <= i < identities@.len(),
                    forall|b: int|
                        0 <= b < j ==> (#[trigger] identities@[b]).key@ != identities@[i as int].key@,
                decreases i - j,
            {
                if identities[j].key.matches(&identities[i].key) {
                    return false;
                }
                j += 1;
            }
            i += 1;
        }
        true
    }

    /// The position of the identity under this key, by scanning.
    fn find_identity(identities: &Vec<ValidatedIdentity>, key: &Token) -> (found: Option<usize>)
        ensures
            match found {
                Some(i) => i < identities@.len() && identities@[i as int].key@ == key@,
                None => !identities_have(identities@, key@),
            },
    {
        let mut i: usize = 0;
        while i < identities.len()
            invariant
                i <= identities@.len(),
                forall|j: int| 0 <= j < i ==> (#[trigger] identities@[j]).key@ != key@,
            decreases identities@.len() - i,
        {
            if identities[i].key.matches(key) {
                return Some(i);
            }
            i += 1;
        }
        None
    }

    /// Who the request is from, to this scheme: the session's identity
    /// on a validated bearer token, nobody when no bearer token is
    /// present, and otherwise a credential error — or, when the
    /// external service could not be reached to validate the session, a
    /// provider-unavailable error.
    pub fn authenticate(&self, request: &RequestInfo) -> (result: Result<
        Option<ActorDef>,
        AuthError,
    >)
        requires
            self.wf(),
        ensures
            match result {
                Ok(Some(def)) => self.recognizes(*request) && def.name@ == self.spec_session_of(
                    *request,
                ).id@ && def.attributes@ == self.spec_session_of(*request).attributes@
                    && def.auth_error is None && def.wf(),
                Ok(None) => request.bearer_token is None,
                Err(e) => request.bearer_token is Some && !self.recognizes(*request) && (if self
                    .spec_available() {
                    e is AuthenticationError
                } else {
                    e is ProviderUnavailable
                }),
            },
    {
        match &request.bearer_token {
            None => Ok(None),
            Some(token) => {
                match Self::find_identity(&self.sessions, token) {
                    Some(i) => {
                        proof {
                            let w = identities_index(self.spec_sessions(), token@);
                            assert(self.spec_sessions()[w].key@ == token@);
                            assert(w == i as int);
                        }
                        Ok(Some(ActorDef {
                            name: self.sessions[i].id.clone(),
                            attributes: self.sessions[i].attributes.clone(),
                            auth_error: None,
                        }))
                    },
                    None => {
                        if self.available {
                            Err(AuthError::AuthenticationError(String::from_str(
                                "session token not recognized",
                            )))
                        } else {
                            Err(AuthError::ProviderUnavailable(String::from_str(
                                "identity service unreachable",
                            )))
                        }
                    },
                }
            },
        }
    }

    /// Where to direct an interactive client: the external service's
    /// authorization endpoint.
    pub fn get_login_url(&self) -> (result: Result<HttpResponse, AuthError>)
        ensures
            result matches Ok(r) && r matches HttpResponse::Redirect(url) && url@
                == self.spec_issuer_url() + "/authorize"@,
    {
        Ok(HttpResponse::redirect(self.issuer_url.clone().concat("/authorize")))
    }

    /// Log in with an authorization code: succeeds exactly when the
    /// protocol engine has exchanged that code, handing back a freshly
    /// issued session token for the identity the exchange validated.
    pub fn login(&self, request: &RequestInfo) -> (result: Result<LoggedInUser, AuthError>)
        requires
            self.wf(),
        ensures
            match result {
                Ok(user) => self.code_recognized(*request) && user.id@ == self.spec_grant_of(
                    *request,
                ).id@ && user.attributes@ == self.spec_grant_of(*request).attributes@,
                Err(e) => !self.code_recognized(*request) && (if self.presents_code(*request)
                    && !self.spec_available() {
                    e is ProviderUnavailable
                } else {
                    e is AuthenticationError
                }),
            },
    {
        match &request.credential {
            Some(Auth::AuthorizationCode { code, .. }) => {
                match Self::find_identity(&self.exchanged, code) {
                    Some(i) => {
                        proof {
                            let w = identities_index(self.spec_exchanged(), code@);
                            assert(self.spec_exchanged()[w].key@ == code@);
                            assert(w == i as int);
                        }
                        Ok(LoggedInUser {
                            token: fresh_session_token(),
                            id: self.exchanged[i].id.clone(),
                            attributes: self.exchanged[i].attributes.clone(),
                        })
                    },
                    None => {
                        if self.available {
                            Err(AuthError::AuthenticationError(String::from_str(
                                "authorization code not recognized",
                            )))
                        } else {
                            Err(AuthError::ProviderUnavailable(String::from_str(
                                "identity service unreachable",
                            )))
                        }
                    },
                }
            },
            _ => Err(AuthError::AuthenticationError(String::from_str(
                "missing authorization code",
            ))),
        }
    }

    /// End the session at the external service too.
    pub fn logout(&self, request: &RequestInfo) -> (result: Result<HttpResponse, AuthError>)
        ensures
            result matches Ok(r) && r matches HttpResponse::Redirect(url) && url@
                == self.spec_issuer_url() + "/logout"@,
    {
        let _ = request;
        Ok(HttpResponse::redirect(self.issuer_url.clone().concat("/logout")))
    }
}

} // verus!
