//! Authorization for the API.

use vstd::prelude::*;
use crate::actor::{Actor, ActorDef};
use crate::attributes::{
    Attributes, attrs_as_map, attrs_unique_keys, lemma_visible_attrs_is_set_difference, name_set,
    visible_attrs,
};
use crate::config::Config;
use crate::errors::AuthError;
use crate::http::{HttpResponse, RequestInfo};
use crate::permissions::Permission;
use crate::policy::{AuthPolicy, builtin_grants, grants_allow_attrs, rules_loadable, rules_view};
use crate::providers::{
    AdminTokenAuthProvider, ConfigFileAuthProvider, OpenIDConnectAuthProvider, admin_token_attrs,
    admin_token_name, submitted_id,
};
use crate::token::Token;

verus! {

/// A submitted credential, independent of the scheme that will examine
/// it. Pure data: carried to the active provider's `login`.
#[derive(Debug)]
pub enum Auth {
    /// A bearer token.
    Bearer(Token),
    /// An authorization-code exchange.
    AuthorizationCode { code: Token, state: String, nonce: String, csrf_token_hash: String },
    /// An identifier with a password hash.
    IdAndPasswordHash { id: String, password_hash: Token },
}

impl Auth {
    pub fn bearer(token: Token) -> (auth: Self)
        ensures
            auth == Auth::Bearer(token),
    {
        Auth::Bearer(token)
    }

    pub fn authorization_code(code: Token, state: String, nonce: String, csrf_token_hash: String) -> (auth: Self)
        ensures
            auth == (Auth::AuthorizationCode { code, state, nonce, csrf_token_hash }),
    {
        Auth::AuthorizationCode { code, state, nonce, csrf_token_hash }
    }

    pub fn id_and_password_hash(id: String, password_hash: Token) -> (auth: Self)
        ensures
            auth == (Auth::IdAndPasswordHash { id, password_hash }),
    {
        Auth::IdAndPasswordHash { id, password_hash }
    }
}

/// What a successful login hands back to the interactive client: the
/// session token to present from now on, the identity, and its
/// attribute mapping with every private key removed.
#[derive(Debug)]
pub struct LoggedInUser {
    pub token: Token,
    pub id: String,
    pub attributes: Attributes,
}

//------------ AuthProvider --------------------------------------------------

/// The closed set of credential schemes. One is selected at startup,
/// from configuration, and never changes; every call is routed by this
/// one tag match, never by inspecting the provider dynamically.
///
/// A provider answers authentication — who is this request from? —
/// interactive discovery — where does one log in? — and direct login
/// and logout.
#[derive(Debug)]
pub enum AuthProvider {
    Token(AdminTokenAuthProvider),
    ConfigFile(ConfigFileAuthProvider),
    OpenIdConnect(OpenIDConnectAuthProvider),
}

impl AuthProvider {
    pub open spec fn wf(&self) -> bool {
        match self {
            AuthProvider::Token(_) => true,
            AuthProvider::ConfigFile(provider) => provider.wf(),
            AuthProvider::OpenIdConnect(provider) => provider.wf(),
        }
    }

    /// Whether this is the shared-secret scheme itself.
    pub open spec fn is_admin_token(&self) -> bool {
        self is Token
    }

    /// The scheme recognizes the request's credential as a known
    /// identity.
    pub open spec fn spec_positive(&self, request: RequestInfo) -> bool {
        match self {
            AuthProvider::Token(provider) => provider.recognizes(request),
            AuthProvider::ConfigFile(provider) => provider.recognizes(request),
            AuthProvider::OpenIdConnect(provider) => provider.recognizes(request),
        }
    }

    /// The request carries nothing this scheme understands; not an
    /// error.
    pub open spec fn spec_no_credential(&self, request: RequestInfo) -> bool {
        match self {
            AuthProvider::Token(_) => request.bearer_token is None,
            AuthProvider::ConfigFile(provider) => !provider.presents(request),
            AuthProvider::OpenIdConnect(_) => request.bearer_token is None,
        }
    }

    /// The identity the scheme recognizes, when it does.
    pub open spec fn spec_identity_name(&self, request: RequestInfo) -> Seq<char> {
        match self {
            AuthProvider::Token(_) => admin_token_name(),
            AuthProvider::ConfigFile(_) => submitted_id(request),
            AuthProvider::OpenIdConnect(provider) => provider.spec_session_of(request).id@,
        }
    }

    /// The recognized identity's attributes, when it is recognized.
    pub open spec fn spec_identity_attrs(&self, request: RequestInfo) -> Seq<
        (Seq<char>, Seq<char>),
    > {
        match self {
            AuthProvider::Token(_) => admin_token_attrs(),
            AuthProvider::ConfigFile(provider) => provider.spec_user_attrs(submitted_id(request)),
            AuthProvider::OpenIdConnect(provider) => provider.spec_session_of(request).attributes@,
        }
    }

    /// The error `authenticate` surfaces has the right shape: a
    /// credential error, except that an unreachable external identity
    /// service surfaces as provider-unavailable.
    pub open spec fn spec_failure_matches(&self, request: RequestInfo, e: AuthError) -> bool {
        match self {
            AuthProvider::Token(_) => e is AuthenticationError,
            AuthProvider::ConfigFile(_) => e is AuthenticationError,
            AuthProvider::OpenIdConnect(provider) => if provider.spec_available() {
                e is AuthenticationError
            } else {
                e is ProviderUnavailable
            },
        }
    }

    /// The scheme accepts the request's submitted credential for an
    /// interactive login.
    pub open spec fn spec_login_ok(&self, request: RequestInfo) -> bool {
        match self {
            AuthProvider::Token(provider) => provider.recognizes(request),
            AuthProvider::ConfigFile(provider) => provider.recognizes(request),
            AuthProvider::OpenIdConnect(provider) => provider.code_recognized(request),
        }
    }

    /// The identity a successful login is for.
    pub open spec fn spec_login_id(&self, request: RequestInfo) -> Seq<char> {
        match self {
            AuthProvider::Token(_) => admin_token_name(),
            AuthProvider::ConfigFile(_) => submitted_id(request),
            AuthProvider::OpenIdConnect(provider) => provider.spec_grant_of(request).id@,
        }
    }

    /// The attributes of the identity a successful login is for.
    pub open spec fn spec_login_attrs(&self, request: RequestInfo) -> Seq<(Seq<char>, Seq<char>)> {
        match self {
            AuthProvider::Token(_) => admin_token_attrs(),
            AuthProvider::ConfigFile(provider) => provider.spec_user_attrs(submitted_id(request)),
            AuthProvider::OpenIdConnect(provider) => provider.spec_grant_of(request).attributes@,
        }
    }

    /// The error a failed login surfaces has the right shape.
    pub open spec fn spec_login_failure_matches(&self, request: RequestInfo, e: AuthError) -> bool {
        match self {
            AuthProvider::Token(_) => e is AuthenticationError,
            AuthProvider::ConfigFile(_) => e is AuthenticationError,
            AuthProvider::OpenIdConnect(provider) => if provider.presents_code(request)
                && !provider.spec_available() {
                e is ProviderUnavailable
            } else {
                e is AuthenticationError
            },
        }
    }

    /// The response interactive discovery hands back for this scheme.
    pub open spec fn spec_login_url_matches(&self, response: HttpResponse) -> bool {
        match self {
            AuthProvider::Token(_) => response matches HttpResponse::Text(path) && path@
                == "/login"@,
            AuthProvider::ConfigFile(_) => response matches HttpResponse::Text(path) && path@
                == "/login"@,
            AuthProvider::OpenIdConnect(provider) => response matches HttpResponse::Redirect(url)
                && url@ == provider.spec_issuer_url() + "/authorize"@,
        }
    }

    /// The response logout hands back for this scheme.
    pub open spec fn spec_logout_matches(&self, response: HttpResponse) -> bool {
        match self {
            AuthProvider::Token(_) => response matches HttpResponse::Text(content) && content@
                == "please remove your credentials"@,
            AuthProvider::ConfigFile(_) => response matches HttpResponse::Redirect(path) && path@
                == "/login"@,
            AuthProvider::OpenIdConnect(provider) => response matches HttpResponse::Redirect(url)
                && url@ == provider.spec_issuer_url() + "/logout"@,
        }
    }

    /// Who the request is from, to the active scheme.
    pub fn authenticate(&self, request: &RequestInfo) -> (result: Result<
        Option<ActorDef>,
        AuthError,
    >)
        requires
            self.wf(),
        ensures
            match result {
                Ok(Some(def)) => self.spec_positive(*request) && def.name@
                    == self.spec_identity_name(*request) && def.attributes@
                    == self.spec_identity_attrs(*request) && def.auth_error is None && def.wf(),
                Ok(None) => self.spec_no_credential(*request) && !self.spec_positive(*request),
                Err(e) => !self.spec_positive(*request) && !self.spec_no_credential(*request)
                    && self.spec_failure_matches(*request, e),
            },
    {
        match self {
            AuthProvider::Token(provider) => provider.authenticate(request),
            AuthProvider::ConfigFile(provider) => provider.authenticate(request),
            AuthProvider::OpenIdConnect(provider) => provider.authenticate(request),
        }
    }

    /// Where an interactive client logs in with the active scheme.
    pub fn get_login_url(&self) -> (result: Result<HttpResponse, AuthError>)
        ensures
            result matches Ok(response) && self.spec_login_url_matches(response),
    {
        match self {
            AuthProvider::Token(provider) => provider.get_login_url(),
            AuthProvider::ConfigFile(provider) => provider.get_login_url(),
            AuthProvider::OpenIdConnect(provider) => provider.get_login_url(),
        }
    }

    /// Validate a submitted credential with the active scheme.
    pub fn login(&self, request: &RequestInfo) -> (result: Result<LoggedInUser, AuthError>)
        requires
            self.wf(),
        ensures
            match result {
                Ok(user) => self.spec_login_ok(*request) && user.id@ == self.spec_login_id(
                    *request,
                ) && user.attributes@ == self.spec_login_attrs(*request),
                Err(e) => !self.spec_login_ok(*request) && self.spec_login_failure_matches(
                    *request,
                    e,
                ),
            },
    {
        match self {
            AuthProvider::Token(provider) => provider.login(request),
            AuthProvider::ConfigFile(provider) => provider.login(request),
            AuthProvider::OpenIdConnect(provider) => provider.login(request),
        }
    }

    /// End an interactive session with the active scheme.
    pub fn logout(&self, request: &RequestInfo) -> (result: Result<HttpResponse, AuthError>)
        ensures
            result matches Ok(response) && self.spec_logout_matches(response),
    {
        match self {
            AuthProvider::Token(provider) => provider.logout(request),
            AuthProvider::ConfigFile(provider) => provider.logout(request),
            AuthProvider::OpenIdConnect(provider) => provider.logout(request),
        }
    }
}

//------------ Authorizer ----------------------------------------------------

/// Checks authorization when the API is accessed: resolves every
/// inbound request to exactly one identity/permission context, and
/// mediates interactive login and logout.
///
/// Built once at startup; read-only afterwards, so arbitrarily many
/// concurrent resolutions may share it.
#[derive(Debug)]
pub struct Authorizer {
    primary_provider: AuthProvider,
    legacy_provider: Option<AdminTokenAuthProvider>,
    policy: AuthPolicy,
    private_attributes: Vec<String>,
}

impl Authorizer {
    /// The scheme selected by configuration.
    pub closed spec fn spec_primary(&self) -> AuthProvider {
        self.primary_provider
    }

    /// The shared-secret instance kept for clients that only speak the
    /// original scheme, present exactly when the primary scheme is a
    /// different one.
    pub closed spec fn spec_legacy(&self) -> Option<AdminTokenAuthProvider> {
        self.legacy_provider
    }

    /// The grants of the policy snapshot.
    pub closed spec fn spec_policy(&self) -> Seq<(Seq<char>, Permission)> {
        self.policy@
    }

    /// The attribute names withheld from interactive clients.
    pub closed spec fn spec_private_attributes(&self) -> Seq<Seq<char>> {
        self.private_attributes.deep_view()
    }

    /// The construction invariant: the primary scheme is well-formed,
    /// and a legacy provider exists exactly when the primary scheme is
    /// not itself the shared-secret scheme.
    pub open spec fn wf(&self) -> bool {
        &&& self.spec_primary().wf()
        &&& (self.spec_legacy() is Some <==> !self.spec_primary().is_admin_token())
    }

    /// Creates the authorizer around the already-selected primary
    /// provider.
    ///
    /// A legacy shared-secret provider is created alongside any primary
    /// scheme that is not itself the shared-secret scheme, so that
    /// clients which only understand the original scheme keep working.
    /// The policy snapshot is compiled from the configuration; its
    /// failure is fatal and confined to startup. The private attribute
    /// names are the configured ones, or the fixed minimal set when the
    /// shared-secret scheme — which has no configured users — is
    /// primary.
    pub fn new(config: &Config, primary_provider: AuthProvider) -> (result: Result<
        Authorizer,
        AuthError,
    >)
        requires
            primary_provider.wf(),
        ensures
            result is Ok <==> rules_loadable(config.auth_policies@),
            result matches Err(e) ==> e is PolicyLoadError,
            result matches Ok(authorizer) ==> {
                &&& authorizer.wf()
                &&& authorizer.spec_primary() == primary_provider
                &&& (authorizer.spec_legacy() is Some <==> !primary_provider.is_admin_token())
                &&& (authorizer.spec_legacy() matches Some(legacy) ==> legacy.spec_token()
                    == config.admin_token@)
                &&& authorizer.spec_policy() == builtin_grants() + rules_view(
                    config.auth_policies@,
                )
                &&& authorizer.spec_private_attributes() == if primary_provider.is_admin_token() {
                    seq!["role"@]
                } else {
                    config.auth_private_attributes.deep_view()
                }
            },
    {
        let legacy_provider = match &primary_provider {
            AuthProvider::Token(_) => None,
            _ => Some(AdminTokenAuthProvider::new(config.admin_token.clone())),
        };

        let private_attributes = match &primary_provider {
            AuthProvider::Token(_) => {
                let mut names: Vec<String> = Vec::new();
                names.push(String::from_str("role"));
                proof {
                    assert(names.deep_view() =~= seq!["role"@]);
                }
                names
            },
            _ => clone_names(&config.auth_private_attributes),
        };

        let policy = AuthPolicy::from_rules(&config.auth_policies)?;

        Ok(Authorizer { primary_provider, legacy_provider, policy, private_attributes })
    }

    /// Whether a legacy shared-secret provider was allocated: exactly
    /// when the primary scheme is not itself the shared-secret scheme.
    pub fn has_legacy_provider(&self) -> (present: bool)
        ensures
            present == (self.spec_legacy() is Some),
    {
        self.legacy_provider.is_some()
    }

    /// The legacy provider exists and recognizes the request.
    pub open spec fn spec_legacy_positive(&self, request: RequestInfo) -> bool {
        self.spec_legacy() matches Some(legacy) && legacy.recognizes(request)
    }

    /// Neither provider recognizes the request, and not for want of a
    /// credential: the primary provider failed on it, and the failure
    /// is deferred into the anonymous context.
    pub open spec fn spec_resolution_defers_error(&self, request: RequestInfo) -> bool {
        &&& !self.spec_legacy_positive(request)
        &&& !self.spec_primary().spec_positive(request)
        &&& !self.spec_primary().spec_no_credential(request)
    }

    /// The identity a request resolves to: the legacy scheme's fixed
    /// identity when it recognizes the request, else whoever the
    /// primary provider recognizes, else anonymous.
    pub open spec fn spec_resolved_name(&self, request: RequestInfo) -> Seq<char> {
        if self.spec_legacy_positive(request) {
            admin_token_name()
        } else if self.spec_primary().spec_positive(request) {
            self.spec_primary().spec_identity_name(request)
        } else {
            "anonymous"@
        }
    }

    /// The attributes of the identity a request resolves to.
    pub open spec fn spec_resolved_attrs(&self, request: RequestInfo) -> Seq<
        (Seq<char>, Seq<char>),
    > {
        if self.spec_legacy_positive(request) {
            admin_token_attrs()
        } else if self.spec_primary().spec_positive(request) {
            self.spec_primary().spec_identity_attrs(request)
        } else {
            Seq::empty()
        }
    }

    /// Resolve a request to exactly one identity/permission context.
    ///
    /// The legacy provider, if any, is consulted first; it is cheap and
    /// synchronous, and any outcome of it other than a positive match —
    /// no credential, a malformed or wrong legacy credential — falls
    /// through to the primary provider without surfacing. Whatever the
    /// primary provider then answers, a context comes back: a positive
    /// match binds that identity; no recognized credential binds the
    /// anonymous identity; a primary-provider error binds the anonymous
    /// identity carrying the error, so that the failure surfaces at the
    /// next permission check instead of vanishing.
    pub fn actor_from_request(&self, request: &RequestInfo) -> (actor: Actor)
        requires
            self.wf(),
        ensures
            actor.policy@ == self.spec_policy(),
            actor.wf(),
            actor.def.name@ == self.spec_resolved_name(*request),
            actor.def.attributes@ == self.spec_resolved_attrs(*request),
            (actor.def.auth_error is Some) == self.spec_resolution_defers_error(*request),
            actor.def.auth_error matches Some(e) ==> self.spec_primary().spec_failure_matches(
                *request,
                e,
            ),
    {
        let legacy_def: Option<ActorDef> = match &self.legacy_provider {
            Some(provider) => match provider.authenticate(request) {
                Ok(found) => found,
                Err(_) => None,
            },
            None => None,
        };

        let resolved: Result<Option<ActorDef>, AuthError> = match legacy_def {
            Some(def) => Ok(Some(def)),
            None => self.primary_provider.authenticate(request),
        };

        match resolved {
            Ok(Some(def)) => self.actor_from_def(def),
            Ok(None) => self.actor_from_def(ActorDef::anonymous()),
            Err(err) => self.actor_from_def(ActorDef::anonymous().with_auth_error(err)),
        }
    }

    /// Bind an identity to the policy snapshot.
    pub fn actor_from_def(&self, def: ActorDef) -> (actor: Actor)
        ensures
            actor.def == def,
            actor.policy@ == self.spec_policy(),
    {
        Actor::new(def, self.policy.clone())
    }

    /// Where an end user logs in with the configured provider; the
    /// legacy provider has no interactive login and is never consulted.
    pub fn get_login_url(&self) -> (result: Result<HttpResponse, AuthError>)
        ensures
            result matches Ok(response) && self.spec_primary().spec_login_url_matches(response),
    {
        self.primary_provider.get_login_url()
    }

    /// The policy grants the identity a successful login would be for
    /// the dedicated login permission.
    pub open spec fn spec_login_allowed(&self, request: RequestInfo) -> bool {
        grants_allow_attrs(
            self.spec_policy(),
            self.spec_primary().spec_login_attrs(request),
            Permission::Login,
        )
    }

    /// Establish a login session from a submitted credential.
    ///
    /// Credential validation is the primary provider's and its error
    /// comes through unchanged. A validated identity must additionally
    /// hold the login permission — checked here against the policy
    /// snapshot, with no resource and no legacy fallback — and its
    /// denial is an insufficient-rights error naming the permission and
    /// the identity, never a credential error. The attribute mapping
    /// handed back has every configured private attribute name removed.
    pub fn login(&self, request: &RequestInfo) -> (result: Result<LoggedInUser, AuthError>)
        requires
            self.wf(),
        ensures
            result is Ok <==> self.spec_primary().spec_login_ok(*request)
                && self.spec_login_allowed(*request),
            result matches Ok(user) ==> user.id@ == self.spec_primary().spec_login_id(*request)
                && user.attributes@ == visible_attrs(
                self.spec_primary().spec_login_attrs(*request),
                self.spec_private_attributes(),
            ) && user.attributes.wf(),
            result matches Err(e) ==> if self.spec_primary().spec_login_ok(*request) {
                e matches AuthError::AuthorizationDenied { permission, identity } && permission
                    == Permission::Login && identity@ == self.spec_primary().spec_login_id(
                    *request,
                )
            } else {
                self.spec_primary().spec_login_failure_matches(*request, e)
            },
    {
        let user = self.primary_provider.login(request)?;

        proof {
            lemma_login_attrs_unique(self.spec_primary(), *request);
        }

        // The credential passed, but logging in also takes the login
        // permission, which only the policy can answer.
        let actor_def = ActorDef::user(user.id.clone(), user.attributes.clone(), None);
        let actor = self.actor_from_def(actor_def);
        if !actor.is_allowed(Permission::Login, None)? {
            return Err(AuthError::AuthorizationDenied {
                permission: Permission::Login,
                identity: user.id,
            });
        }

        // Withhold the private attributes from the interactive client.
        let visible_attributes = user.attributes.filtered(&self.private_attributes);

        Ok(LoggedInUser { token: user.token, id: user.id, attributes: visible_attributes })
    }

    /// Where an end user logs out with the configured provider; the
    /// legacy provider is never consulted.
    pub fn logout(&self, request: &RequestInfo) -> (result: Result<HttpResponse, AuthError>)
        ensures
            result matches Ok(response) && self.spec_primary().spec_logout_matches(response),
    {
        self.primary_provider.logout(request)
    }
}

/// The attributes a successful login hands over have unique keys, for
/// every scheme: fixed for the shared-secret scheme, and demanded of
/// the configured users and validated identities by well-formedness.
proof fn lemma_login_attrs_unique(provider: AuthProvider, request: RequestInfo)
    requires
        provider.wf(),
        provider.spec_login_ok(request),
    ensures
        attrs_unique_keys(provider.spec_login_attrs(request)),
{
}

/// Clone a list of names.
fn clone_names(names: &Vec<String>) -> (cloned: Vec<String>)
    ensures
        cloned.deep_view() == names.deep_view(),
{
    let mut cloned: Vec<String> = Vec::new();
    let mut i: usize = 0;
    while i < names.len()
        invariant
            i <= names@.len(),
            cloned@.len() == i,
            forall|j: int| 0 <= j < i ==> (#[trigger] cloned@[j])@ == names@[j]@,
        decreases names@.len() - i,
    {
        cloned.push(names[i].clone());
        i += 1;
    }
    proof {
        assert forall|j: int| 0 <= j < names@.len() implies #[trigger] cloned.deep_view()[j]
            == names.deep_view()[j] by {
            assert(cloned.deep_view()[j] == cloned@[j]@);
            assert(names.deep_view()[j] == names@[j]@);
        }
        assert(cloned.deep_view() =~= names.deep_view());
    }
    cloned
}

/// What a login hands back is exactly set difference on the identity's
/// attribute mapping: the mapping of the result of a successful login
/// is the authenticated identity's mapping with every private attribute
/// name removed — for every mapping and every private set, the empty
/// one and one covering every key included.
pub proof fn lemma_login_attributes_are_set_difference(
    authorizer: Authorizer,
    request: RequestInfo,
    user: LoggedInUser,
)
    requires
        user.attributes@ == visible_attrs(
            authorizer.spec_primary().spec_login_attrs(request),
            authorizer.spec_private_attributes(),
        ),
    ensures
        attrs_as_map(user.attributes@) =~= attrs_as_map(
            authorizer.spec_primary().spec_login_attrs(request),
        ).remove_keys(name_set(authorizer.spec_private_attributes())),
{
    lemma_visible_attrs_is_set_difference(
        authorizer.spec_primary().spec_login_attrs(request),
        authorizer.spec_private_attributes(),
    );
}

/// For all requests carrying nothing the primary scheme understands,
/// with no legacy provider configured, resolution yields the anonymous
/// context, with no attributes and no deferred error.
pub proof fn lemma_no_credential_resolves_anonymous(authorizer: Authorizer, request: RequestInfo)
    requires
        authorizer.spec_legacy() is None,
        authorizer.spec_primary().spec_no_credential(request),
    ensures
        authorizer.spec_resolved_name(request) == "anonymous"@,
        authorizer.spec_resolved_attrs(request) =~= Seq::<(Seq<char>, Seq<char>)>::empty(),
        !authorizer.spec_resolution_defers_error(request),
{
}

/// When the legacy provider recognizes a request, resolution is settled
/// by the legacy outcome alone: two authorizers sharing that legacy
/// provider resolve the request to the same identity, whatever their
/// primary providers do — the primary provider is never consulted.
pub proof fn lemma_legacy_positive_shields_primary(
    first: Authorizer,
    second: Authorizer,
    request: RequestInfo,
)
    requires
        first.spec_legacy() == second.spec_legacy(),
        first.spec_legacy_positive(request),
    ensures
        second.spec_legacy_positive(request),
        first.spec_resolved_name(request) == second.spec_resolved_name(request),
        first.spec_resolved_attrs(request) == second.spec_resolved_attrs(request),
        first.spec_resolved_name(request) == admin_token_name(),
        !first.spec_resolution_defers_error(request),
        !second.spec_resolution_defers_error(request),
{
}

/// Resolving an unchanged request against unchanged server state twice
/// yields contexts with identical identity and attributes: what a
/// context binds is a function of the authorizer and the request alone.
pub proof fn lemma_resolution_deterministic(
    authorizer: Authorizer,
    request: RequestInfo,
    first: Actor,
    second: Actor,
)
    requires
        first.def.name@ == authorizer.spec_resolved_name(request),
        first.def.attributes@ == authorizer.spec_resolved_attrs(request),
        second.def.name@ == authorizer.spec_resolved_name(request),
        second.def.attributes@ == authorizer.spec_resolved_attrs(request),
    ensures
        first.def.name@ == second.def.name@,
        first.def.attributes@ == second.def.attributes@,
{
}

} // verus!
