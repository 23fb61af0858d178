//! End-to-end behavior of the authorizer: request resolution, login,
//! logout and discovery across the credential schemes.

use krill::actor::{Actor, ActorDef};
use krill::attributes::Attributes;
use krill::authorizer::{Auth, AuthProvider, Authorizer};
use krill::config::Config;
use krill::errors::AuthError;
use krill::http::{HttpResponse, RequestInfo};
use krill::permissions::Permission;
use krill::policy::PolicyRule;
use krill::providers::{
    AdminTokenAuthProvider, ConfigFileAuthProvider, OpenIDConnectAuthProvider, UserDetails,
    ValidatedIdentity,
};
use krill::token::Token;

fn test_config() -> Config {
    Config::test(&"./test-data".to_string(), false, false, false)
}

fn token(value: &str) -> Token {
    Token::new(value.to_string())
}

fn attrs(pairs: &[(&str, &str)]) -> Attributes {
    let mut attributes = Attributes::new();
    for (name, value) in pairs {
        assert!(attributes.add(name.to_string(), value.to_string()));
    }
    attributes
}

fn attr_pairs(attributes: &Attributes) -> Vec<(String, String)> {
    let mut pairs = Vec::new();
    for i in 0..attributes.len() {
        let (name, value) = attributes.entry(i);
        pairs.push((name.clone(), value.clone()));
    }
    pairs
}

fn token_authorizer() -> Authorizer {
    let config = test_config();
    let primary = AuthProvider::Token(AdminTokenAuthProvider::new(token("secret")));
    Authorizer::new(&config, primary).unwrap()
}

fn config_file_authorizer(users: Vec<UserDetails>, private: Vec<String>) -> Authorizer {
    let mut config = test_config();
    config.auth_private_attributes = private;
    let provider = ConfigFileAuthProvider::new(users).unwrap();
    Authorizer::new(&config, AuthProvider::ConfigFile(provider)).unwrap()
}

fn joe() -> UserDetails {
    UserDetails {
        id: "joe".to_string(),
        password_hash: token("5f4dcc3b"),
        attributes: attrs(&[("role", "readwrite"), ("email", "joe@example.com")]),
    }
}

fn joe_login_request() -> RequestInfo {
    RequestInfo::with_credential(Auth::id_and_password_hash("joe".to_string(), token("5f4dcc3b")))
}

// Token scheme active, the request carries the correct shared secret:
// an authenticated context bound to the fixed system identity.
#[test]
fn admin_token_scheme_authenticates_shared_secret() {
    let authorizer = token_authorizer();
    let request = RequestInfo::with_bearer(token("secret"));
    let actor = authorizer.actor_from_request(&request);
    assert_eq!(actor.name().as_str(), "admin-token");
    assert_eq!(
        attr_pairs(&actor.def.attributes),
        vec![("role".to_string(), "admin".to_string())]
    );
    assert!(actor.def.auth_error.is_none());
    assert_eq!(actor.is_allowed(Permission::CaAdmin, None), Ok(true));
    assert_eq!(actor.is_allowed(Permission::Login, None), Ok(true));
}

// A request with no credential at all, and no legacy provider
// configured, resolves to the anonymous context with no deferred error.
#[test]
fn no_credential_no_legacy_resolves_anonymous() {
    let authorizer = token_authorizer();
    assert!(!authorizer.has_legacy_provider());
    let actor = authorizer.actor_from_request(&RequestInfo::plain());
    assert_eq!(actor.name().as_str(), "anonymous");
    assert_eq!(actor.def.attributes.len(), 0);
    assert!(actor.def.auth_error.is_none());
    assert_eq!(actor.is_allowed(Permission::CaRead, None), Ok(false));
}

// A wrong shared secret is an authentication failure, deferred into the
// anonymous context and surfaced at the next permission check.
#[test]
fn wrong_shared_secret_defers_credential_error() {
    let authorizer = token_authorizer();
    let request = RequestInfo::with_bearer(token("not-the-secret"));
    let actor = authorizer.actor_from_request(&request);
    assert_eq!(actor.name().as_str(), "anonymous");
    let err = actor.is_allowed(Permission::CaRead, None).unwrap_err();
    assert!(err.is_authentication_error());
    assert!(!err.is_authorization_denied());
}

// With the token scheme primary the orchestrator allocates no legacy
// provider; with any other scheme it allocates exactly one.
#[test]
fn legacy_provider_exists_iff_primary_is_not_token_scheme() {
    assert!(!token_authorizer().has_legacy_provider());
    assert!(config_file_authorizer(vec![joe()], vec![]).has_legacy_provider());

    let config = test_config();
    let openid =
        OpenIDConnectAuthProvider::new("https://issuer.example.com".to_string(), vec![], vec![], true)
            .unwrap();
    let authorizer = Authorizer::new(&config, AuthProvider::OpenIdConnect(openid)).unwrap();
    assert!(authorizer.has_legacy_provider());
}

// When the legacy provider returns a positive result the primary
// provider is never consulted: even a primary that cannot reach its
// identity service does not disturb the legacy identity, and two
// authorizers differing only in their primary resolve identically.
#[test]
fn legacy_positive_shields_primary_provider() {
    let request = RequestInfo::with_bearer(token("secret"));

    let unreachable = OpenIDConnectAuthProvider::new(
        "https://issuer.example.com".to_string(),
        vec![],
        vec![],
        false,
    )
    .unwrap();
    let openid_authorizer =
        Authorizer::new(&test_config(), AuthProvider::OpenIdConnect(unreachable)).unwrap();
    let via_openid = openid_authorizer.actor_from_request(&request);

    let file_authorizer = config_file_authorizer(vec![joe()], vec![]);
    let via_file = file_authorizer.actor_from_request(&request);

    for actor in [&via_openid, &via_file] {
        assert_eq!(actor.name().as_str(), "admin-token");
        assert!(actor.def.auth_error.is_none());
    }
    assert_eq!(via_openid.def, via_file.def);
}

// Resolving an unchanged request against unchanged state twice yields
// contexts with identical identity and attributes.
#[test]
fn resolution_is_deterministic() {
    let authorizer = config_file_authorizer(vec![joe()], vec![]);
    for request in [
        RequestInfo::plain(),
        RequestInfo::with_bearer(token("secret")),
        RequestInfo::with_bearer(token("wrong")),
        joe_login_request(),
    ] {
        let first: Actor = authorizer.actor_from_request(&request);
        let second: Actor = authorizer.actor_from_request(&request);
        assert_eq!(first.def, second.def);
    }
}

// Multi-scheme active, no legacy header present, and the primary
// provider sees no credential it understands: the anonymous context,
// whose permission checks stay with the caller.
#[test]
fn multi_scheme_without_credential_resolves_anonymous() {
    let sessions = vec![ValidatedIdentity {
        key: token("session-1"),
        id: "alice".to_string(),
        attributes: attrs(&[("role", "readonly")]),
    }];
    let openid = OpenIDConnectAuthProvider::new(
        "https://issuer.example.com".to_string(),
        sessions,
        vec![],
        true,
    )
    .unwrap();
    let authorizer = Authorizer::new(&test_config(), AuthProvider::OpenIdConnect(openid)).unwrap();

    let actor = authorizer.actor_from_request(&RequestInfo::plain());
    assert_eq!(actor.name().as_str(), "anonymous");
    assert!(actor.def.auth_error.is_none());
    assert_eq!(actor.is_allowed(Permission::CaRead, None), Ok(false));
    assert_eq!(actor.is_allowed(Permission::Login, None), Ok(false));
}

// A validated session of the primary scheme binds that identity.
#[test]
fn primary_session_resolves_its_identity() {
    let sessions = vec![ValidatedIdentity {
        key: token("session-1"),
        id: "alice".to_string(),
        attributes: attrs(&[("role", "readonly")]),
    }];
    let openid = OpenIDConnectAuthProvider::new(
        "https://issuer.example.com".to_string(),
        sessions,
        vec![],
        true,
    )
    .unwrap();
    let authorizer = Authorizer::new(&test_config(), AuthProvider::OpenIdConnect(openid)).unwrap();

    let actor = authorizer.actor_from_request(&RequestInfo::with_bearer(token("session-1")));
    assert_eq!(actor.name().as_str(), "alice");
    assert_eq!(actor.is_allowed(Permission::CaRead, None), Ok(true));
    assert_eq!(actor.is_allowed(Permission::CaUpdate, None), Ok(false));
}

// Valid credentials whose identity lacks the login permission fail with
// an insufficient-rights error naming the identity — never reported as
// a credential error.
#[test]
fn login_without_permission_is_insufficient_rights() {
    let guest = UserDetails {
        id: "guest".to_string(),
        password_hash: token("d41d8cd9"),
        attributes: attrs(&[("role", "visitor")]),
    };
    let authorizer = config_file_authorizer(vec![guest], vec![]);
    let request = RequestInfo::with_credential(Auth::id_and_password_hash(
        "guest".to_string(),
        token("d41d8cd9"),
    ));
    let err = authorizer.login(&request).unwrap_err();
    assert!(err.is_authorization_denied());
    assert!(!err.is_authentication_error());
    match err {
        AuthError::AuthorizationDenied { permission, identity } => {
            assert_eq!(permission, Permission::Login);
            assert_eq!(identity, "guest");
        }
        other => panic!("expected an insufficient-rights error, got {:?}", other),
    }
}

// An invalid credential presented directly to login surfaces as a
// credential error — never as insufficient rights.
#[test]
fn login_with_wrong_password_is_credential_error() {
    let authorizer = config_file_authorizer(vec![joe()], vec![]);
    let request = RequestInfo::with_credential(Auth::id_and_password_hash(
        "joe".to_string(),
        token("wrong-hash"),
    ));
    let err = authorizer.login(&request).unwrap_err();
    assert!(err.is_authentication_error());
    assert!(!err.is_authorization_denied());
}

// A successful login removes every configured private attribute from
// the mapping handed back.
#[test]
fn login_removes_private_attributes() {
    let authorizer = config_file_authorizer(vec![joe()], vec!["role".to_string()]);
    let user = authorizer.login(&joe_login_request()).unwrap();
    assert_eq!(user.id, "joe");
    assert_eq!(
        attr_pairs(&user.attributes),
        vec![("email".to_string(), "joe@example.com".to_string())]
    );
}

// With an empty private set the whole mapping comes back.
#[test]
fn login_with_empty_private_set_keeps_all_attributes() {
    let authorizer = config_file_authorizer(vec![joe()], vec![]);
    let user = authorizer.login(&joe_login_request()).unwrap();
    assert_eq!(
        attr_pairs(&user.attributes),
        vec![
            ("role".to_string(), "readwrite".to_string()),
            ("email".to_string(), "joe@example.com".to_string()),
        ]
    );
}

// With a private set covering every key the mapping comes back empty.
#[test]
fn login_with_covering_private_set_removes_everything() {
    let private = vec!["role".to_string(), "email".to_string(), "spare".to_string()];
    let authorizer = config_file_authorizer(vec![joe()], private);
    let user = authorizer.login(&joe_login_request()).unwrap();
    assert_eq!(user.attributes.len(), 0);
}

// With the token scheme primary, the private set defaults to the fixed
// minimal set: the role attribute is withheld from the login result,
// and the session token is the shared secret itself.
#[test]
fn admin_token_login_uses_default_private_set() {
    let authorizer = token_authorizer();
    let user = authorizer.login(&RequestInfo::with_bearer(token("secret"))).unwrap();
    assert_eq!(user.id, "admin-token");
    assert_eq!(user.token, token("secret"));
    assert_eq!(user.attributes.len(), 0);
}

// Login and logout discovery delegate to the primary provider only.
#[test]
fn discovery_and_logout_delegate_to_primary() {
    let authorizer = token_authorizer();
    assert_eq!(
        authorizer.get_login_url(),
        Ok(HttpResponse::Text("/login".to_string()))
    );
    assert_eq!(
        authorizer.logout(&RequestInfo::plain()),
        Ok(HttpResponse::Text("please remove your credentials".to_string()))
    );

    let openid = OpenIDConnectAuthProvider::new(
        "https://issuer.example.com".to_string(),
        vec![],
        vec![],
        true,
    )
    .unwrap();
    let authorizer = Authorizer::new(&test_config(), AuthProvider::OpenIdConnect(openid)).unwrap();
    assert_eq!(
        authorizer.get_login_url(),
        Ok(HttpResponse::Redirect("https://issuer.example.com/authorize".to_string()))
    );
    assert_eq!(
        authorizer.logout(&RequestInfo::plain()),
        Ok(HttpResponse::Redirect("https://issuer.example.com/logout".to_string()))
    );
}

// A completed code exchange logs in with a fresh session token; an
// unknown code is a credential error; an unreachable identity service
// is a provider-unavailable error, distinct from both.
#[test]
fn openid_login_follows_exchange_state() {
    let exchanged = vec![ValidatedIdentity {
        key: token("code-42"),
        id: "alice".to_string(),
        attributes: attrs(&[("role", "readwrite")]),
    }];
    let openid = OpenIDConnectAuthProvider::new(
        "https://issuer.example.com".to_string(),
        vec![],
        exchanged,
        true,
    )
    .unwrap();
    let authorizer = Authorizer::new(&test_config(), AuthProvider::OpenIdConnect(openid)).unwrap();

    let code_request = |code: &str| {
        RequestInfo::with_credential(Auth::authorization_code(
            token(code),
            "state".to_string(),
            "nonce".to_string(),
            "csrf".to_string(),
        ))
    };

    let user = authorizer.login(&code_request("code-42")).unwrap();
    assert_eq!(user.id, "alice");

    let err = authorizer.login(&code_request("code-unknown")).unwrap_err();
    assert!(err.is_authentication_error());

    let unreachable = OpenIDConnectAuthProvider::new(
        "https://issuer.example.com".to_string(),
        vec![],
        vec![],
        false,
    )
    .unwrap();
    let authorizer =
        Authorizer::new(&test_config(), AuthProvider::OpenIdConnect(unreachable)).unwrap();
    let err = authorizer.login(&code_request("code-42")).unwrap_err();
    assert!(matches!(err, AuthError::ProviderUnavailable(_)));
}

// An unreachable identity service also surfaces, deferred, from request
// resolution: the anonymous context carries the provider-unavailable
// error into the next permission check.
#[test]
fn unreachable_identity_service_defers_provider_unavailable() {
    let unreachable = OpenIDConnectAuthProvider::new(
        "https://issuer.example.com".to_string(),
        vec![],
        vec![],
        false,
    )
    .unwrap();
    let authorizer =
        Authorizer::new(&test_config(), AuthProvider::OpenIdConnect(unreachable)).unwrap();
    // The bearer is not the admin secret, so the legacy fallback also
    // passes it on to the primary provider.
    let actor = authorizer.actor_from_request(&RequestInfo::with_bearer(token("session-9")));
    assert_eq!(actor.name().as_str(), "anonymous");
    let err = actor.is_allowed(Permission::CaRead, None).unwrap_err();
    assert!(matches!(err, AuthError::ProviderUnavailable(_)));
}

// An identity can be bound to the policy snapshot directly.
#[test]
fn actor_from_def_binds_policy() {
    let authorizer = token_authorizer();
    let def = ActorDef::user(
        "mary".to_string(),
        attrs(&[("role", "readonly")]),
        None,
    );
    let actor = authorizer.actor_from_def(def);
    assert_eq!(actor.name().as_str(), "mary");
    assert_eq!(actor.is_allowed(Permission::CaRead, None), Ok(true));
    assert_eq!(actor.is_allowed(Permission::CaUpdate, None), Ok(false));
}

// A policy that cannot be compiled fails construction, at startup and
// only there, as a policy-load error.
#[test]
fn bad_policy_rule_fails_construction() {
    let mut config = test_config();
    config.auth_policies =
        vec![PolicyRule { role: "".to_string(), permission: Permission::CaRead }];
    let primary = AuthProvider::Token(AdminTokenAuthProvider::new(token("secret")));
    let err = Authorizer::new(&config, primary).unwrap_err();
    assert!(matches!(err, AuthError::PolicyLoadError(_)));
}

// A configured extra grant reaches permission checks.
#[test]
fn configured_grant_reaches_permission_checks() {
    let mut config = test_config();
    config.auth_policies =
        vec![PolicyRule { role: "auditor".to_string(), permission: Permission::CaRead }];
    let primary = AuthProvider::Token(AdminTokenAuthProvider::new(token("secret")));
    let authorizer = Authorizer::new(&config, primary).unwrap();
    let def = ActorDef::user("eve".to_string(), attrs(&[("role", "auditor")]), None);
    let actor = authorizer.actor_from_def(def);
    assert_eq!(actor.is_allowed(Permission::CaRead, None), Ok(true));
    assert_eq!(actor.is_allowed(Permission::Login, None), Ok(false));
}
