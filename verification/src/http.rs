//! What the authorization core reads from a request and hands back.
//!
//! Transport is out of scope here: the host extracts the parts of an
//! inbound request this core inspects — the bearer token of the
//! `Authorization` header and any submitted credential — and hands them
//! over as plain values.

use vstd::prelude::*;
use crate::authorizer::Auth;
use crate::token::Token;

verus! {

/// The authentication-relevant content of one inbound request.
pub struct RequestInfo {
    /// The bearer token of the request's `Authorization` header, if one
    /// was present.
    pub bearer_token: Option<Token>,
    /// A credential submitted to an interactive login endpoint, if any.
    pub credential: Option<Auth>,
}

impl RequestInfo {
    /// A request carrying nothing this core inspects.
    pub fn plain() -> (request: RequestInfo)
        ensures
            request.bearer_token is None,
            request.credential is None,
    {
        RequestInfo { bearer_token: None, credential: None }
    }

    /// A request whose `Authorization` header carries a bearer token.
    pub fn with_bearer(token: Token) -> (request: RequestInfo)
        ensures
            request.bearer_token == Some(token),
            request.credential is None,
    {
        RequestInfo { bearer_token: Some(token), credential: None }
    }

    /// A request submitting a credential to a login endpoint.
    pub fn with_credential(credential: Auth) -> (request: RequestInfo)
        ensures
            request.bearer_token is None,
            request.credential == Some(credential),
    {
        RequestInfo { bearer_token: None, credential: Some(credential) }
    }
}

/// What this core hands back for the interactive discovery and logout
/// endpoints; the host turns it into a transport-level response.
#[derive(Debug, PartialEq, Eq)]
pub enum HttpResponse {
    /// Plain text content.
    Text(String),
    /// A redirect to the given location.
    Redirect(String),
}

impl HttpResponse {
    pub fn text(content: String) -> (response: HttpResponse)
        ensures
            response == HttpResponse::Text(content),
    {
        HttpResponse::Text(content)
    }

    pub fn redirect(location: String) -> (response: HttpResponse)
        ensures
            response == HttpResponse::Redirect(location),
    {
        HttpResponse::Redirect(location)
    }
}

} // verus!
