//! The error taxonomy of the authorization core.

use vstd::prelude::*;
use crate::permissions::Permission;

verus! {

/// Why an authentication or authorization step failed.
///
/// The first two variants are request-time and are kept strictly apart:
/// a bad credential is never reported as missing rights, and missing
/// rights are never reported as a bad credential. The last three are
/// startup-time or transport-level conditions.
#[derive(Debug, PartialEq, Eq)]
pub enum AuthError {
    /// A credential was presented but is malformed or wrong.
    AuthenticationError(String),
    /// The identity is valid but lacks the named permission.
    AuthorizationDenied { permission: Permission, identity: String },
    /// The policy snapshot could not be built at startup.
    PolicyLoadError(String),
    /// An external identity service could not be reached.
    ProviderUnavailable(String),
    /// The scheme or attribute configuration is impossible.
    ConfigurationError(String),
}

impl AuthError {
    /// True of the variant raised when a valid identity lacks a
    /// permission; the distinction the login path must preserve.
    pub fn is_authorization_denied(&self) -> (denied: bool)
        ensures
            denied == (self is AuthorizationDenied),
    {
        match self {
            AuthError::AuthorizationDenied { .. } => true,
            _ => false,
        }
    }

    /// True of the variant raised on a malformed or wrong credential.
    pub fn is_authentication_error(&self) -> (bad_credential: bool)
        ensures
            bad_credential == (self is AuthenticationError),
    {
        match self {
            AuthError::AuthenticationError(_) => true,
            _ => false,
        }
    }
}

impl Clone for AuthError {
    fn clone(&self) -> (result: Self)
        ensures
            result == *self,
    {
        match self {
            AuthError::AuthenticationError(msg) => AuthError::AuthenticationError(msg.clone()),
            AuthError::AuthorizationDenied { permission, identity } => AuthError::AuthorizationDenied {
                permission: *permission,
                identity: identity.clone(),
            },
            AuthError::PolicyLoadError(msg) => AuthError::PolicyLoadError(msg.clone()),
            AuthError::ProviderUnavailable(msg) => AuthError::ProviderUnavailable(msg.clone()),
            AuthError::ConfigurationError(msg) => AuthError::ConfigurationError(msg.clone()),
        }
    }
}

} // verus!
