//! Authentication and authorization core for a certificate-authority
//! daemon, together with the daemon's configuration model.
//!
//! Every inbound request is resolved by the `Authorizer` to exactly one
//! identity/permission context. A closed set of credential schemes
//! (`AuthProvider`) is selected once at startup; a legacy shared-secret
//! scheme is kept alongside any richer scheme for backward compatibility.
//! Authorization decisions are answered by a policy snapshot
//! (`AuthPolicy`) owned by the authorizer.

pub mod actor;
pub mod attributes;
pub mod authorizer;
pub mod config;
pub mod decimal;
pub mod errors;
pub(crate) mod host;
pub mod http;
pub mod permissions;
pub mod policy;
pub mod providers;
pub mod token;
