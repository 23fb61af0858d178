//! The named actions a policy can grant or deny.

use vstd::prelude::*;

verus! {

/// An action a caller may ask to perform. Every permission query names
/// one of these together with an optional resource.
#[derive(Clone, Copy, Debug, PartialEq, Eq, Structural)]
pub enum Permission {
    /// Establish an interactive login session.
    Login,
    /// Read certificate-authority state.
    CaRead,
    /// Change certificate-authority state.
    CaUpdate,
    /// Administer certificate authorities (create, delete, keys).
    CaAdmin,
    /// Use the built-in test bed.
    Testbed,
}

} // verus!
