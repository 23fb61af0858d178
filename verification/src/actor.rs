//! The identity/permission context a request resolves to.

use vstd::prelude::*;
use crate::attributes::{Attributes, lemma_as_map_entry};
use crate::errors::AuthError;
use crate::permissions::Permission;
use crate::policy::AuthPolicy;

verus! {

/// The outcome of authentication: an identity, its attribute mapping,
/// and — for the anonymous context a failed resolution falls back to —
/// the error to surface once a permission is actually checked.
#[derive(Debug, PartialEq, Eq)]
pub struct ActorDef {
    pub name: String,
    pub attributes: Attributes,
    pub auth_error: Option<AuthError>,
}

impl ActorDef {
    /// The attribute mapping has unique keys.
    pub open spec fn wf(&self) -> bool {
        self.attributes.wf()
    }

    /// The context of a caller that presented nothing any scheme
    /// understood.
    pub fn anonymous() -> (def: ActorDef)
        ensures
            def.name@ == "anonymous"@,
            def.attributes@ =~= Seq::<(Seq<char>, Seq<char>)>::empty(),
            def.auth_error is None,
            def.wf(),
    {
        ActorDef { name: String::from_str("anonymous"), attributes: Attributes::new(), auth_error: None }
    }

    /// The context of an authenticated end user.
    pub fn user(id: String, attributes: Attributes, auth_error: Option<AuthError>) -> (def: ActorDef)
        ensures
            def == (ActorDef { name: id, attributes, auth_error }),
    {
        ActorDef { name: id, attributes, auth_error }
    }

    /// The same identity, now carrying an authentication error to be
    /// surfaced by a later permission check.
    pub fn with_auth_error(self, error: AuthError) -> (def: ActorDef)
        ensures
            def.name == self.name,
            def.attributes == self.attributes,
            def.auth_error == Some(error),
    {
        ActorDef { name: self.name, attributes: self.attributes, auth_error: Some(error) }
    }
}

/// An identity bound to the policy snapshot: the one context every
/// request resolves to, answering permission queries for the rest of
/// request handling.
pub struct Actor {
    pub def: ActorDef,
    pub policy: AuthPolicy,
}

impl Actor {
    pub open spec fn wf(&self) -> bool {
        self.def.wf()
    }

    pub fn new(def: ActorDef, policy: AuthPolicy) -> (actor: Actor)
        ensures
            actor.def == def,
            actor.policy == policy,
    {
        Actor { def, policy }
    }

    pub fn name(&self) -> (name: &String)
        ensures
            name == &self.def.name,
    {
        &self.def.name
    }

    /// Whether this context may perform `permission` on `resource`.
    ///
    /// A deferred authentication error is surfaced here, so that a
    /// failed resolution is observed through the normal permission-check
    /// path and never as a silently permissionless anonymous caller.
    /// Otherwise the policy snapshot decides, from the context's `role`
    /// attribute; the resource does not narrow the configured grants.
    pub fn is_allowed(&self, permission: Permission, resource: Option<&String>) -> (result: Result<
        bool,
        AuthError,
    >)
        requires
            self.wf(),
        ensures
            match result {
                Ok(allowed) => self.def.auth_error is None && allowed
                    == self.policy.spec_allows_attrs(self.def.attributes@, permission),
                Err(e) => self.def.auth_error == Some(e),
            },
    {
        let _ = resource;
        match &self.def.auth_error {
            Some(error) => Err(error.clone()),
            None => {
                let role_key = String::from_str("role");
                match self.def.attributes.get(&role_key) {
                    None => Ok(false),
                    Some(role) => {
                        let ghost i = choose|i: int|
                            0 <= i < self.def.attributes@.len() && #[trigger] self.def.attributes@[i]
                                == (role_key@, role@);
                        proof {
                            lemma_as_map_entry(self.def.attributes@, i);
                        }
                        Ok(self.policy.allows(role, permission))
                    },
                }
            },
        }
    }
}

} // verus!
