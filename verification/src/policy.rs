//! The policy snapshot answering permission queries.
//!
//! A snapshot is a compiled set of grants, each giving one permission to
//! every identity holding a given role. It is built once at startup —
//! the built-in roles plus any configured extra grants — and never
//! changes afterwards, so it can be shared freely across concurrent
//! request resolutions.

use vstd::prelude::*;
use crate::attributes::{attrs_as_map, attrs_has_key};
use crate::errors::AuthError;
use crate::permissions::Permission;

verus! {

/// One configured grant: identities with `role` may perform
/// `permission` on any resource.
#[derive(Debug)]
pub struct PolicyRule {
    pub role: String,
    pub permission: Permission,
}

impl View for PolicyRule {
    type V = (Seq<char>, Permission);

    open spec fn view(&self) -> (Seq<char>, Permission) {
        (self.role@, self.permission)
    }
}

/// The views of a list of rules.
pub open spec fn rules_view(rules: Seq<PolicyRule>) -> Seq<(Seq<char>, Permission)> {
    Seq::new(rules.len(), |i: int| rules[i]@)
}

/// A rule grants to nobody when its role is the empty name; such a rule
/// cannot be compiled and fails policy construction.
pub open spec fn rules_loadable(rules: Seq<PolicyRule>) -> bool {
    forall|i: int| 0 <= i < rules.len() ==> (#[trigger] rules[i])@.0.len() > 0
}

/// The grants every snapshot starts from.
pub open spec fn builtin_grants() -> Seq<(Seq<char>, Permission)> {
    seq![
        ("admin"@, Permission::Login),
        ("admin"@, Permission::CaRead),
        ("admin"@, Permission::CaUpdate),
        ("admin"@, Permission::CaAdmin),
        ("admin"@, Permission::Testbed),
        ("readwrite"@, Permission::Login),
        ("readwrite"@, Permission::CaRead),
        ("readwrite"@, Permission::CaUpdate),
        ("readonly"@, Permission::Login),
        ("readonly"@, Permission::CaRead),
    ]
}

/// An immutable, shareable compiled representation of authorization
/// rules, evaluated per permission query.
#[derive(Debug)]
pub struct AuthPolicy {
    grants: Vec<PolicyRule>,
}

impl View for AuthPolicy {
    type V = Seq<(Seq<char>, Permission)>;

    closed spec fn view(&self) -> Seq<(Seq<char>, Permission)> {
        rules_view(self.grants@)
    }
}

/// Whether grants give `permission` to identities with `role`.
pub open spec fn grants_allow(
    grants: Seq<(Seq<char>, Permission)>,
    role: Seq<char>,
    permission: Permission,
) -> bool {
    exists|i: int| 0 <= i < grants.len() && grants[i] == (role, permission)
}

/// Whether grants give `permission` to the identity described by
/// `attrs`: its `role` attribute, if any, must be granted the
/// permission.
pub open spec fn grants_allow_attrs(
    grants: Seq<(Seq<char>, Permission)>,
    attrs: Seq<(Seq<char>, Seq<char>)>,
    permission: Permission,
) -> bool {
    attrs_has_key(attrs, "role"@) && grants_allow(grants, attrs_as_map(attrs)["role"@], permission)
}

impl AuthPolicy {
    /// Whether identities with `role` hold `permission`.
    pub open spec fn spec_allows(&self, role: Seq<char>, permission: Permission) -> bool {
        grants_allow(self@, role, permission)
    }

    /// Whether the identity described by `attrs` holds `permission`:
    /// its `role` attribute, if any, must be granted the permission.
    pub open spec fn spec_allows_attrs(
        &self,
        attrs: Seq<(Seq<char>, Seq<char>)>,
        permission: Permission,
    ) -> bool {
        grants_allow_attrs(self@, attrs, permission)
    }

    /// Compile a snapshot from the built-in grants and the configured
    /// extra rules. Fails at startup, and only there, when a rule
    /// grants to nobody.
    pub fn from_rules(extra: &Vec<PolicyRule>) -> (result: Result<AuthPolicy, AuthError>)
        ensures
            result is Ok <==> rules_loadable(extra@),
            result matches Ok(policy) ==> policy@ =~= builtin_grants() + rules_view(extra@),
            result matches Err(e) ==> e is PolicyLoadError,
    {
        let mut grants: Vec<PolicyRule> = Vec::new();
        Self::push_builtin(&mut grants);
        let mut i: usize = 0;
        while i < extra.len()
            invariant
                i <= extra@.len(),
                rules_view(grants@) =~= builtin_grants() + rules_view(extra@.take(i as int)),
                forall|j: int| 0 <= j < i ==> (#[trigger] extra@[j])@.0.len() > 0,
            decreases extra@.len() - i,
        {
            let rule = &extra[i];
            if rule.role.as_str().is_empty() {
                return Err(AuthError::PolicyLoadError(String::from_str(
                    "a policy rule names an empty role",
                )));
            }
            let ghost grants_before = grants@;
            grants.push(PolicyRule { role: rule.role.clone(), permission: rule.permission });
            proof {
                assert(rules_view(grants@) =~= rules_view(grants_before).push(extra@[i as int]@));
                assert(rules_view(extra@.take(i + 1)) =~= rules_view(extra@.take(i as int)).push(
                    extra@[i as int]@,
                ));
                assert(rules_view(grants@) =~= builtin_grants() + rules_view(extra@.take(i + 1)));
            }
            i += 1;
        }
        assert(extra@.take(extra@.len() as int) =~= extra@);
        Ok(AuthPolicy { grants })
    }

    /// Append the built-in grants.
    fn push_builtin(grants: &mut Vec<PolicyRule>)
        ensures
            rules_view(final(grants)@) =~= rules_view(old(grants)@) + builtin_grants(),
    {
        let ghost before = rules_view(grants@);
        grants.push(PolicyRule { role: String::from_str("admin"), permission: Permission::Login });
        grants.push(PolicyRule { role: String::from_str("admin"), permission: Permission::CaRead });
        grants.push(PolicyRule { role: String::from_str("admin"), permission: Permission::CaUpdate });
        grants.push(PolicyRule { role: String::from_str("admin"), permission: Permission::CaAdmin });
        grants.push(PolicyRule { role: String::from_str("admin"), permission: Permission::Testbed });
        grants.push(PolicyRule { role: String::from_str("readwrite"), permission: Permission::Login });
        grants.push(PolicyRule { role: String::from_str("readwrite"), permission: Permission::CaRead });
        grants.push(PolicyRule { role: String::from_str("readwrite"), permission: Permission::CaUpdate });
        grants.push(PolicyRule { role: String::from_str("readonly"), permission: Permission::Login });
        grants.push(PolicyRule { role: String::from_str("readonly"), permission: Permission::CaRead });
        assert(rules_view(grants@) =~= before + builtin_grants());
    }

    /// Whether identities with `role` hold `permission`, by scanning
    /// the grants.
    pub fn allows(&self, role: &String, permission: Permission) -> (allowed: bool)
        ensures
            allowed == self.spec_allows(role@, permission),
    {
        let mut i: usize = 0;
        while i < self.grants.len()
            invariant
                i <= self.grants@.len(),
                forall|j: int| 0 <= j < i ==> #[trigger] self@[j] != (role@, permission),
            decreases self.grants@.len() - i,
        {
            let rule = &self.grants[i];
            if rule.role.eq(role) && rule.permission == permission {
                assert(self@[i as int] == (role@, permission));
                return true;
            }
            i += 1;
        }
        false
    }
}

impl Clone for AuthPolicy {
    fn clone(&self) -> (result: Self)
        ensures
            result@ == self@,
    {
        let mut grants: Vec<PolicyRule> = Vec::new();
        let mut i: usize = 0;
        while i < self.grants.len()
            invariant
                i <= self.grants@.len(),
                grants@.len() == i,
                forall|j: int| 0 <= j < i ==> #[trigger] grants@[j]@ == self.grants@[j]@,
            decreases self.grants@.len() - i,
        {
            let rule = &self.grants[i];
            grants.push(PolicyRule { role: rule.role.clone(), permission: rule.permission });
            i += 1;
        }
        let result = AuthPolicy { grants };
        assert(result@ =~= self@);
        result
    }
}

} // verus!
