//! The data model: requests, filters, directory entries and errors.

use vstd::prelude::*;
use vstd::string::StrSliceExecFns;
use vstd::string::StringExecFns;

verus! {

/// One authentication attempt: the identity to bind as and the secret
/// offered for it. Transient; never stored.
#[derive(PartialEq, Eq, Debug)]
pub struct BindRequest {
    pub name: String,
    pub password: String,
}

/// A recursive, immutable boolean filter over equality predicates.
/// `And` and `Or` hold an ordered sequence of children; `Not` exactly
/// one; `Equality(field, value)` is the leaf predicate.
#[derive(PartialEq, Eq, Debug)]
pub enum RequestFilter {
    And(Vec<RequestFilter>),
    Or(Vec<RequestFilter>),
    Not(Box<RequestFilter>),
    Equality(String, String),
}

/// One directory query: when `filters` is `None` every entry matches.
#[derive(PartialEq, Eq, Debug)]
pub struct ListUsersRequest {
    pub filters: Option<RequestFilter>,
}

/// One directory entry, a read-only snapshot of a stored row. The
/// creation date is carried as seconds since the Unix epoch.
#[derive(PartialEq, Eq, Debug)]
pub struct User {
    pub user_id: String,
    pub email: String,
    pub display_name: String,
    pub first_name: String,
    pub last_name: String,
    pub creation_date: i64,
}

impl Clone for User {
    fn clone(&self) -> (r: Self)
        ensures
            r == *self,
    {
        User {
            user_id: self.user_id.clone(),
            email: self.email.clone(),
            display_name: self.display_name.clone(),
            first_name: self.first_name.clone(),
            last_name: self.last_name.clone(),
            creation_date: self.creation_date,
        }
    }
}

/// The statically configured privileged identity and its secret, an
/// authentication bypass that never consults the store. Read-only for
/// the lifetime of a handler.
pub struct Configuration {
    pub ldap_user_dn: String,
    pub ldap_user_pass: String,
}

impl Clone for Configuration {
    fn clone(&self) -> (r: Self)
        ensures
            r == *self,
    {
        Configuration {
            ldap_user_dn: self.ldap_user_dn.clone(),
            ldap_user_pass: self.ldap_user_pass.clone(),
        }
    }
}

/// The opaque authentication failure. It carries only the identity that
/// was offered, so an unknown identity and a wrong credential produce
/// structurally identical errors.
#[derive(PartialEq, Eq, Debug)]
pub struct AuthError {
    pub name: String,
}

/// The text of an authentication failure for the given identity.
pub open spec fn spec_auth_message(name: Seq<char>) -> Seq<char> {
    "Authentication error for \""@ + name + "\""@
}

impl AuthError {
    /// The rendered failure text; one shape whatever the cause, so the
    /// caller cannot tell an unknown identity from a wrong credential.
    pub fn message(&self) -> (r: String)
        ensures
            r@ == spec_auth_message(self.name@),
    {
        let mut s = "Authentication error for \"".to_owned();
        s.append(self.name.as_str());
        s.append("\"");
        s
    }
}

/// A failed directory query, opaque to the caller. The one failure the
/// library itself decides is a filter naming a column the user table
/// does not have.
#[derive(PartialEq, Eq, Debug)]
pub enum QueryError {
    UnknownField,
}

/// Exact comparison of two string slices.
pub(crate) fn str_equal(a: &str, b: &str) -> (r: bool)
    ensures
        r == (a@ == b@),
{
    let owned_a = a.to_owned();
    let owned_b = b.to_owned();
    owned_a == owned_b
}

/// Exact comparison of a stored credential with the offered one; the
/// store keeps credentials in the clear, a documented simplification.
pub fn passwords_match(encrypted_password: &str, clear_password: &str) -> (r: bool)
    ensures
        r == (encrypted_password@ == clear_password@),
{
    str_equal(encrypted_password, clear_password)
}

/// Whether a session is privileged: the authenticated subject's group
/// memberships, as asserted by its token, name the designated
/// administrative group.
pub fn privilege_from_groups(groups: &Vec<String>) -> (r: bool)
    ensures
        r == exists|i: int|
            0 <= i < groups@.len() && #[trigger] groups@[i]@ == "lldap_admin"@,
{
    let mut i: usize = 0;
    while i < groups.len()
        invariant
            i <= groups@.len(),
            forall|j: int| 0 <= j < i ==> #[trigger] groups@[j]@ != "lldap_admin"@,
        decreases groups@.len() - i,
    {
        if str_equal(groups[i].as_str(), "lldap_admin") {
            proof {
                assert(groups@[i as int]@ == "lldap_admin"@);
            }
            return true;
        }
        i = i + 1;
    }
    false
}

} // verus!
