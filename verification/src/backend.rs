//! The backend handler contract and its in-memory implementation.
//!
//! A backend answers two questions: "may this identity bind with this
//! secret" and "which stored users match this filter". The contract is
//! stated here once, over the configured privileged identity and the
//! stored rows; the in-memory handler proves it, and serves as the
//! reference model for any handler backed by a relational store.

use crate::compile::QueryExpr;
use crate::compile::spec_effective_filter;
use crate::compile::effective_filter;
use crate::eval::spec_eval;
use crate::eval::spec_fields_known;
use crate::eval::eval;
use crate::eval::fields_known;
use crate::model::AuthError;
use crate::model::BindRequest;
use crate::model::Configuration;
use crate::model::ListUsersRequest;
use crate::model::QueryError;
use crate::model::RequestFilter;
use crate::model::User;
use crate::model::passwords_match;
use crate::model::str_equal;
use vstd::prelude::*;

verus! {

/// One row of the user table: the entry it describes and the stored
/// credential, kept in the clear (a documented simplification).
pub struct StoredUser {
    pub user: User,
    pub password: String,
}

/// The credential of the first stored row whose `user_id` is `name`,
/// if any row has it.
pub open spec fn spec_stored_password(rows: Seq<StoredUser>, name: Seq<char>) -> Option<
    Seq<char>,
>
    decreases rows.len(),
{
    if rows.len() == 0 {
        Option::None
    } else if rows[0].user.user_id@ == name {
        Option::Some(rows[0].password@)
    } else {
        spec_stored_password(rows.drop_first(), name)
    }
}

/// Whether a bind attempt succeeds: the configured privileged identity
/// is checked against the configured secret and never against the
/// store; any other identity must match the credential of its stored
/// row exactly.
pub open spec fn spec_bind_ok(
    config: Configuration,
    rows: Seq<StoredUser>,
    request: BindRequest,
) -> bool {
    if request.name@ == config.ldap_user_dn@ {
        request.password@ == config.ldap_user_pass@
    } else {
        spec_stored_password(rows, request.name@) == Option::Some(request.password@)
    }
}

/// What a bind attempt returns. The failure carries the offered
/// identity and nothing else, so an unknown identity and a wrong
/// credential are indistinguishable to the caller.
pub open spec fn spec_bind_result(
    config: Configuration,
    rows: Seq<StoredUser>,
    request: BindRequest,
) -> Result<(), AuthError> {
    if spec_bind_ok(config, rows, request) {
        Result::Ok(())
    } else {
        Result::Err(AuthError { name: request.name })
    }
}

/// What a bind attempt does before any storage round trip: accept or
/// reject the configured privileged identity on the configured secret
/// alone, and send every other identity to the stored-credential
/// lookup.
#[derive(PartialEq, Eq, Debug)]
pub enum BindDecision {
    Accept,
    Reject,
    CheckStored,
}

/// The decision the configuration forces for a bind attempt.
pub open spec fn spec_bind_decision(config: Configuration, request: BindRequest) -> BindDecision {
    if request.name@ == config.ldap_user_dn@ {
        if request.password@ == config.ldap_user_pass@ {
            BindDecision::Accept
        } else {
            BindDecision::Reject
        }
    } else {
        BindDecision::CheckStored
    }
}

/// Decide a bind attempt against the configuration alone: the
/// privileged identity never reaches the store, every other identity
/// always does.
pub fn bind_decide(config: &Configuration, request: &BindRequest) -> (r: BindDecision)
    ensures
        r == spec_bind_decision(*config, *request),
{
    if str_equal(request.name.as_str(), config.ldap_user_dn.as_str()) {
        if str_equal(request.password.as_str(), config.ldap_user_pass.as_str()) {
            BindDecision::Accept
        } else {
            BindDecision::Reject
        }
    } else {
        BindDecision::CheckStored
    }
}

/// Decide a bind attempt from the outcome of the stored-credential
/// lookup: success exactly when a credential came back and equals the
/// offered one; a missing row and a mismatch yield the one opaque
/// failure, naming only the offered identity.
pub fn bind_with_stored(request: &BindRequest, stored: Option<String>) -> (r: Result<
    (),
    AuthError,
>)
    ensures
        r is Ok <==> (stored matches Some(p) && p@ == request.password@),
        r is Err ==> r->Err_0 == (AuthError { name: request.name }),
{
    match stored {
        Some(p) => {
            if passwords_match(request.password.as_str(), p.as_str()) {
                Ok(())
            } else {
                Err(AuthError { name: request.name.clone() })
            }
        },
        None => Err(AuthError { name: request.name.clone() }),
    }
}

/// Every stored entry, in storage order.
pub open spec fn spec_all_users(rows: Seq<StoredUser>) -> Seq<User>
    decreases rows.len(),
{
    if rows.len() == 0 {
        Seq::empty()
    } else {
        spec_all_users(rows.drop_last()).push(rows.last().user)
    }
}

/// The stored entries satisfying the predicate `e`, in storage order.
pub open spec fn spec_matching_users(rows: Seq<StoredUser>, e: QueryExpr) -> Seq<User>
    recommends
        spec_fields_known(e),
    decreases rows.len(),
{
    if rows.len() == 0 {
        Seq::empty()
    } else if spec_eval(e, rows.last().user) {
        spec_matching_users(rows.drop_last(), e).push(rows.last().user)
    } else {
        spec_matching_users(rows.drop_last(), e)
    }
}

/// What a directory query returns: the whole store when the request
/// puts no restriction on it, the matching rows for a well-formed
/// restriction, and a failure — never a partial sequence — when the
/// restriction names a column the user table does not have.
pub open spec fn spec_list_result(
    rows: Seq<StoredUser>,
    filters: Option<RequestFilter>,
) -> Result<Seq<User>, QueryError> {
    match spec_effective_filter(filters) {
        Option::None => Result::Ok(spec_all_users(rows)),
        Option::Some(e) => if spec_fields_known(e) {
            Result::Ok(spec_matching_users(rows, e))
        } else {
            Result::Err(QueryError::UnknownField)
        },
    }
}

/// Whether the executable result `r` denotes the mathematical result
/// `m` of a directory query.
pub open spec fn spec_list_matches(
    r: Result<Vec<User>, QueryError>,
    m: Result<Seq<User>, QueryError>,
) -> bool {
    match r {
        Result::Ok(v) => m is Ok && v@ == m->Ok_0,
        Result::Err(e) => m is Err && e == m->Err_0,
    }
}

/// The capability every concrete backend offers: authenticate a bind
/// request and list the entries matching a directory query. Both are
/// specified against the handler's configured privileged identity and
/// its stored rows, which neither operation may change.
pub trait BackendHandler: Sized {
    /// The privileged identity and secret the handler was configured
    /// with.
    spec fn spec_config(&self) -> Configuration;

    /// The stored rows the handler answers from, in storage order.
    spec fn spec_rows(&self) -> Seq<StoredUser>;

    /// Authenticate one bind request. Must not change the store, and
    /// must collapse "unknown identity" and "wrong credential" into one
    /// opaque failure naming only the offered identity.
    fn bind(&mut self, request: BindRequest) -> (r: Result<(), AuthError>)
        ensures
            final(self).spec_config() == old(self).spec_config(),
            final(self).spec_rows() == old(self).spec_rows(),
            r == spec_bind_result(old(self).spec_config(), old(self).spec_rows(), request),
    ;

    /// Answer one directory query: all entries matching the request's
    /// filter, in storage order, or a failure for the whole call.
    fn list_users(&mut self, request: ListUsersRequest) -> (r: Result<Vec<User>, QueryError>)
        ensures
            final(self).spec_config() == old(self).spec_config(),
            final(self).spec_rows() == old(self).spec_rows(),
            spec_list_matches(r, spec_list_result(old(self).spec_rows(), request.filters)),
    ;
}

/// Find the credential of the first row whose `user_id` is `name`.
fn lookup_password(rows: &Vec<StoredUser>, name: &String) -> (r: Option<String>)
    ensures
        r is Some <==> spec_stored_password(rows@, name@) is Some,
        r matches Some(p) ==> spec_stored_password(rows@, name@) == Option::Some(p@),
{
    let end = rows.len();
    let mut i: usize = 0;
    proof {
        assert(rows@.subrange(0, rows@.len() as int) =~= rows@);
    }
    while i < end
        invariant
            end == rows@.len(),
            i <= end,
            spec_stored_password(rows@.subrange(i as int, end as int), name@)
                == spec_stored_password(rows@, name@),
        decreases end - i,
    {
        let row = &rows[i];
        if str_equal(row.user.user_id.as_str(), name.as_str()) {
            return Some(row.password.clone());
        }
        proof {
            assert(rows@.subrange(i as int, end as int).drop_first() =~= rows@.subrange(
                i as int + 1,
                end as int,
            ));
        }
        i = i + 1;
    }
    None
}

/// Copy out every stored entry, in storage order.
fn project_all(rows: &Vec<StoredUser>) -> (r: Vec<User>)
    ensures
        r@ == spec_all_users(rows@),
{
    let mut out: Vec<User> = Vec::new();
    let mut i: usize = 0;
    while i < rows.len()
        invariant
            i <= rows@.len(),
            out@ == spec_all_users(rows@.subrange(0, i as int)),
        decreases rows@.len() - i,
    {
        out.push(rows[i].user.clone());
        proof {
            assert(rows@.subrange(0, i as int + 1).drop_last() =~= rows@.subrange(0, i as int));
        }
        i = i + 1;
    }
    proof {
        assert(rows@.subrange(0, rows@.len() as int) =~= rows@);
    }
    out
}

/// Copy out the stored entries satisfying `e`, in storage order.
fn select_matching(rows: &Vec<StoredUser>, e: &QueryExpr) -> (r: Vec<User>)
    requires
        spec_fields_known(*e),
    ensures
        r@ == spec_matching_users(rows@, *e),
{
    let mut out: Vec<User> = Vec::new();
    let mut i: usize = 0;
    while i < rows.len()
        invariant
            i <= rows@.len(),
            spec_fields_known(*e),
            out@ == spec_matching_users(rows@.subrange(0, i as int), *e),
        decreases rows@.len() - i,
    {
        let row = &rows[i];
        if eval(e, &row.user) {
            out.push(row.user.clone());
        }
        proof {
            assert(rows@.subrange(0, i as int + 1).drop_last() =~= rows@.subrange(0, i as int));
        }
        i = i + 1;
    }
    proof {
        assert(rows@.subrange(0, rows@.len() as int) =~= rows@);
    }
    out
}

/// The in-memory backend: the reference model of the handler contract.
/// It holds the configuration, the stored rows, and the instance-local
/// flag every successful bind sets (read by no operation here).
pub struct MemoryBackendHandler {
    pub config: Configuration,
    pub rows: Vec<StoredUser>,
    pub authenticated: bool,
}

impl MemoryBackendHandler {
    /// A handler over an empty store.
    pub fn new(config: Configuration) -> (r: Self)
        ensures
            r.config == config,
            r.rows@ == Seq::<StoredUser>::empty(),
            !r.authenticated,
    {
        MemoryBackendHandler { config, rows: Vec::new(), authenticated: false }
    }

    /// Append one row to the store.
    pub fn add_user(&mut self, user: User, password: String)
        ensures
            final(self).rows@ == old(self).rows@.push(StoredUser { user, password }),
            final(self).config == old(self).config,
            final(self).authenticated == old(self).authenticated,
    {
        self.rows.push(StoredUser { user, password });
    }
}

impl BackendHandler for MemoryBackendHandler {
    open spec fn spec_config(&self) -> Configuration {
        self.config
    }

    open spec fn spec_rows(&self) -> Seq<StoredUser> {
        self.rows@
    }

    fn bind(&mut self, request: BindRequest) -> (r: Result<(), AuthError>)
        ensures
            final(self).authenticated == (old(self).authenticated || r is Ok),
    {
        match bind_decide(&self.config, &request) {
            BindDecision::Accept => {
                self.authenticated = true;
                proof {
                    assert(spec_bind_result(old(self).config, old(self).rows@, request)
                        == Result::<(), AuthError>::Ok(()));
                }
                Ok(())
            },
            BindDecision::Reject => {
                proof {
                    assert(spec_bind_result(old(self).config, old(self).rows@, request)
                        == Result::<(), AuthError>::Err(AuthError { name: request.name }));
                }
                Err(AuthError { name: request.name })
            },
            BindDecision::CheckStored => {
                let stored = lookup_password(&self.rows, &request.name);
                let result = bind_with_stored(&request, stored);
                if result.is_ok() {
                    self.authenticated = true;
                }
                proof {
                    let m = spec_bind_result(old(self).config, old(self).rows@, request);
                    if result is Ok {
                        assert(m is Ok);
                        assert(result->Ok_0 == m->Ok_0);
                    } else {
                        assert(m is Err);
                        assert(result->Err_0 == m->Err_0);
                    }
                    assert(result == m);
                }
                result
            },
        }
    }

    fn list_users(&mut self, request: ListUsersRequest) -> (r: Result<Vec<User>, QueryError>)
        ensures
            *final(self) == *old(self),
    {
        match effective_filter(&request.filters) {
            None => Ok(project_all(&self.rows)),
            Some(e) => {
                if fields_known(&e) {
                    Ok(select_matching(&self.rows, &e))
                } else {
                    Err(QueryError::UnknownField)
                }
            },
        }
    }
}

/// Binding as the configured privileged identity is decided by the
/// configured secret alone: the outcome is the same whatever the store
/// holds, even when a row of the same name is stored.
pub proof fn lemma_privileged_bind_ignores_store(
    config: Configuration,
    rows1: Seq<StoredUser>,
    rows2: Seq<StoredUser>,
    request: BindRequest,
)
    requires
        request.name@ == config.ldap_user_dn@,
    ensures
        spec_bind_result(config, rows1, request) == spec_bind_result(config, rows2, request),
        request.password@ == config.ldap_user_pass@ ==> spec_bind_result(
            config,
            rows1,
            request,
        ) is Ok,
        request.password@ != config.ldap_user_pass@ ==> spec_bind_result(config, rows1, request)
            == Result::<(), AuthError>::Err(AuthError { name: request.name }),
{
}

/// An identity with no stored row fails exactly as one whose stored
/// credential does not match: the same error value, a function of the
/// offered identity alone. The caller cannot tell the two apart.
pub proof fn lemma_auth_failure_indistinguishable(
    config: Configuration,
    rows_without: Seq<StoredUser>,
    rows_with: Seq<StoredUser>,
    request: BindRequest,
)
    requires
        request.name@ != config.ldap_user_dn@,
        spec_stored_password(rows_without, request.name@) is None,
        spec_stored_password(rows_with, request.name@) matches Some(p) && p
            != request.password@,
    ensures
        spec_bind_result(config, rows_without, request) == spec_bind_result(
            config,
            rows_with,
            request,
        ),
        spec_bind_result(config, rows_without, request) == Result::<(), AuthError>::Err(
            AuthError { name: request.name },
        ),
{
}

/// A query with no filter, and one whose filter is the top-level empty
/// `And` or empty `Or` group, return every stored user.
pub proof fn lemma_trivial_filter_lists_all(
    rows: Seq<StoredUser>,
    empty_and: Vec<RequestFilter>,
    empty_or: Vec<RequestFilter>,
)
    requires
        empty_and@.len() == 0,
        empty_or@.len() == 0,
    ensures
        spec_list_result(rows, Option::None) == Result::<Seq<User>, QueryError>::Ok(
            spec_all_users(rows),
        ),
        spec_list_result(rows, Option::Some(RequestFilter::And(empty_and)))
            == Result::<Seq<User>, QueryError>::Ok(spec_all_users(rows)),
        spec_list_result(rows, Option::Some(RequestFilter::Or(empty_or)))
            == Result::<Seq<User>, QueryError>::Ok(spec_all_users(rows)),
{
}

/// A well-formed restriction that no stored row satisfies yields the
/// empty sequence — success, not an error.
pub proof fn lemma_no_match_is_empty(rows: Seq<StoredUser>, filter: RequestFilter)
    requires
        spec_effective_filter(Option::Some(filter)) matches Some(e) && spec_fields_known(e)
            && (forall|i: int| 0 <= i < rows.len() ==> !spec_eval(e, rows[i].user)),
    ensures
        spec_list_result(rows, Option::Some(filter)) == Result::<Seq<User>, QueryError>::Ok(
            Seq::<User>::empty(),
        ),
{
    let e = spec_effective_filter(Option::Some(filter))->Some_0;
    lemma_matching_users_empty(rows, e);
}

/// Helper: when no row satisfies `e`, the matching sequence is empty.
proof fn lemma_matching_users_empty(rows: Seq<StoredUser>, e: QueryExpr)
    requires
        forall|i: int| 0 <= i < rows.len() ==> !spec_eval(e, rows[i].user),
    ensures
        spec_matching_users(rows, e) == Seq::<User>::empty(),
    decreases rows.len(),
{
    if rows.len() > 0 {
        lemma_matching_users_empty(rows.drop_last(), e);
    }
    assert(spec_matching_users(rows, e) =~= Seq::<User>::empty());
}

} // verus!
