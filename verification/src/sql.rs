//! Rendering of queries into SQL text through the `sea_query` builder.
//!
//! The decisions — what a filter compiles to, and whether a restriction
//! is attached at all — are verified in `compile`. The SQL text itself
//! is produced by `sea_query`, whose builder values are opaque here; it
//! is a function of the verified inputs alone, so each rendered query
//! is given a name (`spec_bind_sql`, `spec_list_sql`) that the public
//! builders' contracts tie to the verified decision. What the text
//! looks like — identifier quoting, literal escaping — is pinned by the
//! crate's tests, not restated here.

use crate::compile::QueryExpr;
use crate::compile::effective_filter;
use crate::compile::spec_effective_filter;
use crate::model::RequestFilter;
use vstd::prelude::*;

use sea_query::Alias;
use sea_query::ExprTrait;
use sea_query::MysqlQueryBuilder;
use sea_query::Query;
use sea_query::QueryStatementWriter;

verus! {

#[verifier::external_type_specification]
#[verifier::external_body]
pub struct ExSeaExpr(sea_query::Expr);

/// The SQL text of the credential lookup for one identity; a function
/// of the identity alone.
pub uninterp spec fn spec_bind_sql(name: Seq<char>) -> Seq<char>;

/// The SQL text of the directory query carrying the given restriction
/// (none: the bare projection); a function of the restriction alone.
pub uninterp spec fn spec_list_sql(restriction: Option<QueryExpr>) -> Seq<char>;

/// Relies on sea_query::Expr::value: the literal boolean expression.
#[verifier::external_body]
fn sea_value(b: bool) -> sea_query::Expr {
    sea_query::Expr::value(b)
}

/// Relies on sea_query::ExprTrait::and: the conjunction of the two
/// expressions.
#[verifier::external_body]
fn sea_and(a: sea_query::Expr, b: sea_query::Expr) -> sea_query::Expr {
    a.and(b)
}

/// Relies on sea_query::ExprTrait::or: the disjunction of the two
/// expressions.
#[verifier::external_body]
fn sea_or(a: sea_query::Expr, b: sea_query::Expr) -> sea_query::Expr {
    a.or(b)
}

/// Relies on sea_query::ExprTrait::not: the negation of the expression.
#[verifier::external_body]
fn sea_not(a: sea_query::Expr) -> sea_query::Expr {
    a.not()
}

/// Relies on sea_query::Expr::cust: the field name interpolated into
/// the query as a raw identifier, not escaped or parameterized.
#[verifier::external_body]
fn sea_cust(field: &String) -> sea_query::Expr {
    sea_query::Expr::cust(field.clone())
}

/// Relies on sea_query::ExprTrait::eq: the equality of the expression
/// with the string `value` taken as an SQL literal, quoted and escaped
/// at rendering.
#[verifier::external_body]
fn sea_eq(lhs: sea_query::Expr, value: &String) -> sea_query::Expr {
    lhs.eq(value.clone())
}

/// Hand a compiled predicate to the query builder, node by node; the
/// tree shape of the built expression mirrors the predicate exactly.
fn to_sea_expr(e: &QueryExpr) -> sea_query::Expr
    decreases *e,
{
    match e {
        QueryExpr::Value(b) => sea_value(*b),
        QueryExpr::And(a, b) => sea_and(to_sea_expr(a), to_sea_expr(b)),
        QueryExpr::Or(a, b) => sea_or(to_sea_expr(a), to_sea_expr(b)),
        QueryExpr::Not(a) => sea_not(to_sea_expr(a)),
        QueryExpr::Equality(field, value) => sea_eq(sea_cust(field), value),
    }
}

/// Relies on sea_query's SELECT builder and MySQL rendering: the
/// `password` column of the `users` table, restricted to the row whose
/// `user_id` equals `name` passed as an SQL string literal. The text is
/// a deterministic function of the identity alone, named
/// `spec_bind_sql`.
#[verifier::external_body]
fn render_bind_sql(name: &str) -> (r: String)
    ensures
        r@ == spec_bind_sql(name@),
{
    Query::select()
        .column(Alias::new("password"))
        .from(Alias::new("users"))
        .and_where(sea_query::Expr::col(Alias::new("user_id")).eq(name.to_owned()))
        .to_string(MysqlQueryBuilder)
}

/// Relies on sea_query's SELECT builder and MySQL rendering: the fixed
/// seven-column `User` projection over the `users` table, with the
/// given restriction attached when there is one. The text is a
/// deterministic function of the restriction alone, named
/// `spec_list_sql`; the restriction reaches the builder node by node
/// through the constructors above.
#[verifier::external_body]
fn render_list_sql(restriction: &Option<QueryExpr>) -> (r: String)
    ensures
        r@ == spec_list_sql(*restriction),
{
    let mut stmt = Query::select();
    stmt.columns([
        Alias::new("user_id"),
        Alias::new("email"),
        Alias::new("display_name"),
        Alias::new("first_name"),
        Alias::new("last_name"),
        Alias::new("avatar"),
        Alias::new("creation_date"),
    ])
    .from(Alias::new("users"));
    if let Some(e) = restriction {
        stmt.and_where(to_sea_expr(e));
    }
    stmt.to_string(MysqlQueryBuilder)
}

/// The SQL text of the credential lookup for one identity: the
/// `password` column of the `users` row whose `user_id` equals `name`,
/// with the identity passed as an SQL string literal.
pub fn build_bind_query(name: &str) -> (r: String)
    ensures
        r@ == spec_bind_sql(name@),
{
    render_bind_sql(name)
}

/// The SQL text of the directory query: the fixed `User` projection
/// over the `users` table, carrying exactly the restriction that the
/// request's filter compiles to — none when the request has no filter
/// or a top-level empty group.
pub fn build_list_query(filters: &Option<RequestFilter>) -> (r: String)
    ensures
        r@ == spec_list_sql(spec_effective_filter(*filters)),
{
    let restriction = effective_filter(filters);
    render_list_sql(&restriction)
}

} // verus!
