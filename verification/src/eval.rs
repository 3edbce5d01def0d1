//! The meaning of a compiled predicate over a directory entry.
//!
//! The relational store evaluates the compiled predicate against the
//! columns of each row of the user table; this module states that
//! evaluation mathematically, and performs it for the in-memory
//! backend. A predicate naming a column the user table does not have is
//! malformed: the store would reject the whole query, and so does
//! `list_users`.

use crate::compile::QueryExpr;
use crate::model::User;
use crate::model::str_equal;
use vstd::prelude::*;

verus! {

/// Whether `field` names a queryable column of the user table: the
/// five string columns a `User` snapshot carries.
pub open spec fn spec_known_field(field: Seq<char>) -> bool {
    ||| field == "user_id"@
    ||| field == "email"@
    ||| field == "display_name"@
    ||| field == "first_name"@
    ||| field == "last_name"@
}

/// The value of the column named `field` in the row `u`, for the
/// queryable columns.
pub open spec fn spec_user_field(u: User, field: Seq<char>) -> Seq<char>
    recommends
        spec_known_field(field),
{
    if field == "user_id"@ {
        u.user_id@
    } else if field == "email"@ {
        u.email@
    } else if field == "display_name"@ {
        u.display_name@
    } else if field == "first_name"@ {
        u.first_name@
    } else {
        u.last_name@
    }
}

/// Whether every column a predicate names is a queryable column.
pub open spec fn spec_fields_known(e: QueryExpr) -> bool
    decreases e,
{
    match e {
        QueryExpr::Value(_) => true,
        QueryExpr::And(a, b) => spec_fields_known(*a) && spec_fields_known(*b),
        QueryExpr::Or(a, b) => spec_fields_known(*a) && spec_fields_known(*b),
        QueryExpr::Not(a) => spec_fields_known(*a),
        QueryExpr::Equality(field, _) => spec_known_field(field@),
    }
}

/// Whether the row `u` satisfies the predicate `e`, for a predicate
/// whose columns are all queryable.
pub open spec fn spec_eval(e: QueryExpr, u: User) -> bool
    recommends
        spec_fields_known(e),
    decreases e,
{
    match e {
        QueryExpr::Value(b) => b,
        QueryExpr::And(a, b) => spec_eval(*a, u) && spec_eval(*b, u),
        QueryExpr::Or(a, b) => spec_eval(*a, u) || spec_eval(*b, u),
        QueryExpr::Not(a) => !spec_eval(*a, u),
        QueryExpr::Equality(field, value) => spec_user_field(u, field@) == value@,
    }
}

/// Decide whether `field` names a queryable column of the user table.
pub fn known_field(field: &str) -> (r: bool)
    ensures
        r == spec_known_field(field@),
{
    if str_equal(field, "user_id") {
        true
    } else if str_equal(field, "email") {
        true
    } else if str_equal(field, "display_name") {
        true
    } else if str_equal(field, "first_name") {
        true
    } else {
        str_equal(field, "last_name")
    }
}

/// Check that every column the predicate names is a queryable column.
pub fn fields_known(e: &QueryExpr) -> (r: bool)
    ensures
        r == spec_fields_known(*e),
    decreases *e,
{
    match e {
        QueryExpr::Value(_) => true,
        QueryExpr::And(a, b) => fields_known(a) && fields_known(b),
        QueryExpr::Or(a, b) => fields_known(a) && fields_known(b),
        QueryExpr::Not(a) => fields_known(a),
        QueryExpr::Equality(field, _) => known_field(field.as_str()),
    }
}

/// Evaluate the predicate `e` against the row `u`.
pub fn eval(e: &QueryExpr, u: &User) -> (r: bool)
    requires
        spec_fields_known(*e),
    ensures
        r == spec_eval(*e, *u),
    decreases *e,
{
    match e {
        QueryExpr::Value(b) => *b,
        QueryExpr::And(a, b) => eval(a, u) && eval(b, u),
        QueryExpr::Or(a, b) => eval(a, u) || eval(b, u),
        QueryExpr::Not(a) => !eval(a, u),
        QueryExpr::Equality(field, value) => {
            let column = if str_equal(field.as_str(), "user_id") {
                &u.user_id
            } else if str_equal(field.as_str(), "email") {
                &u.email
            } else if str_equal(field.as_str(), "display_name") {
                &u.display_name
            } else if str_equal(field.as_str(), "first_name") {
                &u.first_name
            } else {
                &u.last_name
            };
            str_equal(column.as_str(), value.as_str())
        },
    }
}

} // verus!
