//! Compilation of a `RequestFilter` into a storage-query predicate.
//!
//! The compiler is pure and total: every well-formed filter tree
//! compiles, by a post-order walk. `And` and `Or` left-fold their
//! children; an empty group compiles to the literal predicate `true`
//! (for `Or` as well as `And`, pinning the current behaviour of the
//! service). Negation is applied structurally, with no simplification.

use crate::model::RequestFilter;
use vstd::prelude::*;

verus! {

/// A composable boolean storage-query predicate, the compiler's output.
/// `Value` is a literal; `Equality(field, value)` compares the column
/// named `field` (interpolated as a raw identifier) with the literal
/// string `value`.
#[derive(PartialEq, Eq, Debug)]
pub enum QueryExpr {
    Value(bool),
    And(Box<QueryExpr>, Box<QueryExpr>),
    Or(Box<QueryExpr>, Box<QueryExpr>),
    Not(Box<QueryExpr>),
    Equality(String, String),
}

/// The left fold of the compiled prefix `fs[0..n]` of a group's
/// children, combined with `And` when `is_and` holds, else with `Or`.
pub open spec fn spec_fold(fs: Seq<RequestFilter>, n: int, is_and: bool) -> QueryExpr
    recommends
        1 <= n <= fs.len(),
    decreases fs, n,
        when 1 <= n <= fs.len()
{
    if n <= 1 {
        spec_compile(fs[0])
    } else {
        let prefix = spec_fold(fs, n - 1, is_and);
        let last = spec_compile(fs[n - 1]);
        if is_and {
            QueryExpr::And(Box::new(prefix), Box::new(last))
        } else {
            QueryExpr::Or(Box::new(prefix), Box::new(last))
        }
    }
}

/// What `compile` returns: the predicate a filter compiles to.
pub open spec fn spec_compile(f: RequestFilter) -> QueryExpr
    decreases f, 0int,
{
    match f {
        RequestFilter::And(fs) => if fs@.len() == 0 {
            QueryExpr::Value(true)
        } else {
            spec_fold(fs@, fs@.len() as int, true)
        },
        RequestFilter::Or(fs) => if fs@.len() == 0 {
            QueryExpr::Value(true)
        } else {
            spec_fold(fs@, fs@.len() as int, false)
        },
        RequestFilter::Not(g) => QueryExpr::Not(Box::new(spec_compile(*g))),
        RequestFilter::Equality(field, value) => QueryExpr::Equality(field, value),
    }
}

/// Compile a filter into a storage-query predicate. Pure and total:
/// there is no failure mode.
pub fn compile(f: &RequestFilter) -> (r: QueryExpr)
    ensures
        r == spec_compile(*f),
    decreases *f,
{
    match f {
        RequestFilter::And(fs) => compile_group(fs, true),
        RequestFilter::Or(fs) => compile_group(fs, false),
        RequestFilter::Not(g) => QueryExpr::Not(Box::new(compile(g))),
        RequestFilter::Equality(field, value) => QueryExpr::Equality(
            field.clone(),
            value.clone(),
        ),
    }
}

/// Left fold of a group's children; the empty group is the literal
/// predicate `true`.
fn compile_group(fs: &Vec<RequestFilter>, is_and: bool) -> (r: QueryExpr)
    ensures
        r == (if fs@.len() == 0 {
            QueryExpr::Value(true)
        } else {
            spec_fold(fs@, fs@.len() as int, is_and)
        }),
    decreases fs@, 1int,
{
    if fs.len() == 0 {
        return QueryExpr::Value(true);
    }
    let mut acc = compile(&fs[0]);
    let mut i: usize = 1;
    while i < fs.len()
        invariant
            1 <= i <= fs@.len(),
            acc == spec_fold(fs@, i as int, is_and),
        decreases fs@.len() - i,
    {
        let next = compile(&fs[i]);
        acc = if is_and {
            QueryExpr::And(Box::new(acc), Box::new(next))
        } else {
            QueryExpr::Or(Box::new(acc), Box::new(next))
        };
        i = i + 1;
    }
    acc
}

/// The restriction a `ListUsersRequest` puts on the query: none when no
/// filter was given, and none when the filter is literally the empty
/// `And` or the empty `Or` group, which skip filtering entirely rather
/// than attaching a redundant always-true clause.
pub open spec fn spec_effective_filter(filters: Option<RequestFilter>) -> Option<QueryExpr> {
    match filters {
        Option::None => Option::None,
        Option::Some(f) => {
            let empty_group = match f {
                RequestFilter::And(fs) => fs@.len() == 0,
                RequestFilter::Or(fs) => fs@.len() == 0,
                _ => false,
            };
            if empty_group {
                Option::None
            } else {
                Option::Some(spec_compile(f))
            }
        },
    }
}

/// Decide what restriction, if any, the request's filter puts on the
/// query; the top-level empty group is treated as "no filter".
pub fn effective_filter(filters: &Option<RequestFilter>) -> (r: Option<QueryExpr>)
    ensures
        r == spec_effective_filter(*filters),
{
    match filters {
        Option::None => Option::None,
        Option::Some(f) => {
            let empty_group = match f {
                RequestFilter::And(fs) => fs.len() == 0,
                RequestFilter::Or(fs) => fs.len() == 0,
                _ => false,
            };
            if empty_group {
                Option::None
            } else {
                Option::Some(compile(f))
            }
        },
    }
}

/// A group of exactly one child compiles to what the child compiles to,
/// for `And` and for `Or` alike.
pub proof fn lemma_single_child_identity(fs: Vec<RequestFilter>)
    requires
        fs@.len() == 1,
    ensures
        spec_compile(RequestFilter::And(fs)) == spec_compile(fs@[0]),
        spec_compile(RequestFilter::Or(fs)) == spec_compile(fs@[0]),
{
    reveal_with_fuel(spec_compile, 2);
    reveal_with_fuel(spec_fold, 2);
}

/// The empty group compiles to the literal predicate `true` — for `Or`
/// as well as `And`, the current (and deliberately pinned) behaviour,
/// though the vacuous disjunction would mathematically be `false`.
pub proof fn lemma_empty_group_is_true(fs: Vec<RequestFilter>)
    requires
        fs@.len() == 0,
    ensures
        spec_compile(RequestFilter::And(fs)) == QueryExpr::Value(true),
        spec_compile(RequestFilter::Or(fs)) == QueryExpr::Value(true),
{
}

/// Double negation does not collapse: the compiler applies negation
/// structurally, without simplification.
pub proof fn lemma_double_negation_kept(field: String, value: String)
    ensures
        spec_compile(
            RequestFilter::Not(
                Box::new(
                    RequestFilter::Not(Box::new(RequestFilter::Equality(field, value))),
                ),
            ),
        ) == QueryExpr::Not(
            Box::new(QueryExpr::Not(Box::new(QueryExpr::Equality(field, value)))),
        ),
{
    reveal_with_fuel(spec_compile, 3);
}

} // verus!
