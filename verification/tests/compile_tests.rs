use lldap::compile::QueryExpr;
use lldap::compile::compile;
use lldap::compile::effective_filter;
use lldap::model::RequestFilter;

fn equality(field: &str, value: &str) -> RequestFilter {
    RequestFilter::Equality(field.to_string(), value.to_string())
}

fn compiled_equality(field: &str, value: &str) -> QueryExpr {
    QueryExpr::Equality(field.to_string(), value.to_string())
}

#[test]
fn single_child_and_compiles_to_child() {
    let child = equality("user_id", "bob");
    let group = RequestFilter::And(vec![equality("user_id", "bob")]);
    assert_eq!(compile(&group), compile(&child));
}

#[test]
fn single_child_or_compiles_to_child() {
    let child = equality("email", "bob@example.com");
    let group = RequestFilter::Or(vec![equality("email", "bob@example.com")]);
    assert_eq!(compile(&group), compile(&child));
}

#[test]
fn empty_and_compiles_to_true() {
    assert_eq!(compile(&RequestFilter::And(vec![])), QueryExpr::Value(true));
}

#[test]
fn empty_or_compiles_to_true() {
    // The current semantics compile the empty disjunction to `true` as
    // well, although the mathematically vacuous disjunction would be
    // `false`; this test pins the behaviour the service actually has.
    assert_eq!(compile(&RequestFilter::Or(vec![])), QueryExpr::Value(true));
}

#[test]
fn double_negation_is_not_collapsed() {
    let filter = RequestFilter::Not(Box::new(RequestFilter::Not(Box::new(equality(
        "user_id", "bob",
    )))));
    let expected = QueryExpr::Not(Box::new(QueryExpr::Not(Box::new(compiled_equality(
        "user_id", "bob",
    )))));
    assert_eq!(compile(&filter), expected);
    assert_ne!(compile(&filter), compiled_equality("user_id", "bob"));
}

#[test]
fn group_folds_left_in_input_order() {
    let group = RequestFilter::And(vec![
        equality("user_id", "alice"),
        equality("email", "a@example.com"),
        equality("first_name", "Alice"),
    ]);
    let expected = QueryExpr::And(
        Box::new(QueryExpr::And(
            Box::new(compiled_equality("user_id", "alice")),
            Box::new(compiled_equality("email", "a@example.com")),
        )),
        Box::new(compiled_equality("first_name", "Alice")),
    );
    assert_eq!(compile(&group), expected);
}

#[test]
fn nested_empty_group_compiles_to_true() {
    let group = RequestFilter::And(vec![RequestFilter::Or(vec![])]);
    assert_eq!(compile(&group), QueryExpr::Value(true));
}

#[test]
fn effective_filter_skips_top_level_empty_groups() {
    assert_eq!(effective_filter(&None), None);
    assert_eq!(effective_filter(&Some(RequestFilter::And(vec![]))), None);
    assert_eq!(effective_filter(&Some(RequestFilter::Or(vec![]))), None);
}

#[test]
fn effective_filter_keeps_real_restrictions() {
    let filter = Some(equality("user_id", "bob"));
    assert_eq!(
        effective_filter(&filter),
        Some(compiled_equality("user_id", "bob"))
    );
}
