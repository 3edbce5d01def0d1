use lldap::model::RequestFilter;
use lldap::sql::build_bind_query;
use lldap::sql::build_list_query;

fn equality(field: &str, value: &str) -> RequestFilter {
    RequestFilter::Equality(field.to_string(), value.to_string())
}

const LIST_PROJECTION: &str = "SELECT `user_id`, `email`, `display_name`, `first_name`, \
`last_name`, `avatar`, `creation_date` FROM `users`";

#[test]
fn bind_query_selects_the_credential_row() {
    assert_eq!(
        build_bind_query("bob"),
        "SELECT `password` FROM `users` WHERE `user_id` = 'bob'"
    );
}

#[test]
fn bind_query_quotes_the_identity_as_a_literal() {
    assert_eq!(
        build_bind_query("bob'); DROP TABLE users; --"),
        "SELECT `password` FROM `users` WHERE `user_id` = 'bob\\'); DROP TABLE users; --'"
    );
}

#[test]
fn list_query_without_filter_has_no_restriction() {
    assert_eq!(build_list_query(&None), LIST_PROJECTION);
}

#[test]
fn list_query_skips_top_level_empty_groups() {
    assert_eq!(
        build_list_query(&Some(RequestFilter::And(vec![]))),
        LIST_PROJECTION
    );
    assert_eq!(
        build_list_query(&Some(RequestFilter::Or(vec![]))),
        LIST_PROJECTION
    );
}

#[test]
fn list_query_attaches_an_equality_restriction() {
    assert_eq!(
        build_list_query(&Some(equality("user_id", "bob"))),
        format!("{} WHERE (user_id) = 'bob'", LIST_PROJECTION)
    );
}

#[test]
fn list_query_renders_a_conjunction_in_input_order() {
    let filter = RequestFilter::And(vec![
        equality("first_name", "Alice"),
        equality("last_name", "Example"),
    ]);
    assert_eq!(
        build_list_query(&Some(filter)),
        format!(
            "{} WHERE (first_name) = 'Alice' AND (last_name) = 'Example'",
            LIST_PROJECTION
        )
    );
}

#[test]
fn list_query_renders_negation() {
    let filter = RequestFilter::Not(Box::new(equality("user_id", "bob")));
    assert_eq!(
        build_list_query(&Some(filter)),
        format!("{} WHERE NOT (user_id) = 'bob'", LIST_PROJECTION)
    );
}

#[test]
fn list_query_renders_a_nested_empty_group_as_true() {
    let filter = RequestFilter::And(vec![RequestFilter::Or(vec![])]);
    assert_eq!(
        build_list_query(&Some(filter)),
        format!("{} WHERE TRUE", LIST_PROJECTION)
    );
}
