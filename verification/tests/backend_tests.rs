use lldap::backend::BackendHandler;
use lldap::backend::MemoryBackendHandler;
use lldap::model::AuthError;
use lldap::model::BindRequest;
use lldap::model::Configuration;
use lldap::model::ListUsersRequest;
use lldap::model::QueryError;
use lldap::model::RequestFilter;
use lldap::model::User;
use lldap::model::passwords_match;
use lldap::model::privilege_from_groups;

fn config(dn: &str, pass: &str) -> Configuration {
    Configuration {
        ldap_user_dn: dn.to_string(),
        ldap_user_pass: pass.to_string(),
    }
}

fn user(id: &str) -> User {
    User {
        user_id: id.to_string(),
        email: format!("{}@example.com", id),
        display_name: id.to_string(),
        first_name: id.to_string(),
        last_name: "Example".to_string(),
        creation_date: 0,
    }
}

fn bind(name: &str, password: &str) -> BindRequest {
    BindRequest {
        name: name.to_string(),
        password: password.to_string(),
    }
}

fn equality(field: &str, value: &str) -> RequestFilter {
    RequestFilter::Equality(field.to_string(), value.to_string())
}

fn seeded_handler() -> MemoryBackendHandler {
    let mut handler = MemoryBackendHandler::new(config("admin", "secret"));
    handler.add_user(user("alice"), "alicepass".to_string());
    handler.add_user(user("bob"), "bobpass".to_string());
    handler.add_user(user("carol"), "carolpass".to_string());
    handler
}

fn ids(users: &[User]) -> Vec<String> {
    users.iter().map(|u| u.user_id.clone()).collect()
}

#[test]
fn privileged_bind_succeeds_with_zero_rows() {
    let mut handler = MemoryBackendHandler::new(config("admin", "secret"));
    assert!(handler.bind(bind("admin", "secret")).is_ok());
    assert!(handler.bind(bind("admin", "wrong")).is_err());
    assert!(handler.bind(bind("admin", "secret")).is_ok());
}

#[test]
fn privileged_bind_checks_configured_secret_not_stored_row() {
    let mut handler = MemoryBackendHandler::new(config("admin", "secret"));
    handler.add_user(user("admin"), "rowpass".to_string());
    // The stored same-named row is never consulted for the privileged
    // identity: its credential neither helps nor hurts.
    assert!(handler.bind(bind("admin", "rowpass")).is_err());
    assert!(handler.bind(bind("admin", "secret")).is_ok());
}

#[test]
fn stored_credential_bind() {
    let mut handler = seeded_handler();
    assert!(handler.bind(bind("alice", "alicepass")).is_ok());
    assert!(handler.bind(bind("alice", "bobpass")).is_err());
    assert!(handler.bind(bind("nobody", "alicepass")).is_err());
}

#[test]
fn unknown_user_and_wrong_password_fail_alike() {
    let mut empty_handler = MemoryBackendHandler::new(config("admin", "secret"));
    let mut full_handler = MemoryBackendHandler::new(config("admin", "secret"));
    full_handler.add_user(user("bob"), "bobpass".to_string());

    let unknown_user = empty_handler.bind(bind("bob", "guess")).unwrap_err();
    let wrong_password = full_handler.bind(bind("bob", "guess")).unwrap_err();
    assert_eq!(unknown_user, wrong_password);
    assert_eq!(unknown_user.message(), wrong_password.message());
}

#[test]
fn auth_error_message_shape() {
    let error = AuthError {
        name: "bob".to_string(),
    };
    assert_eq!(error.message(), "Authentication error for \"bob\"");
}

#[test]
fn list_users_without_filter_returns_all_in_order() {
    let mut handler = seeded_handler();
    let users = handler.list_users(ListUsersRequest { filters: None }).unwrap();
    assert_eq!(ids(&users), vec!["alice", "bob", "carol"]);
}

#[test]
fn list_users_with_empty_groups_returns_all() {
    let mut handler = seeded_handler();
    let with_empty_and = handler
        .list_users(ListUsersRequest {
            filters: Some(RequestFilter::And(vec![])),
        })
        .unwrap();
    let with_empty_or = handler
        .list_users(ListUsersRequest {
            filters: Some(RequestFilter::Or(vec![])),
        })
        .unwrap();
    assert_eq!(ids(&with_empty_and), vec!["alice", "bob", "carol"]);
    assert_eq!(ids(&with_empty_or), vec!["alice", "bob", "carol"]);
}

#[test]
fn list_users_with_no_match_returns_empty_not_error() {
    let mut handler = seeded_handler();
    let users = handler
        .list_users(ListUsersRequest {
            filters: Some(equality("user_id", "nobody")),
        })
        .unwrap();
    assert!(users.is_empty());
}

#[test]
fn list_users_equality_selects_one() {
    let mut handler = seeded_handler();
    let users = handler
        .list_users(ListUsersRequest {
            filters: Some(equality("user_id", "bob")),
        })
        .unwrap();
    assert_eq!(users, vec![user("bob")]);
}

#[test]
fn list_users_negation_keeps_order() {
    let mut handler = seeded_handler();
    let users = handler
        .list_users(ListUsersRequest {
            filters: Some(RequestFilter::Not(Box::new(equality("user_id", "bob")))),
        })
        .unwrap();
    assert_eq!(ids(&users), vec!["alice", "carol"]);
}

#[test]
fn list_users_contradictory_conjunction_is_empty() {
    let mut handler = seeded_handler();
    let users = handler
        .list_users(ListUsersRequest {
            filters: Some(RequestFilter::And(vec![
                equality("user_id", "alice"),
                equality("user_id", "bob"),
            ])),
        })
        .unwrap();
    assert!(users.is_empty());
}

#[test]
fn list_users_unknown_column_is_an_error() {
    let mut handler = seeded_handler();
    let result = handler.list_users(ListUsersRequest {
        filters: Some(equality("shoe_size", "42")),
    });
    assert_eq!(result.unwrap_err(), QueryError::UnknownField);
}

#[test]
fn first_matching_row_decides_the_credential() {
    let mut handler = MemoryBackendHandler::new(config("admin", "secret"));
    handler.add_user(user("dup"), "firstpass".to_string());
    handler.add_user(user("dup"), "secondpass".to_string());
    assert!(handler.bind(bind("dup", "firstpass")).is_ok());
    assert!(handler.bind(bind("dup", "secondpass")).is_err());
}

#[test]
fn every_successful_bind_sets_the_authenticated_flag() {
    let mut handler = seeded_handler();
    assert!(!handler.authenticated);
    assert!(handler.bind(bind("alice", "wrong")).is_err());
    assert!(!handler.authenticated);
    handler.bind(bind("alice", "alicepass")).unwrap();
    assert!(handler.authenticated);

    let mut privileged = MemoryBackendHandler::new(config("admin", "secret"));
    privileged.bind(bind("admin", "secret")).unwrap();
    assert!(privileged.authenticated);
}

#[test]
fn passwords_match_is_exact_comparison() {
    assert!(passwords_match("secret", "secret"));
    assert!(!passwords_match("secret", "Secret"));
    assert!(!passwords_match("secret", "secret "));
    assert!(passwords_match("", ""));
}

#[test]
fn privilege_comes_from_the_admin_group() {
    let admin_groups = vec!["users".to_string(), "lldap_admin".to_string()];
    let plain_groups = vec!["users".to_string(), "lldap_admins".to_string()];
    let no_groups: Vec<String> = vec![];
    assert!(privilege_from_groups(&admin_groups));
    assert!(!privilege_from_groups(&plain_groups));
    assert!(!privilege_from_groups(&no_groups));
}
