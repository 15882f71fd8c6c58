use rusty_shorty::errors::{
    AddUrlServiceError, AddUserServiceError, ConfigError, ContextError, DeleteUrlServiceError,
    EditPasswordServiceError, EditUrlServiceError, EditUserServiceError, FetchUrlServiceError,
    UserManagerRepositoryError, UserRepositoryError,
};
use rusty_shorty::gate::GateError;
use rusty_shorty::navigation::NavigationItem;
use rusty_shorty::role::Role;

fn visible(role: Role, tag: &str) -> Vec<(String, bool)> {
    NavigationItem::visible_for(role, tag)
        .into_iter()
        .map(|(item, active)| (item.tag, active))
        .collect()
}

#[test]
fn navigation_table() {
    let all = NavigationItem::navigations();
    let urls: Vec<&str> = all.iter().map(|i| i.url.as_str()).collect();
    assert_eq!(urls, vec!["/", "/shorty", "/user", "/stack"]);
    assert_eq!(all[1].name, "URL Redirect");
    assert_eq!(all[3].locale, "top-navigation-stack");
    assert_eq!(all[3].role, Role::Root);
}

#[test]
fn navigation_by_role() {
    assert_eq!(visible(Role::Visitor, "home"), vec![("home".to_string(), true)]);
    assert_eq!(
        visible(Role::User, "user"),
        vec![
            ("home".to_string(), false),
            ("shorty".to_string(), false),
            ("user".to_string(), true)
        ]
    );
    let root = visible(Role::Root, "");
    assert_eq!(root.len(), 4);
    assert!(root.iter().all(|(_, active)| !active));
}

#[test]
fn gate_statuses() {
    assert_eq!(GateError::SeeOther("/login/".to_string()).status(), 303);
    assert_eq!(GateError::Unauthorized.status(), 401);
    assert_eq!(GateError::Forbidden.status(), 403);
    assert_eq!(GateError::Resolution(ContextError::ConfigError).status(), 500);
    assert_eq!(GateError::Resolution(ContextError::RequestError).status(), 500);
}

#[test]
fn error_messages() {
    assert_eq!(ContextError::ConfigError.message(), "Config error");
    assert_eq!(ContextError::RequestError.message(), "Request error");
    assert_eq!(ContextError::Other.message(), "Other error");
    assert_eq!(ConfigError::ParseError.message(), "Config did not parse");
    assert_eq!(UserRepositoryError::NotFoundError.message(), "Not found error");
    assert_eq!(UserManagerRepositoryError::LockError.message(), "Lock error");
    assert_eq!(AddUrlServiceError::DbError.message(), "Database error");
    assert_eq!(DeleteUrlServiceError::DbError.message(), "Database error");
    assert_eq!(EditUrlServiceError::DbError.message(), "Database error");
    assert_eq!(FetchUrlServiceError::NotFound.message(), "Not Found");
    assert_eq!(FetchUrlServiceError::DbError.message(), "Db error");
    assert_eq!(AddUserServiceError::SubmitFailed.message(), "User already exists");
    assert_eq!(EditPasswordServiceError::PasswordSerializeError.message(), "Password Serialize Error");
    assert_eq!(EditUserServiceError::UserNotFound.message(), "User not found");
}
