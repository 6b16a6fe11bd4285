use api_back_trio::domain::model::user::Role;

#[test]
fn role_parses_both_casings() {
    assert_eq!(Role::from_str("admin"), Ok(Role::Admin));
    assert_eq!(Role::from_str("Admin"), Ok(Role::Admin));
    assert_eq!(Role::from_str("user"), Ok(Role::User));
    assert_eq!(Role::from_str("User"), Ok(Role::User));
    assert_eq!(Role::from_str("root"), Err(()));
    assert_eq!(Role::Admin.to_string(), "admin");
}
