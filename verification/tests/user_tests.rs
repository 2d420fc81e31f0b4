use playferrous::ids::UserId;
use playferrous::presentation::UserManagementError;
use playferrous::user_management::{auth_outcome, creation_outcome, resolve_user};

#[test]
fn unknown_users_are_refused() {
    assert!(matches!(
        resolve_user(None),
        Err(UserManagementError::UserDoesNotExist)
    ));
    assert!(matches!(resolve_user(Some(UserId(3))), Ok(UserId(3))));
}

#[test]
fn a_login_needs_exactly_one_matched_row() {
    assert!(matches!(auth_outcome(UserId(3), 1), Ok(UserId(3))));
    assert!(matches!(
        auth_outcome(UserId(3), 0),
        Err(UserManagementError::InvalidAuth)
    ));
    assert!(matches!(
        auth_outcome(UserId(3), 2),
        Err(UserManagementError::InvalidAuth)
    ));
}

#[test]
fn a_name_conflict_refuses_creation() {
    assert!(matches!(
        creation_outcome(None),
        Err(UserManagementError::UserAlreadyExists)
    ));
    assert!(matches!(creation_outcome(Some(UserId(9))), Ok(UserId(9))));
}
