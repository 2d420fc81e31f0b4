//! The user directory's decisions.
//!
//! Authentication itself happens in the store (password hashes, key
//! fingerprints); these are the verdicts the directory draws from what the
//! store found.

use vstd::prelude::*;
use crate::ids::UserId;
use crate::presentation::UserManagementError;

verus! {

/// The verdict on a username lookup: an unknown name is refused.
pub fn resolve_user(found: Option<UserId>) -> (r: Result<UserId, UserManagementError>)
    ensures
        match found {
            Some(u) => r == Ok::<UserId, UserManagementError>(u),
            None => r matches Err(UserManagementError::UserDoesNotExist),
        },
{
    match found {
        Some(u) => Ok(u),
        None => Err(UserManagementError::UserDoesNotExist),
    }
}

/// The verdict on a credential check: the login stands only when the store
/// matched exactly one row against the offered credential.
pub fn auth_outcome(user_id: UserId, rows_affected: u64) -> (r: Result<
    UserId,
    UserManagementError,
>)
    ensures
        rows_affected == 1 ==> r == Ok::<UserId, UserManagementError>(user_id),
        rows_affected != 1 ==> r matches Err(UserManagementError::InvalidAuth),
{
    if rows_affected == 1 {
        Ok(user_id)
    } else {
        Err(UserManagementError::InvalidAuth)
    }
}

/// The verdict on a user creation: a conflict on the name means the user
/// already exists.
pub fn creation_outcome(inserted: Option<UserId>) -> (r: Result<UserId, UserManagementError>)
    ensures
        match inserted {
            Some(u) => r == Ok::<UserId, UserManagementError>(u),
            None => r matches Err(UserManagementError::UserAlreadyExists),
        },
{
    match inserted {
        Some(u) => Ok(u),
        None => Err(UserManagementError::UserAlreadyExists),
    }
}

} // verus!
