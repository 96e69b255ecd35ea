//! What a credential store on a database computes: the record that a row
//! stands for.

use vstd::prelude::*;

use crate::domain::data_stores::UserStoreError;
use crate::domain::email::{email_format_ok, Email};
use crate::domain::password::{policy, Password};
use crate::domain::user::{User, UserView};

verus! {

/// The record of a row. A row whose identity is no address, or whose hash
/// cannot stand as a secret, is a failure of the store.
pub fn user_from_row(email: &str, password_hash: &str, requires_2fa: bool) -> (result: Result<
    User,
    UserStoreError,
>)
    ensures
        match result {
            Ok(user) => {
                &&& email_format_ok(email@)
                &&& policy(password_hash@) is Ok
                &&& user@ == (UserView { email: email@, password: password_hash@, requires_2fa })
            },
            Err(e) => {
                &&& e is UnexpectedError
                &&& !email_format_ok(email@) || policy(password_hash@) is Err
            },
        },
{
    let email = match Email::parse(email) {
        Ok(email) => email,
        Err(e) => {
            return Err(UserStoreError::UnexpectedError(e.to_string()));
        },
    };
    let password = match Password::parse(password_hash) {
        Ok(password) => password,
        Err(e) => {
            return Err(UserStoreError::UnexpectedError(e.to_string()));
        },
    };
    Ok(User::new(email, password, requires_2fa))
}

/// What a failed insertion of a record means: the identity was taken where
/// the database reports a violated uniqueness, and the store failed, for
/// the cause given, in every other case.
pub fn insert_failure(unique_violation: bool, cause: String) -> (error: UserStoreError)
    ensures
        unique_violation ==> error is UserAlreadyExists,
        !unique_violation ==> (error matches UserStoreError::UnexpectedError(text) && text@
            == cause@),
{
    if unique_violation {
        UserStoreError::UserAlreadyExists
    } else {
        UserStoreError::UnexpectedError(cause)
    }
}

} // verus!
