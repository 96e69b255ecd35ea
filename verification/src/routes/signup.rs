//! Registration.

use vstd::prelude::*;

use crate::domain::data_stores::{UserStore, UserStoreError};
use crate::domain::email::{email_format_ok, Email};
use crate::domain::error::AuthAPIError;
use crate::domain::password::{policy, Password};
use crate::domain::user::{User, UserView};
use crate::services::data_stores::hashmap_user_store::HashMapUserStore;
use crate::services::data_stores::password_hash::compute_password_hash;

verus! {

/// What a caller submits to register.
pub struct SignupRequest {
    /// The identity's text.
    pub email: String,
    /// The password's text.
    pub password: String,
    /// Whether logins of this identity must pass a second factor.
    pub requires_2fa: bool,
}

/// What a caller is told when registration succeeded.
#[derive(Debug, PartialEq)]
pub struct SignupResponse {
    /// Says that the user was created.
    pub message: String,
}

/// Whether the two texts have the shape of credentials: the first an
/// address, the second a password that meets the policy.
pub open spec fn signup_input_ok(email: Seq<char>, password: Seq<char>) -> bool {
    email_format_ok(email) && policy(password) is Ok
}

/// What registration owes its caller: how the answer `result` and the
/// records `after` follow from the records `before` and what was submitted,
/// in a store of kind `U`.
///
/// Texts without the shape of credentials are refused as invalid. A taken
/// identity is refused as existing. Otherwise the store records the
/// identity; a store that does not fail does so exactly when it can take
/// the password. Whenever the answer is an error, the records stay as they
/// were.
pub open spec fn signup_post<U: UserStore>(
    before: Map<Seq<char>, UserView>,
    email: Seq<char>,
    password: Seq<char>,
    requires_2fa: bool,
    result: Result<SignupResponse, AuthAPIError>,
    after: Map<Seq<char>, UserView>,
) -> bool {
    match result {
        Ok(response) => {
            let stored = after[email];
            &&& signup_input_ok(email, password)
            &&& !before.contains_key(email)
            &&& after == before.insert(email, stored)
            &&& stored.email == email
            &&& stored.requires_2fa == requires_2fa
            &&& U::accepts(stored.password, password)
            &&& U::reliable() ==> U::takes(password)
            &&& response.message@ == "User created successfully"@
        },
        Err(AuthAPIError::InvalidCredentials) => {
            &&& !signup_input_ok(email, password)
            &&& after == before
        },
        Err(AuthAPIError::UserAlreadyExists) => {
            &&& signup_input_ok(email, password)
            &&& before.contains_key(email)
            &&& after == before
        },
        Err(AuthAPIError::UnexpectedError(_)) => {
            &&& signup_input_ok(email, password)
            &&& U::reliable() ==> !before.contains_key(email) && !U::takes(password)
            &&& after == before
        },
        Err(_) => false,
    }
}

/// The credential record that `request` asks for, where its texts have the
/// shape of credentials; the password in it is still the one submitted.
pub fn parse_signup(request: SignupRequest) -> (result: Result<User, AuthAPIError>)
    ensures
        match result {
            Ok(user) => {
                &&& signup_input_ok(request.email@, request.password@)
                &&& user@ == (UserView {
                    email: request.email@,
                    password: request.password@,
                    requires_2fa: request.requires_2fa,
                })
            },
            Err(e) => e is InvalidCredentials && !signup_input_ok(request.email@, request.password@),
        },
{
    let email = match Email::parse(request.email.as_str()) {
        Ok(email) => email,
        Err(_) => {
            return Err(AuthAPIError::InvalidCredentials);
        },
    };
    let password = match Password::parse(request.password.as_str()) {
        Ok(password) => password,
        Err(_) => {
            return Err(AuthAPIError::InvalidCredentials);
        },
    };
    Ok(User::new(email, password, request.requires_2fa))
}

/// What the caller is answered once the store has said whether it took the
/// record: success with its message, the refusal of a taken identity, or
/// an unexpected error with the store's cause.
pub fn signup_answer(stored: Result<(), UserStoreError>) -> (result: Result<
    SignupResponse,
    AuthAPIError,
>)
    ensures
        match stored {
            Ok(()) => result matches Ok(response) && response.message@
                == "User created successfully"@,
            Err(UserStoreError::UserAlreadyExists) => result matches Err(
                AuthAPIError::UserAlreadyExists,
            ),
            Err(UserStoreError::UnexpectedError(cause)) => result matches Err(
                AuthAPIError::UnexpectedError(text),
            ) && text@ == cause@,
            Err(_) => result matches Err(AuthAPIError::UnexpectedError(_)),
        },
{
    match stored {
        Ok(()) => Ok(SignupResponse { message: "User created successfully".to_owned() }),
        Err(UserStoreError::UserAlreadyExists) => Err(AuthAPIError::UserAlreadyExists),
        Err(UserStoreError::UnexpectedError(cause)) => Err(AuthAPIError::UnexpectedError(cause)),
        Err(_) => Err(AuthAPIError::UnexpectedError("Unexpected store answer".to_owned())),
    }
}

/// Registers the identity of `request` with its password and its
/// second-factor requirement; see [`signup_post`].
pub fn signup<U: UserStore>(user_store: &mut U, request: SignupRequest) -> (result: Result<
    SignupResponse,
    AuthAPIError,
>)
    ensures
        signup_post::<U>(
            old(user_store).users(),
            request.email@,
            request.password@,
            request.requires_2fa,
            result,
            final(user_store).users(),
        ),
{
    let user = match parse_signup(request) {
        Ok(user) => user,
        Err(e) => {
            return Err(e);
        },
    };
    signup_answer(user_store.add_user(user))
}

/// The registration on the store in memory, in the steps in which a caller
/// can run it without holding the store while the hash is computed: the
/// shape of what was submitted; the hash, away from the store; the record;
/// the answer. The steps together owe what [`signup`] owes; see
/// [`signup_post`].
pub fn signup_in_steps(user_store: &mut HashMapUserStore, request: SignupRequest) -> (result:
    Result<SignupResponse, AuthAPIError>)
    ensures
        signup_post::<HashMapUserStore>(
            old(user_store).users(),
            request.email@,
            request.password@,
            request.requires_2fa,
            result,
            final(user_store).users(),
        ),
{
    let user = match parse_signup(request) {
        Ok(user) => user,
        Err(e) => {
            return Err(e);
        },
    };
    let hashed = compute_password_hash(user.password());
    signup_answer(user_store.add_hashed_user(&user, hashed))
}

} // verus!
