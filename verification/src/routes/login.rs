//! Login: the first factor, and the issue of a token or of a challenge.

use vstd::prelude::*;

use crate::domain::data_stores::{
    is_fresh_code,
    is_login_attempt_id,
    is_two_fa_code,
    ChallengeView,
    LoginAttemptId,
    TwoFACode,
    TwoFACodeStore,
    TwoFACodeStoreError,
    UserStore,
    UserStoreError,
};
use crate::domain::email::{email_format_ok, Email};
use crate::domain::email_client::EmailClient;
use crate::domain::error::AuthAPIError;
use crate::domain::user::{User, UserView};
use crate::services::data_stores::hashmap_user_store::HashMapUserStore;
use crate::services::data_stores::password_hash::{hash_accepts, verify_password_hash};
use crate::utils::auth::{generate_auth_token, is_issued_token, issued_token};

verus! {

/// What a caller submits to log in.
pub struct LoginRequest {
    /// The identity's text.
    pub email: String,
    /// The password's text.
    pub password: String,
}

/// What a caller is told when the first factor passed.
#[derive(Debug)]
pub enum LoginResponse {
    /// The login is complete; the session token goes with this answer.
    RegularAuth,
    /// A second factor is required; the challenge's identifier is inside.
    TwoFactorAuth(TwoFactorAuthResponse),
}

impl LoginResponse {
    /// The HTTP status that goes with this answer: 200 for a complete
    /// login, 206 where the second factor is still due.
    pub fn status_code(&self) -> (code: u16)
        ensures
            code == match *self {
                LoginResponse::RegularAuth => 200u16,
                LoginResponse::TwoFactorAuth(_) => 206u16,
            },
    {
        match self {
            LoginResponse::RegularAuth => 200,
            LoginResponse::TwoFactorAuth(_) => 206,
        }
    }
}

/// The answer that asks for the second factor.
#[derive(Debug)]
pub struct TwoFactorAuthResponse {
    /// Says that a second factor is required.
    pub message: String,
    /// The identifier to present with the code.
    pub login_attempt_id: String,
}

/// Where the first factor leads.
pub enum LoginCheck {
    /// The submitted texts do not have the shape of credentials.
    Invalid,
    /// The identity is unknown or the password is not its password.
    Incorrect,
    /// The credentials match and a second factor is required.
    SecondFactor,
    /// The credentials match and a token is due.
    Token,
}

/// Where the first factor leads for what was submitted, given the records
/// of a store of kind `U`. An unknown identity and a wrong password lead to
/// the same place.
pub open spec fn login_check<U: UserStore>(
    users: Map<Seq<char>, UserView>,
    email: Seq<char>,
    password: Seq<char>,
) -> LoginCheck {
    if !email_format_ok(email) || password.len() == 0 {
        LoginCheck::Invalid
    } else if !users.contains_key(email) || !U::accepts(users[email].password, password) {
        LoginCheck::Incorrect
    } else if users[email].requires_2fa {
        LoginCheck::SecondFactor
    } else {
        LoginCheck::Token
    }
}

/// What a login without second factor owes its caller: the token issued for
/// `email` at `now`, or, where none can be issued, an unexpected error with
/// the codec's message as its cause.
pub open spec fn no_2fa_post(
    email: Seq<char>,
    now: u64,
    secret: Seq<char>,
    result: Result<(Option<String>, LoginResponse), AuthAPIError>,
) -> bool {
    match issued_token(email, now, secret) {
        Ok(_) => result matches Ok((Some(text), LoginResponse::RegularAuth)) && is_issued_token(
            text@,
            email,
            now,
            secret,
        ),
        Err(e) => result matches Err(AuthAPIError::UnexpectedError(text)) && text@ == e.message(),
    }
}

/// `after` is `before` with a fresh challenge for `email`, issued at `now`,
/// in place of any that the identity had.
pub open spec fn challenge_issued(
    before: Map<Seq<char>, ChallengeView>,
    email: Seq<char>,
    now: u64,
    after: Map<Seq<char>, ChallengeView>,
) -> bool {
    let challenge = after[email];
    &&& after == before.insert(email, challenge)
    &&& is_login_attempt_id(challenge.login_attempt_id)
    &&& is_fresh_code(challenge.code)
    &&& is_two_fa_code(challenge.code)
    &&& challenge.issued_at == now
}

/// The subject under which a code is sent.
pub const TWO_FA_SUBJECT: &'static str = "Your 2FA code";

/// What the caller is answered once the notifier has said whether the code
/// went out for the challenge `login_attempt_id`: on delivery the request
/// for the second factor with that identifier, and no token; on a failed
/// delivery an unexpected error that carries the notifier's cause.
pub open spec fn two_fa_answered(
    delivered: Result<(), String>,
    login_attempt_id: Seq<char>,
    result: Result<(Option<String>, LoginResponse), AuthAPIError>,
) -> bool {
    match delivered {
        Ok(()) => {
            &&& result matches Ok((None, LoginResponse::TwoFactorAuth(response)))
            &&& response.message@ == "2FA required"@
            &&& response.login_attempt_id@ == login_attempt_id
        },
        Err(cause) => {
            &&& result matches Err(AuthAPIError::UnexpectedError(text))
            &&& text@ == cause@
        },
    }
}

/// What a login with second factor owes its caller. A fresh challenge is
/// put in the store; the notifier `email_client` is asked to send that
/// challenge's code to the identity under [`TWO_FA_SUBJECT`]; and the
/// answer follows from the notifier's as [`two_fa_answered`] says, so the
/// challenge stands also where delivery failed. Only a store that can fail
/// may leave the challenges as they were, with an unexpected error.
pub open spec fn two_fa_post<T: TwoFACodeStore, E: EmailClient>(
    before: Map<Seq<char>, ChallengeView>,
    email: Seq<char>,
    now: u64,
    email_client: E,
    result: Result<(Option<String>, LoginResponse), AuthAPIError>,
    after: Map<Seq<char>, ChallengeView>,
) -> bool {
    ||| {
        &&& challenge_issued(before, email, now, after)
        &&& exists|delivered: Result<(), String>|
            {
                &&& #[trigger] email_client.may_answer(
                    email,
                    TWO_FA_SUBJECT@,
                    after[email].code,
                    delivered,
                )
                &&& two_fa_answered(delivered, after[email].login_attempt_id, result)
            }
    }
    ||| {
        &&& !T::reliable()
        &&& result matches Err(AuthAPIError::UnexpectedError(_))
        &&& after == before
    }
}

/// What login owes its caller: how the answer `result` and the challenges
/// `after` follow from the records `users`, the challenges `before` and
/// what was submitted at `now`. A store of kind `U` that can fail may
/// answer any login with an unexpected error.
pub open spec fn login_post<U: UserStore, T: TwoFACodeStore, E: EmailClient>(
    users: Map<Seq<char>, UserView>,
    before: Map<Seq<char>, ChallengeView>,
    email_client: E,
    email: Seq<char>,
    password: Seq<char>,
    now: u64,
    secret: Seq<char>,
    result: Result<(Option<String>, LoginResponse), AuthAPIError>,
    after: Map<Seq<char>, ChallengeView>,
) -> bool {
    let store_failed = {
        &&& !U::reliable()
        &&& result matches Err(AuthAPIError::UnexpectedError(_))
        &&& after == before
    };
    match login_check::<U>(users, email, password) {
        LoginCheck::Invalid => {
            &&& result matches Err(AuthAPIError::InvalidCredentials)
            &&& after == before
        },
        LoginCheck::Incorrect => {
            ||| result matches Err(AuthAPIError::IncorrectCredentials) && after == before
            ||| store_failed
        },
        LoginCheck::Token => {
            ||| no_2fa_post(email, now, secret, result) && after == before
            ||| store_failed
        },
        LoginCheck::SecondFactor => {
            ||| two_fa_post::<T, E>(before, email, now, email_client, result, after)
            ||| store_failed
        },
    }
}

/// What the notifier is asked to send for `code`: the subject, and the code
/// itself as the body.
pub fn two_fa_message<'a>(code: &'a TwoFACode) -> (message: (&'static str, &'a str))
    ensures
        message.0@ == TWO_FA_SUBJECT@,
        message.1@ == code@,
{
    (TWO_FA_SUBJECT, code.as_ref())
}

/// The answer to a login with second factor, from what the notifier said;
/// see [`two_fa_answered`].
pub fn two_fa_answer(delivered: Result<(), String>, login_attempt_id: &LoginAttemptId) -> (result:
    Result<(Option<String>, LoginResponse), AuthAPIError>)
    ensures
        two_fa_answered(delivered, login_attempt_id@, result),
{
    match delivered {
        Ok(()) => {
            let response = TwoFactorAuthResponse {
                message: "2FA required".to_owned(),
                login_attempt_id: login_attempt_id.as_ref().to_owned(),
            };
            Ok((None, LoginResponse::TwoFactorAuth(response)))
        },
        Err(cause) => Err(AuthAPIError::UnexpectedError(cause)),
    }
}

/// What the issue of a challenge owes its caller: the fresh challenge that
/// now stands in the store for `email`, or, from a store that can fail, an
/// unexpected error with the challenges as they were.
pub open spec fn challenge_post<T: TwoFACodeStore>(
    before: Map<Seq<char>, ChallengeView>,
    email: Seq<char>,
    now: u64,
    result: Result<(LoginAttemptId, TwoFACode), AuthAPIError>,
    after: Map<Seq<char>, ChallengeView>,
) -> bool {
    match result {
        Ok(issued) => {
            &&& challenge_issued(before, email, now, after)
            &&& after[email].login_attempt_id == issued.0@
            &&& after[email].code == issued.1@
        },
        Err(AuthAPIError::UnexpectedError(_)) => !T::reliable() && after == before,
        Err(_) => false,
    }
}

/// What the delivery of a code owes its caller: the notifier was asked to
/// send `code` to `email` under [`TWO_FA_SUBJECT`], and the answer follows
/// from the notifier's as [`two_fa_answered`] says.
pub open spec fn delivery_post<E: EmailClient>(
    email_client: E,
    email: Seq<char>,
    login_attempt_id: Seq<char>,
    code: Seq<char>,
    result: Result<(Option<String>, LoginResponse), AuthAPIError>,
) -> bool {
    exists|delivered: Result<(), String>|
        {
            &&& #[trigger] email_client.may_answer(email, TWO_FA_SUBJECT@, code, delivered)
            &&& two_fa_answered(delivered, login_attempt_id, result)
        }
}

/// What the caller is answered once the store has said whether it took the
/// fresh challenge: the challenge itself, or an unexpected error with the
/// store's cause.
pub fn challenge_answer(
    stored: Result<(), TwoFACodeStoreError>,
    login_attempt_id: LoginAttemptId,
    code: TwoFACode,
) -> (result: Result<(LoginAttemptId, TwoFACode), AuthAPIError>)
    ensures
        match stored {
            Ok(()) => result matches Ok(issued) && issued.0@ == login_attempt_id@ && issued.1@
                == code@,
            Err(TwoFACodeStoreError::UnexpectedError(cause)) => result matches Err(
                AuthAPIError::UnexpectedError(text),
            ) && text@ == cause@,
            Err(_) => result matches Err(AuthAPIError::UnexpectedError(_)),
        },
{
    match stored {
        Ok(()) => Ok((login_attempt_id, code)),
        Err(TwoFACodeStoreError::UnexpectedError(cause)) => Err(
            AuthAPIError::UnexpectedError(cause),
        ),
        Err(e) => Err(AuthAPIError::UnexpectedError(e.to_string())),
    }
}

/// Draws a fresh challenge and puts it in the store for `email` at `now`,
/// in place of any that the identity had. Nothing is sent; see
/// [`challenge_post`].
pub fn issue_challenge<T: TwoFACodeStore>(email: &Email, two_fa_code_store: &mut T, now: u64) -> (result:
    Result<(LoginAttemptId, TwoFACode), AuthAPIError>)
    ensures
        challenge_post::<T>(
            old(two_fa_code_store).codes(),
            email@,
            now,
            result,
            final(two_fa_code_store).codes(),
        ),
{
    let login_attempt_id = LoginAttemptId::default();
    let two_fa_code = TwoFACode::default();
    let stored = two_fa_code_store.add_code(
        email.clone(),
        login_attempt_id.clone(),
        two_fa_code.clone(),
        now,
    );
    challenge_answer(stored, login_attempt_id, two_fa_code)
}

/// Has the code of the challenge `issued` sent to `email`, and answers with
/// the challenge's identifier, or with the notifier's failure. No store is
/// touched; see [`delivery_post`].
pub fn deliver_code<E: EmailClient>(
    email: &Email,
    email_client: &E,
    issued: &(LoginAttemptId, TwoFACode),
) -> (result: Result<(Option<String>, LoginResponse), AuthAPIError>)
    ensures
        delivery_post::<E>(*email_client, email@, issued.0@, issued.1@, result),
{
    let message = two_fa_message(&issued.1);
    let delivered = email_client.send_email(email, message.0, message.1);
    assert(email_client.may_answer(email@, TWO_FA_SUBJECT@, issued.1@, delivered));
    two_fa_answer(delivered, &issued.0)
}

/// Issues a fresh challenge for `email` at `now`, has its code sent to the
/// identity, and answers with its identifier, or with the notifier's
/// failure; see [`two_fa_post`].
pub fn handle_2fa<T: TwoFACodeStore, E: EmailClient>(
    email: &Email,
    two_fa_code_store: &mut T,
    email_client: &E,
    now: u64,
) -> (result: Result<(Option<String>, LoginResponse), AuthAPIError>)
    ensures
        two_fa_post::<T, E>(
            old(two_fa_code_store).codes(),
            email@,
            now,
            *email_client,
            result,
            final(two_fa_code_store).codes(),
        ),
{
    match issue_challenge(email, two_fa_code_store, now) {
        Ok(issued) => deliver_code(email, email_client, &issued),
        Err(e) => Err(e),
    }
}

/// Issues the session token for `email` at `now`; see [`no_2fa_post`].
pub fn handle_no_2fa(email: &Email, now: u64, secret: &str) -> (result: Result<
    (Option<String>, LoginResponse),
    AuthAPIError,
>)
    ensures
        no_2fa_post(email@, now, secret@, result),
{
    match generate_auth_token(email, now, secret) {
        Ok(token) => Ok((Some(token), LoginResponse::RegularAuth)),
        Err(e) => Err(AuthAPIError::UnexpectedError(e.to_string())),
    }
}

/// Whether the two texts have the shape of credentials for a login: the
/// first an address, the second not empty.
pub open spec fn login_input_ok(email: Seq<char>, password: Seq<char>) -> bool {
    email_format_ok(email) && password.len() > 0
}

/// The identity and the password that `request` submits, where they have
/// the shape of credentials.
pub fn parse_login(request: LoginRequest) -> (result: Result<(Email, String), AuthAPIError>)
    ensures
        match result {
            Ok(submitted) => {
                &&& login_input_ok(request.email@, request.password@)
                &&& submitted.0@ == request.email@
                &&& submitted.1@ == request.password@
            },
            Err(e) => e is InvalidCredentials && !login_input_ok(
                request.email@,
                request.password@,
            ),
        },
{
    let email = match Email::parse(request.email.as_str()) {
        Ok(email) => email,
        Err(_) => {
            return Err(AuthAPIError::InvalidCredentials);
        },
    };
    if request.password.as_str().is_empty() {
        return Err(AuthAPIError::InvalidCredentials);
    }
    Ok((email, request.password))
}

/// What a looked-up record means for a login: the record, the refusal of
/// an unknown identity as incorrect credentials, or an unexpected error
/// with the store's cause.
pub fn lookup_verdict(lookup: Result<User, UserStoreError>) -> (result: Result<User, AuthAPIError>)
    ensures
        match lookup {
            Ok(user) => result matches Ok(found) && found@ == user@,
            Err(UserStoreError::UnexpectedError(cause)) => result matches Err(
                AuthAPIError::UnexpectedError(text),
            ) && text@ == cause@,
            Err(_) => result matches Err(AuthAPIError::IncorrectCredentials),
        },
{
    match lookup {
        Ok(user) => Ok(user),
        Err(UserStoreError::UnexpectedError(cause)) => Err(AuthAPIError::UnexpectedError(cause)),
        Err(_) => Err(AuthAPIError::IncorrectCredentials),
    }
}

/// What the store's word on a password means for a login: go on, the
/// refusal as incorrect credentials, or an unexpected error with the
/// store's cause.
pub fn validation_verdict(validated: Result<(), UserStoreError>) -> (result: Result<
    (),
    AuthAPIError,
>)
    ensures
        match validated {
            Ok(()) => result is Ok,
            Err(UserStoreError::UnexpectedError(cause)) => result matches Err(
                AuthAPIError::UnexpectedError(text),
            ) && text@ == cause@,
            Err(_) => result matches Err(AuthAPIError::IncorrectCredentials),
        },
{
    match validated {
        Ok(()) => Ok(()),
        Err(UserStoreError::UnexpectedError(cause)) => Err(AuthAPIError::UnexpectedError(cause)),
        Err(_) => Err(AuthAPIError::IncorrectCredentials),
    }
}

/// The first factor, decided away from the store: from the record that a
/// store of hashes answered a lookup with, and from the hasher's word on
/// `candidate`. The record comes back where its hash accepts the
/// candidate; an unknown identity and a wrong password are refused alike.
pub fn first_factor(lookup: Result<User, UserStoreError>, candidate: &str) -> (result: Result<
    User,
    AuthAPIError,
>)
    ensures
        match lookup {
            Ok(user) => if hash_accepts(user@.password, candidate@) {
                result matches Ok(found) && found@ == user@
            } else {
                result matches Err(AuthAPIError::IncorrectCredentials)
            },
            Err(UserStoreError::UnexpectedError(cause)) => result matches Err(
                AuthAPIError::UnexpectedError(text),
            ) && text@ == cause@,
            Err(_) => result matches Err(AuthAPIError::IncorrectCredentials),
        },
{
    let user = match lookup_verdict(lookup) {
        Ok(user) => user,
        Err(e) => {
            return Err(e);
        },
    };
    match verify_password_hash(user.password(), candidate) {
        Ok(()) => Ok(user),
        Err(_) => Err(AuthAPIError::IncorrectCredentials),
    }
}

/// Checks the submitted credentials against the store and, where they
/// match, issues the token or the challenge; see [`login_post`].
pub fn login<U: UserStore, T: TwoFACodeStore, E: EmailClient>(
    user_store: &U,
    two_fa_code_store: &mut T,
    email_client: &E,
    request: LoginRequest,
    now: u64,
    secret: &str,
) -> (result: Result<(Option<String>, LoginResponse), AuthAPIError>)
    ensures
        login_post::<U, T, E>(
            user_store.users(),
            old(two_fa_code_store).codes(),
            *email_client,
            request.email@,
            request.password@,
            now,
            secret@,
            result,
            final(two_fa_code_store).codes(),
        ),
{
    let (email, password) = match parse_login(request) {
        Ok(submitted) => submitted,
        Err(e) => {
            return Err(e);
        },
    };
    let user = match lookup_verdict(user_store.get_user(&email)) {
        Ok(user) => user,
        Err(e) => {
            return Err(e);
        },
    };
    match validation_verdict(user_store.validate_user(&email, password.as_str())) {
        Ok(()) => {},
        Err(e) => {
            return Err(e);
        },
    }
    if user.requires_2fa() {
        handle_2fa(&email, two_fa_code_store, email_client, now)
    } else {
        handle_no_2fa(&email, now, secret)
    }
}

/// The login on a store of hashes, in the steps in which a caller can run
/// it without holding a store while a hash is computed or a code is sent:
/// the shape of what was submitted; the lookup; the first factor, away
/// from the store; then the token, or the issue of the challenge and,
/// away from the store again, its delivery. The steps together owe what
/// [`login`] owes; see [`login_post`].
pub fn login_in_steps<T: TwoFACodeStore, E: EmailClient>(
    user_store: &HashMapUserStore,
    two_fa_code_store: &mut T,
    email_client: &E,
    request: LoginRequest,
    now: u64,
    secret: &str,
) -> (result: Result<(Option<String>, LoginResponse), AuthAPIError>)
    ensures
        login_post::<HashMapUserStore, T, E>(
            user_store.users(),
            old(two_fa_code_store).codes(),
            *email_client,
            request.email@,
            request.password@,
            now,
            secret@,
            result,
            final(two_fa_code_store).codes(),
        ),
{
    let (email, password) = match parse_login(request) {
        Ok(submitted) => submitted,
        Err(e) => {
            return Err(e);
        },
    };
    let lookup = user_store.get_user(&email);
    let user = match first_factor(lookup, password.as_str()) {
        Ok(user) => user,
        Err(e) => {
            return Err(e);
        },
    };
    if user.requires_2fa() {
        match issue_challenge(&email, two_fa_code_store, now) {
            Ok(issued) => deliver_code(&email, email_client, &issued),
            Err(e) => Err(e),
        }
    } else {
        handle_no_2fa(&email, now, secret)
    }
}

} // verus!
