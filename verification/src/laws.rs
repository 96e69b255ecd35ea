//! What holds across the operations of the service.
//!
//! Each law speaks of the answers and states that the operations' contracts
//! relate, so it holds of every run of the operations, on any stores that
//! meet the store contracts. A store on a backend that can fail may answer
//! anything with an unexpected error; the laws that say which answer is
//! given are therefore stated for stores that do not fail, as those in
//! memory.

use vstd::prelude::*;

use crate::domain::data_stores::{
    live_challenge,
    uuid_value,
    is_two_fa_code,
    uuid_text,
    BannedTokenStore,
    ChallengeView,
    TwoFACodeStore,
    UserStore,
    CHALLENGE_TTL_SECONDS,
};
use crate::domain::email::email_format_ok;
use crate::domain::email_client::EmailClient;
use crate::domain::error::AuthAPIError;
use crate::domain::password::policy;
use crate::domain::user::UserView;
use crate::routes::login::{
    challenge_issued,
    login_check,
    login_post,
    no_2fa_post,
    two_fa_post,
    TWO_FA_SUBJECT,
    LoginCheck,
    LoginResponse,
};
use crate::routes::logout::logout_post;
use crate::routes::signup::{signup_post, SignupResponse};
use crate::routes::verify_2fa::{second_factor_check, verify_2fa_post, SecondFactorCheck};
use crate::routes::verify_token::{session_live, verify_token_post};
use crate::utils::auth::{is_issued_token, issued_token, token_valid, TOKEN_TTL_SECONDS};

verus! {

/// A second registration of an identity is refused as existing, and the
/// record of the first stays as it is.
pub proof fn second_registration_is_refused<U: UserStore>(
    before: Map<Seq<char>, UserView>,
    email: Seq<char>,
    first_password: Seq<char>,
    first_requires_2fa: bool,
    first: Result<SignupResponse, AuthAPIError>,
    between: Map<Seq<char>, UserView>,
    second_password: Seq<char>,
    second_requires_2fa: bool,
    second: Result<SignupResponse, AuthAPIError>,
    after: Map<Seq<char>, UserView>,
)
    requires
        U::reliable(),
        signup_post::<U>(before, email, first_password, first_requires_2fa, first, between),
        first is Ok,
        policy(second_password) is Ok,
        signup_post::<U>(between, email, second_password, second_requires_2fa, second, after),
    ensures
        second matches Err(AuthAPIError::UserAlreadyExists),
        after == between,
        after.contains_key(email),
        after[email].requires_2fa == first_requires_2fa,
        U::accepts(after[email].password, first_password),
{
}

/// On a store that does not fail, a free identity with credentials of the
/// right shape is registered, whenever the store can take the password:
/// the records grow by exactly that identity, which then requires or does
/// not require the second factor as was asked.
pub proof fn free_identity_is_registered<U: UserStore>(
    before: Map<Seq<char>, UserView>,
    email: Seq<char>,
    password: Seq<char>,
    requires_2fa: bool,
    registered: Result<SignupResponse, AuthAPIError>,
    after: Map<Seq<char>, UserView>,
)
    requires
        U::reliable(),
        email_format_ok(email),
        policy(password) is Ok,
        !before.contains_key(email),
        U::takes(password),
        signup_post::<U>(before, email, password, requires_2fa, registered, after),
    ensures
        registered is Ok,
        after.dom() == before.dom().insert(email),
        after[email].email == email,
        after[email].requires_2fa == requires_2fa,
        U::accepts(after[email].password, password),
{
    assert(after.dom() =~= before.dom().insert(email));
}

/// A password that meets the policy is not empty.
pub proof fn accepted_password_is_not_empty(password: Seq<char>)
    requires
        policy(password) is Ok,
    ensures
        password.len() > 0,
{
}

/// After a registration without second factor, a login with the same
/// credentials is owed the session token, and is given it unless no token
/// can be issued. No challenge is touched.
pub proof fn registered_login_is_owed_token<U: UserStore, T: TwoFACodeStore, E: EmailClient>(
    users_before: Map<Seq<char>, UserView>,
    email: Seq<char>,
    password: Seq<char>,
    registered: Result<SignupResponse, AuthAPIError>,
    users: Map<Seq<char>, UserView>,
    codes_before: Map<Seq<char>, ChallengeView>,
    email_client: E,
    now: u64,
    secret: Seq<char>,
    logged_in: Result<(Option<String>, LoginResponse), AuthAPIError>,
    codes_after: Map<Seq<char>, ChallengeView>,
)
    requires
        U::reliable(),
        signup_post::<U>(users_before, email, password, false, registered, users),
        registered is Ok,
        login_post::<U, T, E>(
            users,
            codes_before,
            email_client,
            email,
            password,
            now,
            secret,
            logged_in,
            codes_after,
        ),
    ensures
        login_check::<U>(users, email, password) is Token,
        no_2fa_post(email, now, secret, logged_in),
        codes_after == codes_before,
        issued_token(email, now, secret) is Ok ==> (logged_in matches Ok(
            (Some(token), LoginResponse::RegularAuth),
        ) && is_issued_token(token@, email, now, secret)),
{
    accepted_password_is_not_empty(password);
}

/// After a registration with second factor, a login with the same
/// credentials is owed a fresh challenge and no token.
pub proof fn registered_login_is_owed_challenge<U: UserStore, T: TwoFACodeStore, E: EmailClient>(
    users_before: Map<Seq<char>, UserView>,
    email: Seq<char>,
    password: Seq<char>,
    registered: Result<SignupResponse, AuthAPIError>,
    users: Map<Seq<char>, UserView>,
    codes_before: Map<Seq<char>, ChallengeView>,
    email_client: E,
    now: u64,
    secret: Seq<char>,
    logged_in: Result<(Option<String>, LoginResponse), AuthAPIError>,
    codes_after: Map<Seq<char>, ChallengeView>,
)
    requires
        U::reliable(),
        T::reliable(),
        signup_post::<U>(users_before, email, password, true, registered, users),
        registered is Ok,
        login_post::<U, T, E>(
            users,
            codes_before,
            email_client,
            email,
            password,
            now,
            secret,
            logged_in,
            codes_after,
        ),
    ensures
        login_check::<U>(users, email, password) is SecondFactor,
        two_fa_post::<T, E>(codes_before, email, now, email_client, logged_in, codes_after),
        challenge_issued(codes_before, email, now, codes_after),
        logged_in matches Ok((token, _)) ==> token is None,
        logged_in is Ok || logged_in matches Err(AuthAPIError::UnexpectedError(_)),
{
    accepted_password_is_not_empty(password);
}

/// Where the notifier delivers the code of the fresh challenge, the login
/// is answered with the request for the second factor, which carries the
/// challenge's identifier and no token, and never with an error.
pub proof fn delivered_code_is_answered<T: TwoFACodeStore, E: EmailClient>(
    before: Map<Seq<char>, ChallengeView>,
    email: Seq<char>,
    now: u64,
    email_client: E,
    logged_in: Result<(Option<String>, LoginResponse), AuthAPIError>,
    after: Map<Seq<char>, ChallengeView>,
)
    requires
        T::reliable(),
        two_fa_post::<T, E>(before, email, now, email_client, logged_in, after),
        forall|answer: Result<(), String>| #[trigger]
            email_client.may_answer(email, TWO_FA_SUBJECT@, after[email].code, answer)
                ==> answer is Ok,
    ensures
        challenge_issued(before, email, now, after),
        logged_in matches Ok((None, LoginResponse::TwoFactorAuth(response))),
        logged_in matches Ok((_, LoginResponse::TwoFactorAuth(response)))
            ==> response.message@ == "2FA required"@ && response.login_attempt_id@
            == after[email].login_attempt_id,
{
}

/// Where the notifier fails to deliver the code, the login is answered with
/// an unexpected error, never with success and never as if the credentials
/// were wrong; the fresh challenge stands all the same.
pub proof fn failed_delivery_is_unexpected<T: TwoFACodeStore, E: EmailClient>(
    before: Map<Seq<char>, ChallengeView>,
    email: Seq<char>,
    now: u64,
    email_client: E,
    logged_in: Result<(Option<String>, LoginResponse), AuthAPIError>,
    after: Map<Seq<char>, ChallengeView>,
)
    requires
        T::reliable(),
        two_fa_post::<T, E>(before, email, now, email_client, logged_in, after),
        forall|answer: Result<(), String>| #[trigger]
            email_client.may_answer(email, TWO_FA_SUBJECT@, after[email].code, answer)
                ==> answer is Err,
    ensures
        challenge_issued(before, email, now, after),
        logged_in matches Err(AuthAPIError::UnexpectedError(_)),
{
}

/// A login with a password that the store does not accept for the
/// identity, or for an identity that is not registered, is refused as
/// incorrect either way.
pub proof fn wrong_credentials_are_refused_alike<U: UserStore, T: TwoFACodeStore, E: EmailClient>(
    users: Map<Seq<char>, UserView>,
    codes_before: Map<Seq<char>, ChallengeView>,
    email_client: E,
    email: Seq<char>,
    password: Seq<char>,
    now: u64,
    secret: Seq<char>,
    logged_in: Result<(Option<String>, LoginResponse), AuthAPIError>,
    codes_after: Map<Seq<char>, ChallengeView>,
)
    requires
        U::reliable(),
        email_format_ok(email),
        password.len() > 0,
        !users.contains_key(email) || !U::accepts(users[email].password, password),
        login_post::<U, T, E>(
            users,
            codes_before,
            email_client,
            email,
            password,
            now,
            secret,
            logged_in,
            codes_after,
        ),
    ensures
        logged_in matches Err(AuthAPIError::IncorrectCredentials),
        codes_after == codes_before,
{
}

/// An issued token proves a session from its issue until its expiry, as
/// long as it is not revoked; after its expiry it proves none.
pub proof fn issued_token_verifies_until_expiry<B: BannedTokenStore>(
    token: Seq<char>,
    email: Seq<char>,
    issued_at: u64,
    secret: Seq<char>,
    banned: Set<Seq<char>>,
    at: u64,
    checked: Result<(), AuthAPIError>,
)
    requires
        B::reliable(),
        is_issued_token(token, email, issued_at, secret),
        !banned.contains(token),
        verify_token_post::<B>(banned, token, at, secret, checked),
    ensures
        at <= issued_at + TOKEN_TTL_SECONDS ==> checked is Ok,
        at > issued_at + TOKEN_TTL_SECONDS ==> checked matches Err(AuthAPIError::InvalidToken),
{
}

/// Logging out with a token that proves a session succeeds and revokes
/// exactly that token.
pub proof fn live_session_logs_out<B: BannedTokenStore>(
    before: Set<Seq<char>>,
    token: Seq<char>,
    now: u64,
    secret: Seq<char>,
    logged_out: Result<(), AuthAPIError>,
    after: Set<Seq<char>>,
)
    requires
        B::reliable(),
        session_live(before, token, now, secret),
        logout_post::<B>(before, Some(token), now, secret, logged_out, after),
    ensures
        logged_out is Ok,
        after == before.insert(token),
{
}

/// After a logout the token proves no session, even before its expiry: a
/// check refuses it as invalid, and so does a second logout.
pub proof fn logged_out_token_is_invalid<B: BannedTokenStore>(
    before: Set<Seq<char>>,
    token: Seq<char>,
    now: u64,
    secret: Seq<char>,
    logged_out: Result<(), AuthAPIError>,
    after: Set<Seq<char>>,
    at: u64,
    checked: Result<(), AuthAPIError>,
    again: Result<(), AuthAPIError>,
    finally: Set<Seq<char>>,
)
    requires
        B::reliable(),
        logout_post::<B>(before, Some(token), now, secret, logged_out, after),
        logged_out is Ok,
        verify_token_post::<B>(after, token, at, secret, checked),
        logout_post::<B>(after, Some(token), at, secret, again, finally),
    ensures
        checked matches Err(AuthAPIError::InvalidToken),
        again matches Err(AuthAPIError::InvalidToken),
        finally == after,
{
}

/// The whole life of a session without second factor: the token of a login
/// verifies, a logout with it succeeds, and from then on it is refused.
pub proof fn session_lifecycle<
    U: UserStore,
    T: TwoFACodeStore,
    E: EmailClient,
    B: BannedTokenStore,
>(
    users: Map<Seq<char>, UserView>,
    codes: Map<Seq<char>, ChallengeView>,
    email_client: E,
    email: Seq<char>,
    password: Seq<char>,
    now: u64,
    secret: Seq<char>,
    logged_in: Result<(Option<String>, LoginResponse), AuthAPIError>,
    codes_after: Map<Seq<char>, ChallengeView>,
    banned: Set<Seq<char>>,
    checked: Result<(), AuthAPIError>,
    logged_out: Result<(), AuthAPIError>,
    banned_after: Set<Seq<char>>,
    checked_again: Result<(), AuthAPIError>,
)
    requires
        U::reliable(),
        B::reliable(),
        login_check::<U>(users, email, password) is Token,
        login_post::<U, T, E>(
            users,
            codes,
            email_client,
            email,
            password,
            now,
            secret,
            logged_in,
            codes_after,
        ),
        logged_in matches Ok((Some(token), _)) && {
            &&& !banned.contains(token@)
            &&& verify_token_post::<B>(banned, token@, now, secret, checked)
            &&& logout_post::<B>(banned, Some(token@), now, secret, logged_out, banned_after)
            &&& verify_token_post::<B>(banned_after, token@, now, secret, checked_again)
        },
    ensures
        checked is Ok,
        logged_out is Ok,
        checked_again matches Err(AuthAPIError::InvalidToken),
{
}

/// An answer that is well-formed but is not the identifier and the code of
/// the identity's challenge is refused as incorrect, and the challenge
/// stays.
pub proof fn wrong_answer_is_refused<T: TwoFACodeStore>(
    codes: Map<Seq<char>, ChallengeView>,
    email: Seq<char>,
    login_attempt_id: Seq<char>,
    code: Seq<char>,
    now: u64,
    secret: Seq<char>,
    answered: Result<String, AuthAPIError>,
    after: Map<Seq<char>, ChallengeView>,
)
    requires
        T::reliable(),
        email_format_ok(email),
        uuid_value(login_attempt_id) is Some,
        is_two_fa_code(code),
        codes.contains_key(email),
        codes[email].login_attempt_id != uuid_text(uuid_value(login_attempt_id)->0)
            || codes[email].code != code,
        verify_2fa_post::<T>(codes, email, login_attempt_id, code, now, secret, answered, after),
    ensures
        answered matches Err(AuthAPIError::IncorrectCredentials),
        after == codes,
{
}

/// The answer that a challenge asks for, given while the challenge is live,
/// consumes the challenge and is owed the session token.
pub proof fn right_answer_is_owed_token<T: TwoFACodeStore>(
    before: Map<Seq<char>, ChallengeView>,
    email: Seq<char>,
    issued_at: u64,
    codes: Map<Seq<char>, ChallengeView>,
    now: u64,
    secret: Seq<char>,
    answered: Result<String, AuthAPIError>,
    after: Map<Seq<char>, ChallengeView>,
)
    requires
        T::reliable(),
        email_format_ok(email),
        challenge_issued(before, email, issued_at, codes),
        now < issued_at + CHALLENGE_TTL_SECONDS,
        verify_2fa_post::<T>(
            codes,
            email,
            codes[email].login_attempt_id,
            codes[email].code,
            now,
            secret,
            answered,
            after,
        ),
    ensures
        second_factor_check(
            codes,
            email,
            codes[email].login_attempt_id,
            codes[email].code,
            now,
        ) is Match,
        issued_token(email, now, secret) is Ok ==> (answered matches Ok(token) && is_issued_token(
            token@,
            email,
            now,
            secret,
        ) && after == codes.remove(email)),
        issued_token(email, now, secret) is Err ==> (answered matches Err(
            AuthAPIError::UnexpectedError(_),
        ) && after == codes),
{
}

/// A challenge is worth nothing once [`CHALLENGE_TTL_SECONDS`] have passed
/// since its issue: its own answer is refused as incorrect.
pub proof fn stale_challenge_is_refused<T: TwoFACodeStore>(
    before: Map<Seq<char>, ChallengeView>,
    email: Seq<char>,
    issued_at: u64,
    codes: Map<Seq<char>, ChallengeView>,
    now: u64,
    secret: Seq<char>,
    answered: Result<String, AuthAPIError>,
    after: Map<Seq<char>, ChallengeView>,
)
    requires
        T::reliable(),
        email_format_ok(email),
        challenge_issued(before, email, issued_at, codes),
        now >= issued_at + CHALLENGE_TTL_SECONDS,
        verify_2fa_post::<T>(
            codes,
            email,
            codes[email].login_attempt_id,
            codes[email].code,
            now,
            secret,
            answered,
            after,
        ),
    ensures
        answered matches Err(AuthAPIError::IncorrectCredentials),
        after == codes,
{
}

/// A second challenge for an identity takes the place of the first: the
/// answer to the first is refused as incorrect from then on, unless the two
/// challenges happen to ask for the same answer.
pub proof fn later_challenge_supersedes<T: TwoFACodeStore>(
    before: Map<Seq<char>, ChallengeView>,
    email: Seq<char>,
    first_at: u64,
    between: Map<Seq<char>, ChallengeView>,
    second_at: u64,
    codes: Map<Seq<char>, ChallengeView>,
    now: u64,
    secret: Seq<char>,
    answered: Result<String, AuthAPIError>,
    after: Map<Seq<char>, ChallengeView>,
)
    requires
        T::reliable(),
        email_format_ok(email),
        challenge_issued(before, email, first_at, between),
        challenge_issued(between, email, second_at, codes),
        between[email].login_attempt_id != codes[email].login_attempt_id || between[email].code
            != codes[email].code,
        verify_2fa_post::<T>(
            codes,
            email,
            between[email].login_attempt_id,
            between[email].code,
            now,
            secret,
            answered,
            after,
        ),
    ensures
        codes.dom() == between.dom(),
        live_challenge(codes, email, second_at) == Some(codes[email]),
        answered matches Err(AuthAPIError::IncorrectCredentials),
        after == codes,
{
    assert(codes.dom() =~= between.dom());
}

/// A challenge is answered once: after an answer was accepted, the same
/// answer is refused as incorrect.
pub proof fn accepted_answer_cannot_be_replayed<T: TwoFACodeStore>(
    codes: Map<Seq<char>, ChallengeView>,
    email: Seq<char>,
    login_attempt_id: Seq<char>,
    code: Seq<char>,
    now: u64,
    secret: Seq<char>,
    accepted: Result<String, AuthAPIError>,
    between: Map<Seq<char>, ChallengeView>,
    later: u64,
    replayed: Result<String, AuthAPIError>,
    after: Map<Seq<char>, ChallengeView>,
)
    requires
        T::reliable(),
        verify_2fa_post::<T>(codes, email, login_attempt_id, code, now, secret, accepted, between),
        accepted is Ok,
        verify_2fa_post::<T>(
            between,
            email,
            login_attempt_id,
            code,
            later,
            secret,
            replayed,
            after,
        ),
    ensures
        !between.contains_key(email),
        replayed matches Err(AuthAPIError::IncorrectCredentials),
        after == between,
{
}

/// The token that an accepted answer yields proves a session like the
/// token of a login: until its expiry, and until it is revoked.
pub proof fn second_factor_token_verifies<T: TwoFACodeStore, B: BannedTokenStore>(
    codes: Map<Seq<char>, ChallengeView>,
    email: Seq<char>,
    login_attempt_id: Seq<char>,
    code: Seq<char>,
    now: u64,
    secret: Seq<char>,
    accepted: Result<String, AuthAPIError>,
    after: Map<Seq<char>, ChallengeView>,
    banned: Set<Seq<char>>,
    at: u64,
    checked: Result<(), AuthAPIError>,
)
    requires
        T::reliable(),
        B::reliable(),
        verify_2fa_post::<T>(codes, email, login_attempt_id, code, now, secret, accepted, after),
        accepted matches Ok(token) && !banned.contains(token@) && verify_token_post::<B>(
            banned,
            token@,
            at,
            secret,
            checked,
        ),
        at <= now + TOKEN_TTL_SECONDS,
    ensures
        accepted matches Ok(token) && token_valid(token@, at, secret),
        checked is Ok,
{
}

} // verus!
