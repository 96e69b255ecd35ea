//! Challenge identifiers and codes, and the contracts every credential
//! store, challenge store and revocation registry must meet.

use vstd::prelude::*;
use vstd::string::{StrSliceExecFns, StringExecFns};

use crate::domain::email::Email;
use crate::domain::password::is_ascii_digit;
use crate::domain::user::{User, UserView};

verus! {

/// The failures of a credential store.
#[derive(Debug)]
pub enum UserStoreError {
    /// The identity is registered already.
    UserAlreadyExists,
    /// The identity is not registered.
    UserNotFound,
    /// The candidate is not the identity's password.
    InvalidCredentials,
    /// The store could not do its work; the text says why.
    UnexpectedError(String),
}

impl UserStoreError {
    /// The message shown for this error; the cause of an unexpected error is
    /// not part of it.
    pub fn to_string(&self) -> (message: String)
        ensures
            message@ == match *self {
                UserStoreError::UserAlreadyExists => "User already exists"@,
                UserStoreError::UserNotFound => "User not found"@,
                UserStoreError::InvalidCredentials => "Invalid credentials"@,
                UserStoreError::UnexpectedError(_) => "Unexpected error"@,
            },
    {
        match self {
            UserStoreError::UserAlreadyExists => "User already exists".to_owned(),
            UserStoreError::UserNotFound => "User not found".to_owned(),
            UserStoreError::InvalidCredentials => "Invalid credentials".to_owned(),
            UserStoreError::UnexpectedError(_) => "Unexpected error".to_owned(),
        }
    }
}

impl PartialEq for UserStoreError {
    /// Two errors are taken for equal when they are of the same kind,
    /// whatever the cause of an unexpected one.
    fn eq(&self, other: &Self) -> (same: bool) {
        match (self, other) {
            (UserStoreError::UserAlreadyExists, UserStoreError::UserAlreadyExists) => true,
            (UserStoreError::UserNotFound, UserStoreError::UserNotFound) => true,
            (UserStoreError::InvalidCredentials, UserStoreError::InvalidCredentials) => true,
            (UserStoreError::UnexpectedError(_), UserStoreError::UnexpectedError(_)) => true,
            _ => false,
        }
    }
}

impl vstd::std_specs::cmp::PartialEqSpecImpl for UserStoreError {
    open spec fn obeys_eq_spec() -> bool {
        true
    }

    open spec fn eq_spec(&self, other: &Self) -> bool {
        match (*self, *other) {
            (UserStoreError::UserAlreadyExists, UserStoreError::UserAlreadyExists) => true,
            (UserStoreError::UserNotFound, UserStoreError::UserNotFound) => true,
            (UserStoreError::InvalidCredentials, UserStoreError::InvalidCredentials) => true,
            (UserStoreError::UnexpectedError(_), UserStoreError::UnexpectedError(_)) => true,
            _ => false,
        }
    }
}

/// A credential store: identity to credential record.
///
/// A store may sit on a backend that fails. A failure is always reported as
/// [`UserStoreError::UnexpectedError`] and leaves the records as they were.
/// Every other outcome is fixed by the records and the arguments.
pub trait UserStore {
    /// The records held, by the text of their identity.
    spec fn users(&self) -> Map<Seq<char>, UserView>;

    /// Whether this kind of store takes `candidate` for the password that it
    /// keeps as `stored`.
    spec fn accepts(stored: Seq<char>, candidate: Seq<char>) -> bool;

    /// Whether this kind of store never fails for reasons of its backend.
    spec fn reliable() -> bool;

    /// Whether this kind of store can keep `password`, its backend
    /// permitting.
    spec fn takes(password: Seq<char>) -> bool;

    /// Registers `user` unless the identity is taken. The store keeps the
    /// password in a form under which it accepts that password again.
    fn add_user(&mut self, user: User) -> (result: Result<(), UserStoreError>)
        ensures
            result is Ok ==> {
                let stored = final(self).users()[user@.email];
                &&& !old(self).users().contains_key(user@.email)
                &&& final(self).users() == old(self).users().insert(user@.email, stored)
                &&& stored.email == user@.email
                &&& stored.requires_2fa == user@.requires_2fa
                &&& Self::accepts(stored.password, user@.password)
            },
            result is Err ==> final(self).users() == old(self).users(),
            result matches Err(e) ==> {
                ||| e is UserAlreadyExists && old(self).users().contains_key(user@.email)
                ||| e is UnexpectedError
            },
            Self::reliable() && old(self).users().contains_key(user@.email) ==> result matches Err(
                UserStoreError::UserAlreadyExists,
            ),
            Self::reliable() && !old(self).users().contains_key(user@.email) ==> (result is Ok
                <==> Self::takes(user@.password)),
    ;

    /// The record of `email`.
    fn get_user(&self, email: &Email) -> (result: Result<User, UserStoreError>)
        ensures
            result matches Ok(user) ==> self.users().contains_key(email@) && user@
                == self.users()[email@],
            result matches Err(e) ==> {
                ||| e is UserNotFound && !self.users().contains_key(email@)
                ||| e is UnexpectedError
            },
            Self::reliable() ==> !(result matches Err(UserStoreError::UnexpectedError(_))),
    ;

    /// Whether `password` is the password of `email`.
    fn validate_user(&self, email: &Email, password: &str) -> (result: Result<(), UserStoreError>)
        ensures
            result is Ok ==> self.users().contains_key(email@) && Self::accepts(
                self.users()[email@].password,
                password@,
            ),
            result matches Err(e) ==> {
                ||| e is UserNotFound && !self.users().contains_key(email@)
                ||| e is InvalidCredentials && self.users().contains_key(email@) && !Self::accepts(
                    self.users()[email@].password,
                    password@,
                )
                ||| e is UnexpectedError
            },
            Self::reliable() ==> !(result matches Err(UserStoreError::UnexpectedError(_))),
    ;
}

/// The failures of a revocation registry.
#[derive(Debug)]
pub enum BannedTokenStoreError {
    /// The registry could not do its work; the text says why.
    UnexpectedError(String),
}

impl BannedTokenStoreError {
    /// The message shown for this error; the cause is not part of it.
    pub fn to_string(&self) -> (message: String)
        ensures
            message@ == "Unexpected error"@,
    {
        "Unexpected error".to_owned()
    }
}

impl PartialEq for BannedTokenStoreError {
    /// Two errors are taken for equal whatever their cause.
    fn eq(&self, other: &Self) -> (same: bool) {
        true
    }
}

impl vstd::std_specs::cmp::PartialEqSpecImpl for BannedTokenStoreError {
    open spec fn obeys_eq_spec() -> bool {
        true
    }

    open spec fn eq_spec(&self, other: &Self) -> bool {
        true
    }
}

/// A revocation registry: the session tokens revoked before their expiry.
///
/// An entry stays at least as long as the token it revokes could still be
/// valid. A failure of the backend is reported as an error and leaves the
/// registry as it was.
pub trait BannedTokenStore {
    /// The revoked tokens.
    spec fn banned(&self) -> Set<Seq<char>>;

    /// Whether this kind of registry never fails.
    spec fn reliable() -> bool;

    /// Revokes `token`. Revoking a revoked token changes nothing and is no
    /// error.
    fn add_token(&mut self, token: &str) -> (result: Result<(), BannedTokenStoreError>)
        ensures
            result is Ok ==> final(self).banned() == old(self).banned().insert(token@),
            result is Err ==> final(self).banned() == old(self).banned(),
            Self::reliable() ==> result is Ok,
    ;

    /// Whether `token` is revoked.
    fn is_token_banned(&self, token: &str) -> (result: Result<bool, BannedTokenStoreError>)
        ensures
            result matches Ok(banned) ==> banned == self.banned().contains(token@),
            Self::reliable() ==> result is Ok,
    ;
}

/// How long a challenge can be answered, in seconds from its issue.
pub const CHALLENGE_TTL_SECONDS: u64 = 600;

/// One outstanding challenge, as plain values.
pub struct ChallengeView {
    /// The identifier's text.
    pub login_attempt_id: Seq<char>,
    /// The code's text.
    pub code: Seq<char>,
    /// When it was issued, in seconds of the clock that the caller supplies.
    pub issued_at: u64,
}

impl ChallengeView {
    /// Whether the challenge can still be answered at `now`: less than
    /// [`CHALLENGE_TTL_SECONDS`] have passed since its issue.
    pub open spec fn live_at(self, now: u64) -> bool {
        now < self.issued_at + CHALLENGE_TTL_SECONDS
    }
}

/// The challenge of `email` that can be answered at `now`, if there is one.
pub open spec fn live_challenge(
    codes: Map<Seq<char>, ChallengeView>,
    email: Seq<char>,
    now: u64,
) -> Option<ChallengeView> {
    if codes.contains_key(email) && codes[email].live_at(now) {
        Some(codes[email])
    } else {
        None
    }
}

/// The failures of a challenge store.
#[derive(Debug)]
pub enum TwoFACodeStoreError {
    /// The identity has no challenge that can still be answered.
    LoginAttemptIdNotFound,
    /// The store could not do its work; the text says why.
    UnexpectedError(String),
}

impl TwoFACodeStoreError {
    /// The message shown for this error; the cause of an unexpected error is
    /// not part of it.
    pub fn to_string(&self) -> (message: String)
        ensures
            message@ == match *self {
                TwoFACodeStoreError::LoginAttemptIdNotFound => "Login attempt ID not found"@,
                TwoFACodeStoreError::UnexpectedError(_) => "Unexpected error"@,
            },
    {
        match self {
            TwoFACodeStoreError::LoginAttemptIdNotFound => "Login attempt ID not found".to_owned(),
            TwoFACodeStoreError::UnexpectedError(_) => "Unexpected error".to_owned(),
        }
    }
}

impl PartialEq for TwoFACodeStoreError {
    /// Two errors are taken for equal when they are of the same kind,
    /// whatever the cause of an unexpected one.
    fn eq(&self, other: &Self) -> (same: bool) {
        match (self, other) {
            (
                TwoFACodeStoreError::LoginAttemptIdNotFound,
                TwoFACodeStoreError::LoginAttemptIdNotFound,
            ) => true,
            (TwoFACodeStoreError::UnexpectedError(_), TwoFACodeStoreError::UnexpectedError(_)) => {
                true
            },
            _ => false,
        }
    }
}

impl vstd::std_specs::cmp::PartialEqSpecImpl for TwoFACodeStoreError {
    open spec fn obeys_eq_spec() -> bool {
        true
    }

    open spec fn eq_spec(&self, other: &Self) -> bool {
        match (*self, *other) {
            (
                TwoFACodeStoreError::LoginAttemptIdNotFound,
                TwoFACodeStoreError::LoginAttemptIdNotFound,
            ) => true,
            (TwoFACodeStoreError::UnexpectedError(_), TwoFACodeStoreError::UnexpectedError(_)) => {
                true
            },
            _ => false,
        }
    }
}

/// A challenge store: at most one outstanding challenge per identity.
///
/// A failure of the backend is reported as
/// [`TwoFACodeStoreError::UnexpectedError`] and leaves the challenges as
/// they were.
pub trait TwoFACodeStore {
    /// The challenges held, by the text of their identity. One that is held
    /// may be too old to be answered; see [`live_challenge`].
    spec fn codes(&self) -> Map<Seq<char>, ChallengeView>;

    /// Whether this kind of store never fails.
    spec fn reliable() -> bool;

    /// Issues a challenge for `email` at `now`, in place of any that the
    /// identity had.
    fn add_code(
        &mut self,
        email: Email,
        login_attempt_id: LoginAttemptId,
        code: TwoFACode,
        now: u64,
    ) -> (result: Result<(), TwoFACodeStoreError>)
        ensures
            result is Ok ==> final(self).codes() == old(self).codes().insert(
                email@,
                ChallengeView {
                    login_attempt_id: login_attempt_id@,
                    code: code@,
                    issued_at: now,
                },
            ),
            result is Err ==> final(self).codes() == old(self).codes(),
            result matches Err(e) ==> e is UnexpectedError,
            Self::reliable() ==> result is Ok,
    ;

    /// Withdraws the challenge of `email`. Where there is none, nothing
    /// changes and that is no error.
    fn remove_code(&mut self, email: &Email) -> (result: Result<(), TwoFACodeStoreError>)
        ensures
            result is Ok ==> final(self).codes() == old(self).codes().remove(email@),
            result is Err ==> final(self).codes() == old(self).codes(),
            result matches Err(e) ==> e is UnexpectedError,
            Self::reliable() ==> result is Ok,
    ;

    /// The challenge of `email` that can be answered at `now`.
    fn get_code(&self, email: &Email, now: u64) -> (result: Result<
        (LoginAttemptId, TwoFACode),
        TwoFACodeStoreError,
    >)
        ensures
            result matches Ok(found) ==> live_challenge(self.codes(), email@, now) matches Some(
                challenge,
            ) && found.0@ == challenge.login_attempt_id && found.1@ == challenge.code,
            result matches Err(e) ==> {
                ||| e is LoginAttemptIdNotFound && live_challenge(self.codes(), email@, now) is None
                ||| e is UnexpectedError
            },
            Self::reliable() ==> !(result matches Err(TwoFACodeStoreError::UnexpectedError(_))),
    ;
}

/// The 128-bit value that `uuid::Uuid::parse_str` reads from `text`, or
/// `None` where it refuses the text. The parser takes several layouts
/// (hyphenated, simple, URN, braced), so the result is named, not restated.
pub uninterp spec fn uuid_value(text: Seq<char>) -> Option<u128>;

/// The text that `uuid::Uuid` displays for the value `value`: lower-case
/// hexadecimal digits in hyphenated groups.
pub uninterp spec fn uuid_text(value: u128) -> Seq<char>;

/// A lower-case hexadecimal digit.
pub open spec fn is_lower_hex(c: char) -> bool {
    ('0' <= c && c <= '9') || ('a' <= c && c <= 'f')
}

/// `text` has the layout in which a UUID is displayed: 36 characters, a
/// hyphen after the 8th, 12th, 16th and 20th digit, and lower-case
/// hexadecimal digits everywhere else.
pub open spec fn is_hyphenated(text: Seq<char>) -> bool {
    &&& text.len() == 36
    &&& forall|i: int|
        0 <= i < 36 ==> if i == 8 || i == 13 || i == 18 || i == 23 {
            #[trigger] text[i] == '-'
        } else {
            is_lower_hex(text[i])
        }
}

/// Calls `uuid::Uuid::parse_str` and hands out the value with `as_u128`.
///
/// Trusted: the result is what the parser reads from `text`.
#[verifier::external_body]
fn parse_uuid(text: &str) -> (value: Option<u128>)
    ensures
        value == uuid_value(text@),
{
    match uuid::Uuid::parse_str(text) {
        Ok(id) => Some(id.as_u128()),
        Err(_) => None,
    }
}

/// Calls `to_string` on the `uuid::Uuid` made from `value` by `from_u128`.
///
/// Trusted: the result is the displayed form of `value`, it has the
/// hyphenated lower-case layout, and the parser reads it back as `value`.
#[verifier::external_body]
fn format_uuid(value: u128) -> (text: String)
    ensures
        text@ == uuid_text(value),
        is_hyphenated(text@),
        uuid_value(text@) == Some(value),
{
    uuid::Uuid::from_u128(value).to_string()
}

/// Calls `uuid::Uuid::new_v4` and hands out the value with `as_u128`.
///
/// Trusted: nothing is claimed of the value; it is drawn at random.
#[verifier::external_body]
fn random_uuid() -> u128 {
    uuid::Uuid::new_v4().as_u128()
}

/// Calls `gen_range` on `rand::thread_rng()` with the inclusive range
/// `low..=high`.
///
/// Trusted: the draw lies in the range. The range must not be empty, on
/// which `gen_range` panics.
#[verifier::external_body]
fn random_in_range(low: u32, high: u32) -> (drawn: u32)
    requires
        low <= high,
    ensures
        low <= drawn <= high,
{
    rand::Rng::gen_range(&mut rand::thread_rng(), low..=high)
}

/// Why a text was refused as a challenge identifier.
#[derive(Debug, Clone, Copy, PartialEq, Eq, Structural)]
pub enum LoginAttemptIdError {
    /// The text is not a UUID.
    Invalid,
}

impl LoginAttemptIdError {
    /// The message shown for this error.
    pub fn to_string(&self) -> (message: String)
        ensures
            message@ == "Invalid login attempt id"@,
    {
        "Invalid login attempt id".to_owned()
    }
}

/// Identifies one login attempt that awaits its second factor: a UUID in
/// its displayed form.
pub struct LoginAttemptId(String);

impl View for LoginAttemptId {
    type V = Seq<char>;

    closed spec fn view(&self) -> Seq<char> {
        self.0@
    }
}

/// `text` is the displayed form of some UUID: it has the hyphenated layout
/// and reads back as that UUID.
pub open spec fn is_login_attempt_id(text: Seq<char>) -> bool {
    &&& is_hyphenated(text)
    &&& exists|value: u128| text == #[trigger] uuid_text(value) && uuid_value(text) == Some(value)
}

impl LoginAttemptId {
    #[verifier::type_invariant]
    spec fn well_formed(&self) -> bool {
        is_login_attempt_id(self.0@)
    }

    /// Accepts `id` exactly when it reads as a UUID, and keeps the UUID's
    /// displayed form, whatever layout `id` came in.
    pub fn parse(id: String) -> (result: Result<LoginAttemptId, LoginAttemptIdError>)
        ensures
            match uuid_value(id@) {
                Some(value) => result matches Ok(parsed) && parsed@ == uuid_text(value),
                None => result is Err,
            },
            result matches Ok(parsed) ==> is_login_attempt_id(parsed@),
    {
        match parse_uuid(id.as_str()) {
            Some(value) => Ok(LoginAttemptId(format_uuid(value))),
            None => Err(LoginAttemptIdError::Invalid),
        }
    }

    /// The identifier's text.
    pub fn as_ref(&self) -> (text: &str)
        ensures
            text@ == self@,
            is_login_attempt_id(text@),
    {
        proof {
            use_type_invariant(self);
        }
        self.0.as_str()
    }
}

impl Default for LoginAttemptId {
    /// A fresh identifier, drawn at random.
    fn default() -> (fresh: Self)
        ensures
            is_login_attempt_id(fresh@),
    {
        LoginAttemptId(format_uuid(random_uuid()))
    }
}

impl Clone for LoginAttemptId {
    fn clone(&self) -> (copy: Self)
        ensures
            copy@ == self@,
    {
        proof {
            use_type_invariant(self);
        }
        LoginAttemptId(self.0.clone())
    }
}

impl PartialEq for LoginAttemptId {
    fn eq(&self, other: &Self) -> (same: bool) {
        self.0 == other.0
    }
}

impl vstd::std_specs::cmp::PartialEqSpecImpl for LoginAttemptId {
    open spec fn obeys_eq_spec() -> bool {
        true
    }

    open spec fn eq_spec(&self, other: &Self) -> bool {
        self@ == other@
    }
}

/// The number of digits in a code.
pub const CODE_LENGTH: usize = 6;

/// The smallest number a fresh code is drawn from.
pub const CODE_MIN: u32 = 100_000;

/// The largest number a fresh code is drawn from.
pub const CODE_MAX: u32 = 999_999;

/// `text` is exactly six ASCII digits.
pub open spec fn is_two_fa_code(text: Seq<char>) -> bool {
    &&& text.len() == CODE_LENGTH
    &&& forall|i: int| 0 <= i < text.len() ==> is_ascii_digit(#[trigger] text[i])
}

/// The character for the decimal digit `digit`.
pub open spec fn decimal_digit(digit: int) -> char {
    if digit == 0 {
        '0'
    } else if digit == 1 {
        '1'
    } else if digit == 2 {
        '2'
    } else if digit == 3 {
        '3'
    } else if digit == 4 {
        '4'
    } else if digit == 5 {
        '5'
    } else if digit == 6 {
        '6'
    } else if digit == 7 {
        '7'
    } else if digit == 8 {
        '8'
    } else {
        '9'
    }
}

/// The six decimal digits of `number`, most significant first.
pub open spec fn six_digits(number: int) -> Seq<char> {
    seq![
        decimal_digit(number / 100_000 % 10),
        decimal_digit(number / 10_000 % 10),
        decimal_digit(number / 1_000 % 10),
        decimal_digit(number / 100 % 10),
        decimal_digit(number / 10 % 10),
        decimal_digit(number % 10),
    ]
}

/// `text` spells a number that a fresh code can be drawn from.
pub open spec fn is_fresh_code(text: Seq<char>) -> bool {
    exists|number: int| CODE_MIN <= number <= CODE_MAX && text == #[trigger] six_digits(number)
}

/// Why a text was refused as a code.
#[derive(Debug, Clone, Copy, PartialEq, Eq, Structural)]
pub enum TwoFACodeError {
    /// The text is not six ASCII digits.
    Invalid,
}

impl TwoFACodeError {
    /// The message shown for this error.
    pub fn to_string(&self) -> (message: String)
        ensures
            message@ == "Invalid TwoFACode format"@,
    {
        "Invalid TwoFACode format".to_owned()
    }
}

/// The text of one decimal digit.
fn digit_text(digit: u32) -> (text: &'static str)
    requires
        digit < 10,
    ensures
        text@ == seq![decimal_digit(digit as int)],
{
    proof {
        reveal_strlit("0");
        reveal_strlit("1");
        reveal_strlit("2");
        reveal_strlit("3");
        reveal_strlit("4");
        reveal_strlit("5");
        reveal_strlit("6");
        reveal_strlit("7");
        reveal_strlit("8");
        reveal_strlit("9");
    }
    let text = if digit == 0 {
        "0"
    } else if digit == 1 {
        "1"
    } else if digit == 2 {
        "2"
    } else if digit == 3 {
        "3"
    } else if digit == 4 {
        "4"
    } else if digit == 5 {
        "5"
    } else if digit == 6 {
        "6"
    } else if digit == 7 {
        "7"
    } else if digit == 8 {
        "8"
    } else {
        "9"
    };
    assert(text@ =~= seq![decimal_digit(digit as int)]);
    text
}

/// The second factor of one login attempt: six ASCII digits.
pub struct TwoFACode(String);

impl View for TwoFACode {
    type V = Seq<char>;

    closed spec fn view(&self) -> Seq<char> {
        self.0@
    }
}

impl TwoFACode {
    #[verifier::type_invariant]
    spec fn well_formed(&self) -> bool {
        is_two_fa_code(self.0@)
    }

    /// Accepts `code` exactly when it is six ASCII digits, and keeps it
    /// unchanged.
    pub fn parse(code: String) -> (result: Result<TwoFACode, TwoFACodeError>)
        ensures
            result is Ok <==> is_two_fa_code(code@),
            result matches Ok(parsed) ==> parsed@ == code@,
    {
        let text = code.as_str();
        if text.unicode_len() != CODE_LENGTH {
            return Err(TwoFACodeError::Invalid);
        }
        let mut i: usize = 0;
        while i < CODE_LENGTH
            invariant
                i <= CODE_LENGTH,
                text@ == code@,
                text@.len() == CODE_LENGTH,
                forall|j: int| 0 <= j < i ==> is_ascii_digit(#[trigger] text@[j]),
            decreases CODE_LENGTH - i,
        {
            let c = text.get_char(i);
            if !(c >= '0' && c <= '9') {
                assert(!is_ascii_digit(text@[i as int]));
                return Err(TwoFACodeError::Invalid);
            }
            i += 1;
        }
        Ok(TwoFACode(code))
    }

    /// The code made of the last six decimal digits of `number`.
    pub fn from_number(number: u32) -> (code: TwoFACode)
        ensures
            code@ == six_digits(number as int),
    {
        let mut text = String::new();
        text.append(digit_text(number / 100_000 % 10));
        text.append(digit_text(number / 10_000 % 10));
        text.append(digit_text(number / 1_000 % 10));
        text.append(digit_text(number / 100 % 10));
        text.append(digit_text(number / 10 % 10));
        text.append(digit_text(number % 10));
        assert(text@ =~= six_digits(number as int));
        TwoFACode(text)
    }

    /// The code's text.
    pub fn as_ref(&self) -> (text: &str)
        ensures
            text@ == self@,
            is_two_fa_code(text@),
    {
        proof {
            use_type_invariant(self);
        }
        self.0.as_str()
    }
}

impl Default for TwoFACode {
    /// A fresh code, drawn uniformly from [`CODE_MIN`] to [`CODE_MAX`], both
    /// included.
    fn default() -> (fresh: Self)
        ensures
            is_fresh_code(fresh@),
            is_two_fa_code(fresh@),
    {
        let number = random_in_range(CODE_MIN, CODE_MAX);
        let fresh = TwoFACode::from_number(number);
        assert(fresh@ == six_digits(number as int));
        proof {
            use_type_invariant(&fresh);
        }
        fresh
    }
}

impl Clone for TwoFACode {
    fn clone(&self) -> (copy: Self)
        ensures
            copy@ == self@,
    {
        proof {
            use_type_invariant(self);
        }
        TwoFACode(self.0.clone())
    }
}

impl PartialEq for TwoFACode {
    fn eq(&self, other: &Self) -> (same: bool) {
        self.0 == other.0
    }
}

impl vstd::std_specs::cmp::PartialEqSpecImpl for TwoFACode {
    open spec fn obeys_eq_spec() -> bool {
        true
    }

    open spec fn eq_spec(&self, other: &Self) -> bool {
        self@ == other@
    }
}

} // verus!
