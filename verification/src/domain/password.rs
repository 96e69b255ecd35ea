//! Passwords and the policy a text must meet to become one.

use vstd::prelude::*;
use vstd::string::StringSliceAdditionalSpecFns;

verus! {

/// Whether `char::is_alphanumeric` holds of `c`: whether Unicode counts `c`
/// among the letters or the numbers, by tables too long to restate here.
pub uninterp spec fn char_is_alphanumeric(c: char) -> bool;

/// Calls `char::is_alphanumeric`.
///
/// Trusted: the result is that method's verdict on `c`.
#[verifier::external_body]
fn is_alphanumeric(c: char) -> (yes: bool)
    ensures
        yes == char_is_alphanumeric(c),
{
    c.is_alphanumeric()
}

/// The ASCII digits `0` to `9`.
pub open spec fn is_ascii_digit(c: char) -> bool {
    '0' <= c && c <= '9'
}

/// Some character of `text` is an ASCII digit.
pub open spec fn has_digit(text: Seq<char>) -> bool {
    exists|i: int| 0 <= i < text.len() && is_ascii_digit(#[trigger] text[i])
}

/// Some character of `text` is neither a letter nor a number.
pub open spec fn has_special(text: Seq<char>) -> bool {
    exists|i: int| 0 <= i < text.len() && !char_is_alphanumeric(#[trigger] text[i])
}

/// The shortest password, counted in bytes of its UTF-8 form.
pub const MIN_PASSWORD_BYTES: usize = 8;

/// Why a text was refused as a password.
#[derive(Debug, Clone, Copy, PartialEq, Eq, Structural)]
pub enum PasswordError {
    /// Fewer than [`MIN_PASSWORD_BYTES`] bytes.
    TooShort,
    /// No ASCII digit.
    MissingNumber,
    /// Only letters and numbers.
    MissingSpecialCharacter,
}

impl PasswordError {
    /// The message shown for this error.
    pub fn to_string(&self) -> (message: String)
        ensures
            message@ == match *self {
                PasswordError::TooShort => "Password must be at least 8 characters long"@,
                PasswordError::MissingNumber => "Password must contain at least 1 number"@,
                PasswordError::MissingSpecialCharacter =>
                    "Password must contain at least 1 special character"@,
            },
    {
        match self {
            PasswordError::TooShort => "Password must be at least 8 characters long".to_owned(),
            PasswordError::MissingNumber => "Password must contain at least 1 number".to_owned(),
            PasswordError::MissingSpecialCharacter => {
                "Password must contain at least 1 special character".to_owned()
            },
        }
    }
}

/// The policy's verdict from the three facts it looks at, in the order in
/// which it reports them: length first, then the digit, then the special
/// character.
pub open spec fn verdict(byte_len: nat, digit: bool, special: bool) -> Result<(), PasswordError> {
    if byte_len < MIN_PASSWORD_BYTES {
        Err(PasswordError::TooShort)
    } else if !digit {
        Err(PasswordError::MissingNumber)
    } else if !special {
        Err(PasswordError::MissingSpecialCharacter)
    } else {
        Ok(())
    }
}

/// The length of `text` in bytes of its UTF-8 form.
pub open spec fn byte_len(text: Seq<char>) -> nat {
    vstd::utf8::encode_utf8(text).len()
}

/// The policy's verdict on `text`.
pub open spec fn policy(text: Seq<char>) -> Result<(), PasswordError> {
    verdict(byte_len(text), has_digit(text), has_special(text))
}

/// Decides from the three facts alone; see [`verdict`].
pub fn password_verdict(byte_len: usize, digit: bool, special: bool) -> (result: Result<
    (),
    PasswordError,
>)
    ensures
        result == verdict(byte_len as nat, digit, special),
{
    if byte_len < MIN_PASSWORD_BYTES {
        Err(PasswordError::TooShort)
    } else if !digit {
        Err(PasswordError::MissingNumber)
    } else if !special {
        Err(PasswordError::MissingSpecialCharacter)
    } else {
        Ok(())
    }
}

/// A text that met the password policy.
pub struct Password(String);

impl View for Password {
    type V = Seq<char>;

    closed spec fn view(&self) -> Seq<char> {
        self.0@
    }
}

impl Password {
    #[verifier::type_invariant]
    spec fn well_formed(&self) -> bool {
        policy(self.0@) is Ok
    }

    /// Accepts `password` exactly when it meets the policy, keeping the text
    /// unchanged; otherwise reports the first rule it breaks.
    pub fn parse(password: &str) -> (result: Result<Password, PasswordError>)
        ensures
            match result {
                Ok(parsed) => policy(password@) is Ok && parsed@ == password@,
                Err(e) => policy(password@) == Err::<(), PasswordError>(e),
            },
    {
        broadcast use vstd::string::group_string_axioms;

        let mut digit = false;
        let mut special = false;
        for c in it: password.chars()
            invariant
                it.seq() == password@,
                digit == has_digit(password@.take(it.index() as int)),
                special == has_special(password@.take(it.index() as int)),
        {
            let ghost i = it.index() as int;
            let ghost before = password@.take(i);
            let ghost after = password@.take(i + 1);
            assert(after == before.push(c));
            if c >= '0' && c <= '9' {
                digit = true;
                assert(is_ascii_digit(after[i]));
            } else {
                assert forall|j: int| 0 <= j < after.len() && is_ascii_digit(
                    #[trigger] after[j],
                ) implies has_digit(before) by {
                    assert(before[j] == after[j]);
                }
            }
            if !is_alphanumeric(c) {
                special = true;
                assert(!char_is_alphanumeric(after[i]));
            } else {
                assert forall|j: int| 0 <= j < after.len() && !char_is_alphanumeric(
                    #[trigger] after[j],
                ) implies has_special(before) by {
                    assert(before[j] == after[j]);
                }
            }
        }
        assert(password@.take(password@.len() as int) == password@);
        match password_verdict(password.as_bytes().len(), digit, special) {
            Ok(()) => Ok(Password(password.to_owned())),
            Err(e) => Err(e),
        }
    }

    /// The password's text.
    pub fn as_ref(&self) -> (text: &str)
        ensures
            text@ == self@,
            policy(text@) is Ok,
    {
        proof {
            use_type_invariant(self);
        }
        self.0.as_str()
    }
}

impl Clone for Password {
    fn clone(&self) -> (copy: Self)
        ensures
            copy@ == self@,
    {
        proof {
            use_type_invariant(self);
        }
        Password(self.0.clone())
    }
}

impl PartialEq for Password {
    fn eq(&self, other: &Self) -> (same: bool) {
        self.0 == other.0
    }
}

impl vstd::std_specs::cmp::PartialEqSpecImpl for Password {
    open spec fn obeys_eq_spec() -> bool {
        true
    }

    open spec fn eq_spec(&self, other: &Self) -> bool {
        self@ == other@
    }
}

} // verus!
