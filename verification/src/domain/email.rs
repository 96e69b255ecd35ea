//! Identities: address-like strings that passed format validation.

use vstd::prelude::*;

verus! {

/// Whether `validator::validate_email` accepts `text`. The verdict depends on
/// the text alone; it is left uninterpreted because it rests on the address
/// grammar and on IDNA, which are too long to restate here.
pub uninterp spec fn email_format_ok(text: Seq<char>) -> bool;

/// Calls `validator::validate_email`.
///
/// Trusted: the result is the validator's verdict on `text`, and an accepted
/// text is non-empty and contains `@` (the validator rejects anything else
/// before it looks at the two parts).
#[verifier::external_body]
fn check_email_format(text: &str) -> (ok: bool)
    ensures
        ok == email_format_ok(text@),
        ok ==> text@.len() > 0 && text@.contains('@'),
{
    validator::validate_email(text)
}

/// Why a text was refused as an identity.
#[derive(Debug, Clone, Copy, PartialEq, Eq, Structural)]
pub enum EmailError {
    /// The text is not a well-formed address.
    InvalidFormat,
}

impl EmailError {
    /// The message shown for this error.
    pub fn to_string(&self) -> (message: String)
        ensures
            message@ == "Invalid email format"@,
    {
        "Invalid email format".to_owned()
    }
}

/// A validated identity. Immutable once parsed; two identities are the same
/// exactly when their texts are equal, case included, and equal identities
/// hash alike.
#[derive(Hash)]
pub struct Email(String);

impl View for Email {
    type V = Seq<char>;

    closed spec fn view(&self) -> Seq<char> {
        self.0@
    }
}

impl Email {
    #[verifier::type_invariant]
    spec fn well_formed(&self) -> bool {
        &&& email_format_ok(self.0@)
        &&& self.0@.len() > 0
        &&& self.0@.contains('@')
    }

    /// Accepts `email` as an identity exactly when the validator accepts it,
    /// and keeps the text unchanged.
    pub fn parse(email: &str) -> (result: Result<Email, EmailError>)
        ensures
            result is Ok <==> email_format_ok(email@),
            result matches Ok(parsed) ==> parsed@ == email@,
    {
        if check_email_format(email) {
            Ok(Email(email.to_owned()))
        } else {
            Err(EmailError::InvalidFormat)
        }
    }

    /// The identity's text: non-empty and validator-approved, whatever
    /// identity this is.
    pub fn as_ref(&self) -> (text: &str)
        ensures
            text@ == self@,
            email_format_ok(text@),
            text@.len() > 0,
            text@.contains('@'),
    {
        proof {
            use_type_invariant(self);
        }
        self.0.as_str()
    }
}

impl Clone for Email {
    fn clone(&self) -> (copy: Self)
        ensures
            copy@ == self@,
    {
        proof {
            use_type_invariant(self);
        }
        Email(self.0.clone())
    }
}

impl PartialEq for Email {
    fn eq(&self, other: &Self) -> (same: bool) {
        self.0 == other.0
    }
}

impl Eq for Email {}

impl vstd::std_specs::cmp::PartialEqSpecImpl for Email {
    open spec fn obeys_eq_spec() -> bool {
        true
    }

    open spec fn eq_spec(&self, other: &Self) -> bool {
        self@ == other@
    }
}

} // verus!
