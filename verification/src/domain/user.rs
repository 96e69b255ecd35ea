//! Credential records.

use vstd::prelude::*;

use crate::domain::email::Email;
use crate::domain::password::Password;

verus! {

/// What a credential record says, as plain values.
pub struct UserView {
    /// The identity's text.
    pub email: Seq<char>,
    /// The secret's text: the password as submitted, or, once a store has
    /// taken the record in, whatever that store keeps in its place.
    pub password: Seq<char>,
    /// Whether a login must pass a second factor.
    pub requires_2fa: bool,
}

/// One identity with its secret and its second-factor requirement.
pub struct User {
    email: Email,
    password: String,
    requires_2fa: bool,
}

impl View for User {
    type V = UserView;

    closed spec fn view(&self) -> UserView {
        UserView {
            email: self.email@,
            password: self.password@,
            requires_2fa: self.requires_2fa,
        }
    }
}

impl User {
    /// The record made of the three parts.
    pub fn new(email: Email, password: Password, requires_2fa: bool) -> (user: User)
        ensures
            user@ == (UserView { email: email@, password: password@, requires_2fa }),
    {
        User { email, password: password.as_ref().to_owned(), requires_2fa }
    }

    /// The record as a store keeps it: with `password_hash` in the place of
    /// the password.
    pub fn with_hash(email: Email, password_hash: String, requires_2fa: bool) -> (user: User)
        ensures
            user@ == (UserView { email: email@, password: password_hash@, requires_2fa }),
    {
        User { email, password: password_hash, requires_2fa }
    }

    /// The identity's text.
    pub fn email(&self) -> (text: &str)
        ensures
            text@ == self@.email,
    {
        self.email.as_ref()
    }

    /// The identity.
    pub fn identity(&self) -> (email: &Email)
        ensures
            email@ == self@.email,
    {
        &self.email
    }

    /// The secret's text.
    pub fn password(&self) -> (text: &str)
        ensures
            text@ == self@.password,
    {
        self.password.as_str()
    }

    /// Whether a login must pass a second factor.
    pub fn requires_2fa(&self) -> (required: bool)
        ensures
            required == self@.requires_2fa,
    {
        self.requires_2fa
    }
}

impl Clone for User {
    fn clone(&self) -> (copy: Self)
        ensures
            copy@ == self@,
    {
        User {
            email: self.email.clone(),
            password: self.password.clone(),
            requires_2fa: self.requires_2fa,
        }
    }
}

} // verus!
