//! A notifier that delivers nothing.

use vstd::prelude::*;

use crate::domain::email::Email;
use crate::domain::email_client::EmailClient;

verus! {

/// Takes every message and drops it.
pub struct MockEmailClient;

impl EmailClient for MockEmailClient {
    /// It never fails.
    open spec fn may_answer(
        &self,
        to: Seq<char>,
        subject: Seq<char>,
        body: Seq<char>,
        answer: Result<(), String>,
    ) -> bool {
        answer is Ok
    }

    fn send_email(&self, to: &Email, subject: &str, body: &str) -> (answer: Result<(), String>) {
        Ok(())
    }
}

} // verus!
