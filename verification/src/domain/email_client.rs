//! The notifier: hands a message to an identity out of band.

use vstd::prelude::*;

use crate::domain::email::Email;

verus! {

/// Delivers messages. Delivery may fail; the error says why.
pub trait EmailClient {
    /// Whether this notifier can give `answer` when it is asked to send
    /// `body` under `subject` to `to`. A notifier that says nothing can
    /// give any answer.
    open spec fn may_answer(
        &self,
        to: Seq<char>,
        subject: Seq<char>,
        body: Seq<char>,
        answer: Result<(), String>,
    ) -> bool {
        true
    }

    /// Sends `body` under `subject` to `to`.
    fn send_email(&self, to: &Email, subject: &str, body: &str) -> (answer: Result<(), String>)
        ensures
            self.may_answer(to@, subject@, body@, answer),
    ;
}

} // verus!
