//! The contract of the collaborator that delivers messages out of band.

use vstd::prelude::*;
use crate::domain::email::Email;

verus! {

/// A message as it was handed over for delivery.
pub struct EmailMessage {
    pub recipient: Seq<char>,
    pub subject: Seq<char>,
    pub content: Seq<char>,
}

/// Delivers messages to principals. How a message travels is the
/// collaborator's concern; whether it was taken is not promised, and an
/// error carries a description of its cause.
pub trait EmailClient {
    /// The messages that this client has accepted for delivery, oldest
    /// first. A client that gives no model of itself leaves this open.
    open spec fn sent(&self) -> Seq<EmailMessage> {
        arbitrary()
    }

    /// Hands one message over. It counts as sent exactly when the client
    /// accepts it.
    fn send_email(&mut self, recipient: &Email, subject: &str, content: &str) -> (r: Result<
        (),
        String,
    >)
        ensures
            final(self).sent() == if r is Ok {
                old(self).sent().push(
                    EmailMessage { recipient: recipient@, subject: subject@, content: content@ },
                )
            } else {
                old(self).sent()
            },
    ;
}

} // verus!
