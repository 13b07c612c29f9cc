//! An e-mail client that delivers nothing and remembers everything.

use vstd::prelude::*;
use crate::domain::email::Email;
use crate::domain::email_client::EmailClient;
use crate::domain::email_client::EmailMessage;

verus! {

/// A message that the mock client was handed.
pub struct RecordedEmail {
    pub recipient: String,
    pub subject: String,
    pub content: String,
}

impl View for RecordedEmail {
    type V = EmailMessage;

    open spec fn view(&self) -> EmailMessage {
        EmailMessage { recipient: self.recipient@, subject: self.subject@, content: self.content@ }
    }
}

/// A client that accepts every message and keeps it in memory, for use
/// where no message should leave the process.
pub struct MockEmailClient {
    outbox: Vec<RecordedEmail>,
}

impl MockEmailClient {
    /// A client that has not been handed anything yet.
    pub fn new() -> (client: MockEmailClient)
        ensures
            client.sent() == Seq::<EmailMessage>::empty(),
    {
        let client = MockEmailClient { outbox: Vec::new() };
        assert(client.sent() =~= Seq::<EmailMessage>::empty());
        client
    }

    /// How many messages the client has been handed.
    pub fn count(&self) -> (n: usize)
        ensures
            n == self.sent().len(),
    {
        self.outbox.len()
    }

    /// The message that was handed over last.
    pub fn last(&self) -> (r: Option<&RecordedEmail>)
        ensures
            match r {
                Some(message) => self.sent().len() > 0 && message@ == self.sent().last(),
                None => self.sent().len() == 0,
            },
    {
        let n = self.outbox.len();
        if n == 0 {
            None
        } else {
            Some(&self.outbox[n - 1])
        }
    }
}

impl Default for MockEmailClient {
    fn default() -> (client: MockEmailClient)
        ensures
            client.sent() == Seq::<EmailMessage>::empty(),
    {
        MockEmailClient::new()
    }
}

impl EmailClient for MockEmailClient {
    closed spec fn sent(&self) -> Seq<EmailMessage> {
        self.outbox@.map_values(|message: RecordedEmail| message@)
    }

    fn send_email(&mut self, recipient: &Email, subject: &str, content: &str) -> (r: Result<
        (),
        String,
    >)
        ensures
            r is Ok,
    {
        let message = RecordedEmail {
            recipient: String::from_str(recipient.as_ref()),
            subject: String::from_str(subject),
            content: String::from_str(content),
        };
        self.outbox.push(message);
        assert(final(self).sent() =~= old(self).sent().push(
            EmailMessage { recipient: recipient@, subject: subject@, content: content@ },
        ));
        Ok(())
    }
}

} // verus!
