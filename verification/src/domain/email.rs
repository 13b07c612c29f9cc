//! E-mail addresses.

use vstd::prelude::*;
use vstd::std_specs::cmp::PartialEqSpecImpl;

verus! {

/// Whether `validator::validate_email` accepts `text`: the address check of
/// the HTML5 specification, whose full statement is left to that crate.
pub uninterp spec fn email_format_ok(text: Seq<char>) -> bool;

/// Calls `validator::validate_email`.
///
/// The result is named `email_format_ok`. Beyond that the contract claims
/// only what the first lines of the outside function show: an empty text and
/// a text without `@` are rejected.
#[verifier::external_body]
fn validate_email_text(text: &str) -> (ok: bool)
    ensures
        ok == email_format_ok(text@),
        ok ==> text@.len() > 0 && text@.contains('@'),
{
    validator::validate_email(text)
}

/// A validated e-mail address. Parsing is the only way to obtain one, so
/// every value holds a text that passed the format check.
#[derive(Debug, Hash)]
pub struct Email(String);

/// The rejection of a text that is not an e-mail address.
#[derive(Debug)]
pub struct InvalidEmail {
    /// The text that was rejected.
    pub input: String,
}

impl InvalidEmail {
    /// A sentence for diagnostics: the rejected text followed by
    /// `" is not a valid email."`.
    pub fn message(&self) -> (m: String)
        ensures
            m@ == self.input@ + " is not a valid email."@,
    {
        let m = self.input.clone();
        m.concat(" is not a valid email.")
    }
}

impl View for Email {
    type V = Seq<char>;

    closed spec fn view(&self) -> Seq<char> {
        self.0@
    }
}

impl Email {
    #[verifier::type_invariant]
    spec fn well_formed(self) -> bool {
        email_format_ok(self.0@)
    }

    /// Accepts `s` exactly when it passes the format check, and then keeps
    /// it unchanged. The empty text and a text without `@` are never
    /// accepted.
    pub fn parse(s: String) -> (r: Result<Email, InvalidEmail>)
        ensures
            match r {
                Ok(email) => email_format_ok(s@) && email@ == s@,
                Err(e) => !email_format_ok(s@) && e.input@ == s@,
            },
            s@.len() == 0 || !s@.contains('@') ==> r is Err,
    {
        if validate_email_text(s.as_str()) {
            Ok(Email(s))
        } else {
            Err(InvalidEmail { input: s })
        }
    }

}

impl AsRef<str> for Email {
    /// The address as text. It always satisfies the format check.
    fn as_ref(&self) -> (s: &str)
        ensures
            s@ == self@,
            email_format_ok(s@),
    {
        proof {
            use_type_invariant(self);
        }
        self.0.as_str()
    }
}

impl Clone for Email {
    fn clone(&self) -> (r: Self)
        ensures
            r@ == self@,
    {
        proof {
            use_type_invariant(self);
        }
        Email(self.0.clone())
    }
}

impl PartialEq for Email {
    fn eq(&self, other: &Self) -> (r: bool) {
        self.0 == other.0
    }
}

impl Eq for Email {

}

impl PartialEqSpecImpl for Email {
    open spec fn obeys_eq_spec() -> bool {
        true
    }

    open spec fn eq_spec(&self, other: &Self) -> bool {
        self@ == other@
    }
}

} // verus!
