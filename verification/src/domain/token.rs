//! The session credential as callers hold it.

use vstd::prelude::*;
use vstd::std_specs::cmp::PartialEqSpecImpl;
use crate::utils::text::chars_of;

verus! {

/// What `char::is_whitespace` returns: the Unicode property `White_Space`.
pub uninterp spec fn char_is_whitespace(c: char) -> bool;

/// `char::is_whitespace`, whose result is named `char_is_whitespace`.
pub assume_specification[ char::is_whitespace ](c: char) -> (b: bool)
    ensures
        b == char_is_whitespace(c),
;

/// `text` holds nothing but white space; the empty text is blank.
pub open spec fn is_blank(text: Seq<char>) -> bool {
    forall|i: int| 0 <= i < text.len() ==> char_is_whitespace(#[trigger] text[i])
}

/// A bearer token in its serialized form. The text is opaque: only the token
/// service can tell what it holds.
#[derive(Debug, Hash)]
pub struct Token(pub String);

impl View for Token {
    type V = Seq<char>;

    open spec fn view(&self) -> Seq<char> {
        self.0@
    }
}

impl Token {
    /// Accepts every text that is not blank, and keeps it unchanged. A blank
    /// text is rejected with the message `"Token cannot be empty"`.
    pub fn parse(token: &str) -> (r: Result<Token, &'static str>)
        ensures
            match r {
                Ok(t) => !is_blank(token@) && t@ == token@,
                Err(message) => is_blank(token@) && message@ == "Token cannot be empty"@,
            },
    {
        let chars = chars_of(token);
        let mut i: usize = 0;
        while i < chars.len()
            invariant
                i <= chars.len(),
                chars@ == token@,
                is_blank(chars@.take(i as int)),
            decreases chars.len() - i,
        {
            if !chars[i].is_whitespace() {
                return Ok(Token(String::from_str(token)));
            }
            i += 1;
        }
        assert(chars@.take(chars.len() as int) == chars@);
        Err("Token cannot be empty")
    }
}

impl AsRef<str> for Token {
    fn as_ref(&self) -> (s: &str)
        ensures
            s@ == self@,
    {
        self.0.as_str()
    }
}

impl Clone for Token {
    fn clone(&self) -> (r: Self)
        ensures
            r@ == self@,
    {
        Token(self.0.clone())
    }
}

impl PartialEq for Token {
    fn eq(&self, other: &Self) -> (r: bool) {
        self.0 == other.0
    }
}

impl Eq for Token {

}

impl PartialEqSpecImpl for Token {
    open spec fn obeys_eq_spec() -> bool {
        true
    }

    open spec fn eq_spec(&self, other: &Self) -> bool {
        self@ == other@
    }
}

} // verus!
