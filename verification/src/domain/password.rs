//! Passwords and the registration policy.

use vstd::prelude::*;
use vstd::std_specs::cmp::PartialEqSpecImpl;
use crate::utils::text::chars_of;

verus! {

/// What `char::is_uppercase` returns: the Unicode property `Uppercase`.
pub uninterp spec fn char_is_uppercase(c: char) -> bool;

/// What `char::is_lowercase` returns: the Unicode property `Lowercase`.
pub uninterp spec fn char_is_lowercase(c: char) -> bool;

/// What `char::is_numeric` returns: membership in one of the Unicode general
/// categories for numbers.
pub uninterp spec fn char_is_numeric(c: char) -> bool;

/// What `char::is_alphanumeric` returns: alphabetic or numeric in the sense
/// of Unicode.
pub uninterp spec fn char_is_alphanumeric(c: char) -> bool;

/// `char::is_uppercase`, whose result is named `char_is_uppercase`.
pub assume_specification[ char::is_uppercase ](c: char) -> (b: bool)
    ensures
        b == char_is_uppercase(c),
;

/// `char::is_lowercase`, whose result is named `char_is_lowercase`.
pub assume_specification[ char::is_lowercase ](c: char) -> (b: bool)
    ensures
        b == char_is_lowercase(c),
;

/// `char::is_numeric`, whose result is named `char_is_numeric`.
pub assume_specification[ char::is_numeric ](c: char) -> (b: bool)
    ensures
        b == char_is_numeric(c),
;

/// `char::is_alphanumeric`, whose result is named `char_is_alphanumeric`.
pub assume_specification[ char::is_alphanumeric ](c: char) -> (b: bool)
    ensures
        b == char_is_alphanumeric(c),
;

/// The least number of characters a password may have.
pub const MIN_PASSWORD_LENGTH: usize = 8;

/// The rule of the password policy that a text breaks.
#[derive(Debug, Clone, Copy, PartialEq, Eq, Structural)]
pub enum PasswordError {
    /// Fewer than eight characters.
    TooShort,
    /// No uppercase letter.
    MissingUppercase,
    /// No lowercase letter.
    MissingLowercase,
    /// No digit.
    MissingDigit,
    /// No character other than letters and digits.
    MissingSpecial,
}

impl PasswordError {
    /// The sentence that names the broken rule.
    pub fn message(&self) -> (m: &'static str)
        ensures
            m@ == match *self {
                PasswordError::TooShort => "Password must be at least 8 characters long."@,
                PasswordError::MissingUppercase => "Password must contain at least one uppercase letter."@,
                PasswordError::MissingLowercase => "Password must contain at least one lowercase letter."@,
                PasswordError::MissingDigit => "Password must contain at least one digit."@,
                PasswordError::MissingSpecial => "Password must contain at least one special character."@,
            },
    {
        match self {
            PasswordError::TooShort => "Password must be at least 8 characters long.",
            PasswordError::MissingUppercase => "Password must contain at least one uppercase letter.",
            PasswordError::MissingLowercase => "Password must contain at least one lowercase letter.",
            PasswordError::MissingDigit => "Password must contain at least one digit.",
            PasswordError::MissingSpecial => "Password must contain at least one special character.",
        }
    }
}

/// The four classes of characters that the policy asks for.
pub enum CharClass {
    /// Uppercase letters.
    Uppercase,
    /// Lowercase letters.
    Lowercase,
    /// Digits.
    Digit,
    /// Everything that is neither a letter nor a digit.
    Special,
}

/// Whether `c` belongs to `class`.
pub open spec fn in_class(c: char, class: CharClass) -> bool {
    match class {
        CharClass::Uppercase => char_is_uppercase(c),
        CharClass::Lowercase => char_is_lowercase(c),
        CharClass::Digit => char_is_numeric(c),
        CharClass::Special => !char_is_alphanumeric(c),
    }
}

/// Some character of `text` belongs to `class`.
pub open spec fn has_class(text: Seq<char>, class: CharClass) -> bool {
    exists|i: int| 0 <= i < text.len() && in_class(#[trigger] text[i], class)
}

/// Some character of `text` is an uppercase letter.
pub open spec fn has_uppercase(text: Seq<char>) -> bool {
    has_class(text, CharClass::Uppercase)
}

/// Some character of `text` is a lowercase letter.
pub open spec fn has_lowercase(text: Seq<char>) -> bool {
    has_class(text, CharClass::Lowercase)
}

/// Some character of `text` is a digit.
pub open spec fn has_digit(text: Seq<char>) -> bool {
    has_class(text, CharClass::Digit)
}

/// Some character of `text` is neither a letter nor a digit.
pub open spec fn has_special(text: Seq<char>) -> bool {
    has_class(text, CharClass::Special)
}

/// A text extended by one character holds a character of `class` exactly
/// when the text did or the new character is one.
proof fn lemma_has_class_push(text: Seq<char>, c: char, class: CharClass)
    ensures
        has_class(text.push(c), class) == (has_class(text, class) || in_class(c, class)),
{
    let longer = text.push(c);
    if has_class(text, class) {
        let j = choose|j: int| 0 <= j < text.len() && in_class(#[trigger] text[j], class);
        assert(in_class(longer[j], class));
    }
    if in_class(c, class) {
        assert(in_class(longer[text.len() as int], class));
    }
    if has_class(longer, class) && !in_class(c, class) {
        let j = choose|j: int| 0 <= j < longer.len() && in_class(#[trigger] longer[j], class);
        assert(in_class(text[j], class));
    }
}

/// The first rule that `text` breaks, the rules taken in the order length,
/// uppercase, lowercase, digit, special character; `None` when it breaks
/// none.
pub open spec fn policy_violation(text: Seq<char>) -> Option<PasswordError> {
    if text.len() < MIN_PASSWORD_LENGTH {
        Some(PasswordError::TooShort)
    } else if !has_uppercase(text) {
        Some(PasswordError::MissingUppercase)
    } else if !has_lowercase(text) {
        Some(PasswordError::MissingLowercase)
    } else if !has_digit(text) {
        Some(PasswordError::MissingDigit)
    } else if !has_special(text) {
        Some(PasswordError::MissingSpecial)
    } else {
        None
    }
}

/// `text` satisfies every rule of the password policy.
pub open spec fn meets_policy(text: Seq<char>) -> bool {
    policy_violation(text) is None
}

/// The boundary of the length rule: a text of seven characters is too
/// short whatever it holds, and a text of eight characters that holds a
/// character of each class meets the policy.
pub proof fn lemma_length_boundary(text: Seq<char>)
    ensures
        text.len() == 7 ==> policy_violation(text) == Some(PasswordError::TooShort),
        text.len() == 8 && has_uppercase(text) && has_lowercase(text) && has_digit(text)
            && has_special(text) ==> meets_policy(text),
        text.len() < MIN_PASSWORD_LENGTH ==> !meets_policy(text),
{
}

/// A password that satisfies the registration policy. It has no `Debug`
/// form, so it cannot end up in a log by accident.
pub struct Password(String);

impl View for Password {
    type V = Seq<char>;

    closed spec fn view(&self) -> Seq<char> {
        self.0@
    }
}

impl Password {
    #[verifier::type_invariant]
    spec fn well_formed(self) -> bool {
        meets_policy(self.0@)
    }

    /// Accepts `s` exactly when it breaks no rule of the policy, and then
    /// keeps it unchanged; otherwise reports the first rule that it breaks.
    pub fn parse(s: String) -> (r: Result<Password, PasswordError>)
        ensures
            match r {
                Ok(password) => policy_violation(s@) is None && password@ == s@,
                Err(e) => policy_violation(s@) == Some(e),
            },
    {
        let chars = chars_of(s.as_str());
        if chars.len() < MIN_PASSWORD_LENGTH {
            return Err(PasswordError::TooShort);
        }
        let mut upper = false;
        let mut lower = false;
        let mut digit = false;
        let mut special = false;
        let mut i: usize = 0;
        while i < chars.len()
            invariant
                i <= chars.len(),
                upper == has_uppercase(chars@.take(i as int)),
                lower == has_lowercase(chars@.take(i as int)),
                digit == has_digit(chars@.take(i as int)),
                special == has_special(chars@.take(i as int)),
            decreases chars.len() - i,
        {
            let c = chars[i];
            proof {
                let before = chars@.take(i as int);
                assert(chars@.take(i + 1) == before.push(c));
                lemma_has_class_push(before, c, CharClass::Uppercase);
                lemma_has_class_push(before, c, CharClass::Lowercase);
                lemma_has_class_push(before, c, CharClass::Digit);
                lemma_has_class_push(before, c, CharClass::Special);
            }
            upper = upper || c.is_uppercase();
            lower = lower || c.is_lowercase();
            digit = digit || c.is_numeric();
            special = special || !c.is_alphanumeric();
            i += 1;
        }
        assert(chars@.take(chars.len() as int) == s@);
        if !upper {
            Err(PasswordError::MissingUppercase)
        } else if !lower {
            Err(PasswordError::MissingLowercase)
        } else if !digit {
            Err(PasswordError::MissingDigit)
        } else if !special {
            Err(PasswordError::MissingSpecial)
        } else {
            Ok(Password(s))
        }
    }

}

impl AsRef<str> for Password {
    /// The password as text. It always satisfies the policy.
    fn as_ref(&self) -> (s: &str)
        ensures
            s@ == self@,
            meets_policy(s@),
    {
        proof {
            use_type_invariant(self);
        }
        self.0.as_str()
    }
}

impl Clone for Password {
    fn clone(&self) -> (r: Self)
        ensures
            r@ == self@,
    {
        proof {
            use_type_invariant(self);
        }
        Password(self.0.clone())
    }
}

impl PartialEq for Password {
    fn eq(&self, other: &Self) -> (r: bool) {
        self.0 == other.0
    }
}

impl PartialEqSpecImpl for Password {
    open spec fn obeys_eq_spec() -> bool {
        true
    }

    open spec fn eq_spec(&self, other: &Self) -> bool {
        self@ == other@
    }
}

} // verus!
