//! Login-attempt identifiers and one-time codes.

use vstd::prelude::*;
use vstd::std_specs::cmp::PartialEqSpecImpl;
use rand::Rng;
use crate::utils::text::chars_of;

verus! {

/// Why a text is no identifier of the kind asked for.
#[derive(Debug, Clone, Copy, PartialEq, Eq, Structural)]
pub enum IdentifierError {
    /// The text is no UUID.
    InvalidLoginAttemptId,
    /// The text is no six-digit code between 100000 and 999999.
    InvalidTwoFACode,
}

impl IdentifierError {
    /// A short sentence for diagnostics.
    pub fn message(&self) -> (m: &'static str)
        ensures
            m@ == match *self {
                IdentifierError::InvalidLoginAttemptId => "Invalid login attempt id"@,
                IdentifierError::InvalidTwoFACode => "Invalid 2FA code"@,
            },
    {
        match self {
            IdentifierError::InvalidLoginAttemptId => "Invalid login attempt id",
            IdentifierError::InvalidTwoFACode => "Invalid 2FA code",
        }
    }
}

/// What `uuid::Uuid::parse_str` makes of `text`, written back with the
/// UUID's `Display`: the hyphenated lower-case form of the UUID that `text`
/// denotes, or `None` where it denotes none.
pub uninterp spec fn uuid_canonical_text(text: Seq<char>) -> Option<Seq<char>>;

/// `text` is a UUID in hyphenated lower-case form.
pub open spec fn is_login_attempt_id(text: Seq<char>) -> bool {
    uuid_canonical_text(text) == Some(text)
}

/// Calls `uuid::Uuid::parse_str` and renders the UUID with its `Display`.
///
/// The result is named `uuid_canonical_text`. The contract adds one fact,
/// which the documentation of `parse_str` gives: the parser reads every
/// form that the crate writes, so the text that comes back denotes the same
/// UUID and is its own canonical form.
#[verifier::external_body]
fn canonical_uuid(text: &str) -> (r: Option<String>)
    ensures
        match r {
            Some(canonical) => uuid_canonical_text(text@) == Some(canonical@)
                && is_login_attempt_id(canonical@),
            None => uuid_canonical_text(text@) is None,
        },
{
    match uuid::Uuid::parse_str(text) {
        Ok(id) => Some(id.to_string()),
        Err(_) => None,
    }
}

/// Calls `uuid::Uuid::new_v4` and renders the UUID with its `Display`.
///
/// The UUID is random, so the contract says only what holds of every
/// outcome: the text is a UUID in hyphenated lower-case form.
#[verifier::external_body]
fn random_uuid() -> (text: String)
    ensures
        is_login_attempt_id(text@),
{
    uuid::Uuid::new_v4().to_string()
}

/// The identifier of one login attempt that awaits its second factor: a
/// UUID in hyphenated lower-case form.
#[derive(Debug)]
pub struct LoginAttemptId(String);

impl View for LoginAttemptId {
    type V = Seq<char>;

    closed spec fn view(&self) -> Seq<char> {
        self.0@
    }
}

impl LoginAttemptId {
    #[verifier::type_invariant]
    spec fn well_formed(self) -> bool {
        is_login_attempt_id(self.0@)
    }

    /// Accepts every text that denotes a UUID and keeps its canonical form.
    pub fn parse(id: String) -> (r: Result<LoginAttemptId, IdentifierError>)
        ensures
            match r {
                Ok(parsed) => uuid_canonical_text(id@) == Some(parsed@),
                Err(e) => uuid_canonical_text(id@) is None
                    && e == IdentifierError::InvalidLoginAttemptId,
            },
            is_login_attempt_id(id@) ==> r is Ok && r->Ok_0@ == id@,
    {
        match canonical_uuid(id.as_str()) {
            Some(canonical) => Ok(LoginAttemptId(canonical)),
            None => Err(IdentifierError::InvalidLoginAttemptId),
        }
    }
}

impl AsRef<str> for LoginAttemptId {
    /// The identifier as text, always in canonical form.
    fn as_ref(&self) -> (s: &str)
        ensures
            s@ == self@,
            is_login_attempt_id(s@),
    {
        proof {
            use_type_invariant(self);
        }
        self.0.as_str()
    }
}

impl Default for LoginAttemptId {
    /// A fresh random identifier.
    fn default() -> (id: LoginAttemptId)
        ensures
            is_login_attempt_id(id@),
    {
        LoginAttemptId(random_uuid())
    }
}

impl Clone for LoginAttemptId {
    fn clone(&self) -> (r: Self)
        ensures
            r@ == self@,
    {
        proof {
            use_type_invariant(self);
        }
        LoginAttemptId(self.0.clone())
    }
}

impl PartialEq for LoginAttemptId {
    fn eq(&self, other: &Self) -> (r: bool) {
        self.0 == other.0
    }
}

impl PartialEqSpecImpl for LoginAttemptId {
    open spec fn obeys_eq_spec() -> bool {
        true
    }

    open spec fn eq_spec(&self, other: &Self) -> bool {
        self@ == other@
    }
}

/// The least value of a one-time code.
pub const MIN_TWO_FA_CODE: u32 = 100_000;

/// The greatest value of a one-time code.
pub const MAX_TWO_FA_CODE: u32 = 999_999;

/// `c` is one of the ten decimal digits.
pub open spec fn is_decimal_digit(c: char) -> bool {
    '0' <= c <= '9'
}

/// `text` is a one-time code: six decimal digits, the first of them not
/// zero, so that it reads as a number from 100000 to 999999.
pub open spec fn is_two_fa_code(text: Seq<char>) -> bool {
    &&& text.len() == 6
    &&& forall|i: int| 0 <= i < 6 ==> is_decimal_digit(#[trigger] text[i])
    &&& text[0] != '0'
}

/// The character that writes the digit `d`.
pub open spec fn digit_char(d: int) -> char {
    ('0' as int + d) as char
}

/// The six decimal digits of `n`, most significant first.
pub open spec fn code_text(n: int) -> Seq<char> {
    seq![
        digit_char(n / 100_000 % 10),
        digit_char(n / 10_000 % 10),
        digit_char(n / 1_000 % 10),
        digit_char(n / 100 % 10),
        digit_char(n / 10 % 10),
        digit_char(n % 10),
    ]
}

/// The number that the decimal digits of `text` write.
pub open spec fn code_value(text: Seq<char>) -> int
    decreases text.len(),
{
    if text.len() == 0 {
        0
    } else {
        code_value(text.drop_last()) * 10 + (text.last() as int - '0' as int)
    }
}

/// Every number from 100000 to 999999 is written by a one-time code, and
/// that code reads back as the number.
pub proof fn lemma_code_text_is_code(n: int)
    requires
        MIN_TWO_FA_CODE <= n <= MAX_TWO_FA_CODE,
    ensures
        is_two_fa_code(code_text(n)),
        code_value(code_text(n)) == n,
{
    let t = code_text(n);
    assert(t.len() == 6);
    assert forall|i: int| 0 <= i < 6 implies is_decimal_digit(#[trigger] t[i]) by {}
    assert(n / 100_000 % 10 == n / 100_000);
    let t5 = t.drop_last();
    let t4 = t5.drop_last();
    let t3 = t4.drop_last();
    let t2 = t3.drop_last();
    let t1 = t2.drop_last();
    let t0 = t1.drop_last();
    assert(t0.len() == 0);
    assert(code_value(t0) == 0);
    assert(code_value(t1) == n / 100_000);
    assert(code_value(t2) == n / 10_000);
    assert(code_value(t3) == n / 1_000);
    assert(code_value(t4) == n / 100);
    assert(code_value(t5) == n / 10);
}

/// Calls `rand::Rng::gen_range` on the thread-local generator with the
/// inclusive range from `low` to `high`. The outside function panics on an
/// empty range, which `requires` leaves out; the value it returns lies in
/// the range.
#[verifier::external_body]
fn random_in_range(low: u32, high: u32) -> (n: u32)
    requires
        low <= high,
    ensures
        low <= n <= high,
{
    rand::thread_rng().gen_range(low..=high)
}

fn digit_of(d: u32) -> (c: char)
    requires
        d < 10,
    ensures
        c == digit_char(d as int),
{
    let byte: u8 = 48u8 + (d as u8);
    byte as char
}

/// A one-time code: six decimal digits that read as a number from 100000
/// to 999999.
#[derive(Debug)]
pub struct TwoFACode(String);

impl View for TwoFACode {
    type V = Seq<char>;

    closed spec fn view(&self) -> Seq<char> {
        self.0@
    }
}

impl TwoFACode {
    #[verifier::type_invariant]
    spec fn well_formed(self) -> bool {
        is_two_fa_code(self.0@)
    }

    /// Accepts exactly the one-time codes, and keeps the text unchanged.
    pub fn parse(code: String) -> (r: Result<TwoFACode, IdentifierError>)
        ensures
            match r {
                Ok(parsed) => is_two_fa_code(code@) && parsed@ == code@,
                Err(e) => !is_two_fa_code(code@) && e == IdentifierError::InvalidTwoFACode,
            },
    {
        let chars = chars_of(code.as_str());
        if chars.len() != 6 {
            return Err(IdentifierError::InvalidTwoFACode);
        }
        let mut i: usize = 0;
        while i < 6
            invariant
                i <= 6,
                chars@.len() == 6,
                chars@ == code@,
                forall|j: int| 0 <= j < i ==> is_decimal_digit(#[trigger] chars@[j]),
            decreases 6 - i,
        {
            let c = chars[i];
            if c < '0' || c > '9' {
                return Err(IdentifierError::InvalidTwoFACode);
            }
            i += 1;
        }
        if chars[0] == '0' {
            return Err(IdentifierError::InvalidTwoFACode);
        }
        Ok(TwoFACode(code))
    }

    /// The code that writes `n`.
    pub fn from_number(n: u32) -> (code: TwoFACode)
        requires
            MIN_TWO_FA_CODE <= n <= MAX_TWO_FA_CODE,
        ensures
            code@ == code_text(n as int),
    {
        let mut text = String::new();
        text.push(digit_of(n / 100_000 % 10));
        text.push(digit_of(n / 10_000 % 10));
        text.push(digit_of(n / 1_000 % 10));
        text.push(digit_of(n / 100 % 10));
        text.push(digit_of(n / 10 % 10));
        text.push(digit_of(n % 10));
        proof {
            assert(text@ =~= code_text(n as int));
            lemma_code_text_is_code(n as int);
        }
        TwoFACode(text)
    }

    /// The code that writes `n`, where `n` lies between 100000 and 999999.
    pub fn try_from_number(n: u32) -> (r: Option<TwoFACode>)
        ensures
            match r {
                Some(code) => MIN_TWO_FA_CODE <= n <= MAX_TWO_FA_CODE && code@ == code_text(n as int),
                None => n < MIN_TWO_FA_CODE || n > MAX_TWO_FA_CODE,
            },
    {
        if MIN_TWO_FA_CODE <= n && n <= MAX_TWO_FA_CODE {
            Some(TwoFACode::from_number(n))
        } else {
            None
        }
    }
}

impl AsRef<str> for TwoFACode {
    /// The code as text: always six digits, the first not zero.
    fn as_ref(&self) -> (s: &str)
        ensures
            s@ == self@,
            is_two_fa_code(s@),
    {
        proof {
            use_type_invariant(self);
        }
        self.0.as_str()
    }
}

impl Default for TwoFACode {
    /// A fresh code, drawn uniformly from 100000 to 999999.
    fn default() -> (code: TwoFACode)
        ensures
            is_two_fa_code(code@),
            exists|n: int| MIN_TWO_FA_CODE <= n <= MAX_TWO_FA_CODE && code@ == code_text(n),
    {
        let n = random_in_range(MIN_TWO_FA_CODE, MAX_TWO_FA_CODE);
        proof {
            lemma_code_text_is_code(n as int);
        }
        TwoFACode::from_number(n)
    }
}

impl Clone for TwoFACode {
    fn clone(&self) -> (r: Self)
        ensures
            r@ == self@,
    {
        proof {
            use_type_invariant(self);
        }
        TwoFACode(self.0.clone())
    }
}

impl PartialEq for TwoFACode {
    fn eq(&self, other: &Self) -> (r: bool) {
        self.0 == other.0
    }
}

impl PartialEqSpecImpl for TwoFACode {
    open spec fn obeys_eq_spec() -> bool {
        true
    }

    open spec fn eq_spec(&self, other: &Self) -> bool {
        self@ == other@
    }
}

} // verus!
