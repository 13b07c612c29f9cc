//! The contracts of the three stores behind the service, and their errors.
//!
//! Each store is described by a mathematical model of what it holds. A
//! method's contract says how the model changes and what is returned. A
//! store may be backed by a network service and fail for reasons of its
//! own; such a failure is always reported as `UnexpectedError`. A store
//! that declares itself `reliable` promises that it never does so.

use vstd::prelude::*;
use vstd::std_specs::cmp::PartialEqSpecImpl;
use crate::domain::email::Email;
use crate::domain::password::Password;
use crate::domain::user::User;
use crate::domain::user::UserRecord;
use crate::domain::user::UserRecordView;
use crate::utils::hashing::phc_verifies;

pub use crate::domain::identifiers::LoginAttemptId;
pub use crate::domain::identifiers::TwoFACode;

verus! {

/// How long a one-time code can be used, in seconds.
pub const TEN_MINUTES_IN_SECONDS: u64 = 600;

/// Why a user store did not do what it was asked.
#[derive(Debug)]
pub enum UserStoreError {
    UserAlreadyExists,
    UserNotFound,
    InvalidCredentials,
    /// A failure of the store itself, with a description of its cause.
    UnexpectedError(String),
}

impl UserStoreError {
    /// A short sentence that names the kind of error and never its cause.
    pub fn message(&self) -> (m: &'static str)
        ensures
            m@ == match *self {
                UserStoreError::UserAlreadyExists => "User already exists"@,
                UserStoreError::UserNotFound => "User not found"@,
                UserStoreError::InvalidCredentials => "Invalid credentials"@,
                UserStoreError::UnexpectedError(_) => "Unexpected error"@,
            },
    {
        match self {
            UserStoreError::UserAlreadyExists => "User already exists",
            UserStoreError::UserNotFound => "User not found",
            UserStoreError::InvalidCredentials => "Invalid credentials",
            UserStoreError::UnexpectedError(_) => "Unexpected error",
        }
    }
}

impl PartialEq for UserStoreError {
    /// Two errors are equal when they are of the same kind, whatever the
    /// cause of an unexpected one.
    fn eq(&self, other: &Self) -> (r: bool) {
        match (self, other) {
            (UserStoreError::UserAlreadyExists, UserStoreError::UserAlreadyExists) => true,
            (UserStoreError::UserNotFound, UserStoreError::UserNotFound) => true,
            (UserStoreError::InvalidCredentials, UserStoreError::InvalidCredentials) => true,
            (UserStoreError::UnexpectedError(_), UserStoreError::UnexpectedError(_)) => true,
            _ => false,
        }
    }
}

impl PartialEqSpecImpl for UserStoreError {
    open spec fn obeys_eq_spec() -> bool {
        true
    }

    open spec fn eq_spec(&self, other: &Self) -> bool {
        match (*self, *other) {
            (UserStoreError::UserAlreadyExists, UserStoreError::UserAlreadyExists) => true,
            (UserStoreError::UserNotFound, UserStoreError::UserNotFound) => true,
            (UserStoreError::InvalidCredentials, UserStoreError::InvalidCredentials) => true,
            (UserStoreError::UnexpectedError(_), UserStoreError::UnexpectedError(_)) => true,
            _ => false,
        }
    }
}

/// Why a store of banned tokens did not do what it was asked.
#[derive(Debug)]
pub enum BannedTokenStoreError {
    /// A failure of the store itself, with a description of its cause.
    UnexpectedError(String),
}

impl BannedTokenStoreError {
    /// A short sentence that names the kind of error and never its cause.
    pub fn message(&self) -> (m: &'static str)
        ensures
            m@ == "Unexpected error"@,
    {
        "Unexpected error"
    }

    /// The description of what went wrong.
    pub fn into_cause(self) -> (cause: String)
        ensures
            cause@ == self->UnexpectedError_0@,
    {
        match self {
            BannedTokenStoreError::UnexpectedError(text) => text,
        }
    }
}

/// Why a store of one-time codes did not do what it was asked.
#[derive(Debug)]
pub enum TwoFACodeStoreError {
    LoginAttemptIdNotFound,
    /// A failure of the store itself, with a description of its cause.
    UnexpectedError(String),
}

impl TwoFACodeStoreError {
    /// A short sentence that names the kind of error and never its cause.
    pub fn message(&self) -> (m: &'static str)
        ensures
            m@ == match *self {
                TwoFACodeStoreError::LoginAttemptIdNotFound => "Login Attempt ID not found"@,
                TwoFACodeStoreError::UnexpectedError(_) => "Unexpected error"@,
            },
    {
        match self {
            TwoFACodeStoreError::LoginAttemptIdNotFound => "Login Attempt ID not found",
            TwoFACodeStoreError::UnexpectedError(_) => "Unexpected error",
        }
    }

    /// The description of what went wrong: the cause of an unexpected
    /// error, the message of any other.
    pub fn into_cause(self) -> (cause: String)
        ensures
            cause@ == match self {
                TwoFACodeStoreError::LoginAttemptIdNotFound => "Login Attempt ID not found"@,
                TwoFACodeStoreError::UnexpectedError(text) => text@,
            },
    {
        match self {
            TwoFACodeStoreError::LoginAttemptIdNotFound => String::from_str(
                "Login Attempt ID not found",
            ),
            TwoFACodeStoreError::UnexpectedError(text) => text,
        }
    }
}

impl PartialEq for TwoFACodeStoreError {
    /// Two errors are equal when they are of the same kind, whatever the
    /// cause of an unexpected one.
    fn eq(&self, other: &Self) -> (r: bool) {
        match (self, other) {
            (
                TwoFACodeStoreError::LoginAttemptIdNotFound,
                TwoFACodeStoreError::LoginAttemptIdNotFound,
            ) => true,
            (TwoFACodeStoreError::UnexpectedError(_), TwoFACodeStoreError::UnexpectedError(_)) => true,
            _ => false,
        }
    }
}

impl PartialEqSpecImpl for TwoFACodeStoreError {
    open spec fn obeys_eq_spec() -> bool {
        true
    }

    open spec fn eq_spec(&self, other: &Self) -> bool {
        match (*self, *other) {
            (
                TwoFACodeStoreError::LoginAttemptIdNotFound,
                TwoFACodeStoreError::LoginAttemptIdNotFound,
            ) => true,
            (TwoFACodeStoreError::UnexpectedError(_), TwoFACodeStoreError::UnexpectedError(_)) => true,
            _ => false,
        }
    }
}

/// `password` is the password of the user registered under `email`.
pub open spec fn credentials_ok(
    users: Map<Seq<char>, UserRecordView>,
    email: Seq<char>,
    password: Seq<char>,
) -> bool {
    users.contains_key(email) && phc_verifies(users[email].password_hash, password)
}

/// `after` is `before` with one more user: `email` was free, and is now
/// registered with the given second-factor setting and with a hash that
/// `password` verifies against. Nobody else's record has changed.
pub open spec fn registered(
    before: Map<Seq<char>, UserRecordView>,
    after: Map<Seq<char>, UserRecordView>,
    email: Seq<char>,
    password: Seq<char>,
    requires_2fa: bool,
) -> bool {
    &&& !before.contains_key(email)
    &&& after.contains_key(email)
    &&& after == before.insert(email, after[email])
    &&& after[email].requires_2fa == requires_2fa
    &&& phc_verifies(after[email].password_hash, password)
}

/// A store of principals, keyed by e-mail address.
pub trait UserStore {
    /// The users on record, by the text of their address. A store that
    /// gives no model of itself leaves this open.
    open spec fn users(&self) -> Map<Seq<char>, UserRecordView> {
        arbitrary()
    }

    /// Whether this store never fails for reasons of its own. A store that
    /// does not say so is not taken to be reliable.
    open spec fn reliable(&self) -> bool {
        false
    }

    /// Registers `user`, keeping the password only as a hash.
    ///
    /// An address that is taken is refused and nothing changes. Otherwise
    /// the user is on record afterwards, unless hashing or the store itself
    /// failed; a reliable store is unchanged by a failure.
    fn add_user(&mut self, user: User) -> (r: Result<(), UserStoreError>)
        ensures
            final(self).reliable() == old(self).reliable(),
            match r {
                Ok(()) => registered(
                    old(self).users(),
                    final(self).users(),
                    user.email@,
                    user.password@,
                    user.requires_2fa,
                ),
                Err(UserStoreError::UserAlreadyExists) => old(self).users().contains_key(
                    user.email@,
                ) && final(self).users() == old(self).users(),
                Err(UserStoreError::UnexpectedError(_)) => old(self).reliable() ==> !old(self).users().contains_key(user.email@) && final(self).users() == old(self).users(),
                Err(_) => false,
            },
    ;

    /// The record of the user registered under `email`.
    fn get_user(&self, email: &Email) -> (r: Result<UserRecord, UserStoreError>)
        ensures
            match r {
                Ok(record) => self.users().contains_key(email@) && record@ == self.users()[email@]
                    && record.email@ == email@,
                Err(UserStoreError::UserNotFound) => !self.users().contains_key(email@),
                Err(UserStoreError::UnexpectedError(_)) => !self.reliable(),
                Err(_) => false,
            },
    ;

    /// Checks `password` against the hash on record for `email`.
    fn validate_user(&self, email: &Email, password: &Password) -> (r: Result<(), UserStoreError>)
        ensures
            match r {
                Ok(()) => credentials_ok(self.users(), email@, password@),
                Err(UserStoreError::UserNotFound) => !self.users().contains_key(email@),
                Err(UserStoreError::InvalidCredentials) => self.users().contains_key(email@)
                    && !credentials_ok(self.users(), email@, password@),
                Err(UserStoreError::UnexpectedError(_)) => !self.reliable(),
                Err(UserStoreError::UserAlreadyExists) => false,
            },
    ;
}

/// Whether `token` is banned at the time `now`: it is on the list and its
/// entry has not yet expired.
pub open spec fn token_banned(banned: Map<Seq<char>, u64>, token: Seq<char>, now: u64) -> bool {
    banned.contains_key(token) && now < banned[token]
}

/// A list of tokens that are rejected although they are otherwise valid.
pub trait BannedTokenStore {
    /// The banned tokens, each with the time at which its entry expires. A
    /// store that gives no model of itself leaves this open.
    open spec fn banned(&self) -> Map<Seq<char>, u64> {
        arbitrary()
    }

    /// Whether this store never fails for reasons of its own. A store that
    /// does not say so is not taken to be reliable.
    open spec fn reliable(&self) -> bool {
        false
    }

    /// Bans `token` until the time `expires_at`.
    fn store_token(&mut self, token: String, expires_at: u64) -> (r: Result<
        (),
        BannedTokenStoreError,
    >)
        ensures
            final(self).reliable() == old(self).reliable(),
            old(self).reliable() ==> r is Ok,
            r is Ok ==> final(self).banned() == old(self).banned().insert(token@, expires_at),
    ;

    /// Whether `token` is banned at the time `now`.
    fn check_banned_token(&self, token: &str, now: u64) -> (r: Result<bool, BannedTokenStoreError>)
        ensures
            match r {
                Ok(banned) => banned == token_banned(self.banned(), token@, now),
                Err(_) => !self.reliable(),
            },
    ;
}

/// A login attempt that awaits its one-time code.
pub struct PendingTwoFAView {
    pub login_attempt_id: Seq<char>,
    pub code: Seq<char>,
    /// The time from which the code is no longer accepted.
    pub expires_at: u64,
}

/// The time at which a code issued at `now` expires: ten minutes later, or
/// the end of time where that cannot be written.
pub open spec fn code_expiry(now: u64) -> u64 {
    if now > u64::MAX - TEN_MINUTES_IN_SECONDS {
        u64::MAX
    } else {
        (now + TEN_MINUTES_IN_SECONDS) as u64
    }
}

/// Whether a code awaits `email` at the time `now`.
pub open spec fn code_pending(
    pending: Map<Seq<char>, PendingTwoFAView>,
    email: Seq<char>,
    now: u64,
) -> bool {
    pending.contains_key(email) && now < pending[email].expires_at
}

/// Whether the pair of `login_attempt_id` and `code` is what awaits `email`
/// at the time `now`. Both parts must agree.
pub open spec fn code_matches(
    pending: Map<Seq<char>, PendingTwoFAView>,
    email: Seq<char>,
    login_attempt_id: Seq<char>,
    code: Seq<char>,
    now: u64,
) -> bool {
    &&& code_pending(pending, email, now)
    &&& pending[email].login_attempt_id == login_attempt_id
    &&& pending[email].code == code
}

/// What `add_code` makes of the pending codes: the entry of `email` is
/// replaced, every other entry stays.
pub open spec fn with_code(
    pending: Map<Seq<char>, PendingTwoFAView>,
    email: Seq<char>,
    login_attempt_id: Seq<char>,
    code: Seq<char>,
    now: u64,
) -> Map<Seq<char>, PendingTwoFAView> {
    pending.insert(
        email,
        PendingTwoFAView { login_attempt_id, code, expires_at: code_expiry(now) },
    )
}

/// A store that holds at most one pending one-time code per principal.
pub trait TwoFACodeStore {
    /// The pending codes, by the text of the principal's address. A store
    /// that gives no model of itself leaves this open.
    open spec fn pending(&self) -> Map<Seq<char>, PendingTwoFAView> {
        arbitrary()
    }

    /// Whether this store never fails for reasons of its own. A store that
    /// does not say so is not taken to be reliable.
    open spec fn reliable(&self) -> bool {
        false
    }

    /// Makes the given pair the one pending code of `email`, valid for ten
    /// minutes from `now`. A code that was pending for `email` is gone.
    fn add_code(
        &mut self,
        email: Email,
        login_attempt_id: LoginAttemptId,
        code: TwoFACode,
        now: u64,
    ) -> (r: Result<(), TwoFACodeStoreError>)
        ensures
            final(self).reliable() == old(self).reliable(),
            old(self).reliable() ==> r is Ok,
            r is Ok ==> final(self).pending() == with_code(
                old(self).pending(),
                email@,
                login_attempt_id@,
                code@,
                now,
            ),
            !(r matches Err(TwoFACodeStoreError::LoginAttemptIdNotFound)),
    ;

    /// Forgets the code that is pending for `email`, if there is one.
    fn remove_code(&mut self, email: &Email) -> (r: Result<(), TwoFACodeStoreError>)
        ensures
            final(self).reliable() == old(self).reliable(),
            old(self).reliable() ==> r is Ok,
            r is Ok ==> final(self).pending() == old(self).pending().remove(email@),
            !(r matches Err(TwoFACodeStoreError::LoginAttemptIdNotFound)),
    ;

    /// The pair that is pending for `email` at the time `now`.
    fn get_code(&self, email: &Email, now: u64) -> (r: Result<
        (LoginAttemptId, TwoFACode),
        TwoFACodeStoreError,
    >)
        ensures
            match r {
                Ok((login_attempt_id, code)) => code_matches(
                    self.pending(),
                    email@,
                    login_attempt_id@,
                    code@,
                    now,
                ),
                Err(TwoFACodeStoreError::LoginAttemptIdNotFound) => !code_pending(
                    self.pending(),
                    email@,
                    now,
                ),
                Err(TwoFACodeStoreError::UnexpectedError(_)) => !self.reliable(),
            },
    ;
}

} // verus!
