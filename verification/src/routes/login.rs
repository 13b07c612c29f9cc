//! The first step of a session: the check of address and password.

use vstd::prelude::*;
use crate::domain::data_stores::credentials_ok;
use crate::domain::data_stores::with_code;
use crate::domain::data_stores::TwoFACodeStore;
use crate::domain::data_stores::UserStore;
use crate::domain::email::Email;
use crate::domain::email_client::EmailClient;
use crate::domain::email_client::EmailMessage;
use crate::domain::error::AuthAPIError;
use crate::domain::identifiers::is_login_attempt_id;
use crate::domain::identifiers::is_two_fa_code;
use crate::domain::identifiers::LoginAttemptId;
use crate::domain::identifiers::TwoFACode;
use crate::domain::password::Password;
use crate::domain::token::Token;
use crate::domain::user::UserRecordView;
use crate::routes::signup::credentials_well_formed;
use crate::utils::auth::signed_token;
use crate::utils::auth::token_expiry;
use crate::utils::auth::TokenService;

verus! {

/// The HTTP status of a login that established a session.
pub const STATUS_OK: u16 = 200;

/// The HTTP status of a login that awaits its second factor.
pub const STATUS_PARTIAL_CONTENT: u16 = 206;

/// What a principal sends to log in. The password is in the clear.
pub struct LoginRequest {
    pub email: String,
    pub password: String,
}

/// What a principal is told after a login.
#[derive(Debug)]
pub enum LoginResponse {
    /// The session is established.
    RegularAuth,
    /// The login awaits its one-time code.
    TwoFactorAuth(TwoFactorAuthResponse),
}

/// What a principal is told when its login awaits the one-time code: the
/// identifier of the attempt, and never the code.
#[derive(Debug)]
pub struct TwoFactorAuthResponse {
    pub message: String,
    pub login_attempt_id: String,
}

/// What a successful login gives the caller: the status, the body of the
/// answer and, where the session is established, its token.
#[derive(Debug)]
pub struct LoginOutcome {
    pub status: u16,
    pub response: LoginResponse,
    pub token: Option<Token>,
}

/// What a login comes to, as far as the request and the users on record
/// decide it.
pub enum LoginVerdict {
    /// The request is not of the shape asked for.
    InvalidCredentials,
    /// The address is not registered or the password does not match.
    IncorrectCredentials,
    /// The credentials are correct and the user has a second factor.
    SecondFactorRequired,
    /// The credentials are correct and the user has no second factor.
    SessionEstablished,
}

/// The verdict on a login with `email` and `password`.
pub open spec fn login_verdict(
    users: Map<Seq<char>, UserRecordView>,
    email: Seq<char>,
    password: Seq<char>,
) -> LoginVerdict {
    if !credentials_well_formed(email, password) {
        LoginVerdict::InvalidCredentials
    } else if !credentials_ok(users, email, password) {
        LoginVerdict::IncorrectCredentials
    } else if users[email].requires_2fa {
        LoginVerdict::SecondFactorRequired
    } else {
        LoginVerdict::SessionEstablished
    }
}

/// The message that carries `code` to `recipient`.
pub open spec fn two_fa_message(recipient: Seq<char>, code: Seq<char>) -> EmailMessage {
    EmailMessage {
        recipient,
        subject: "Your 2FA code"@,
        content: "Your 2FA code is: "@ + code,
    }
}

/// The subject line of the message that carries a code.
pub fn two_fa_subject() -> (subject: &'static str)
    ensures
        subject@ == "Your 2FA code"@,
{
    "Your 2FA code"
}

/// The text of the message that carries `code`.
pub fn two_fa_content(code: &TwoFACode) -> (content: String)
    ensures
        content@ == "Your 2FA code is: "@ + code@,
{
    String::from_str("Your 2FA code is: ").concat(code.as_ref())
}

/// Whether `outcome` is the answer to a login that awaits the code of the
/// attempt `login_attempt_id`.
pub open spec fn awaits_second_factor(outcome: LoginOutcome, login_attempt_id: Seq<char>) -> bool {
    &&& outcome.status == STATUS_PARTIAL_CONTENT
    &&& outcome.token is None
    &&& outcome.response matches LoginResponse::TwoFactorAuth(body)
    &&& body.message@ == "2FA required"@
    &&& body.login_attempt_id@ == login_attempt_id
}

/// Whether `outcome` is the answer to a login that established a session
/// with the token `token`.
pub open spec fn session_established(outcome: LoginOutcome, token: Seq<char>) -> bool {
    &&& outcome.status == STATUS_OK
    &&& outcome.response is RegularAuth
    &&& outcome.token matches Some(t)
    &&& t@ == token
}

/// Opens the second factor for `email` with the given identifier and code.
///
/// The pair becomes the one pending code of `email`, in place of any
/// earlier one, and the code is sent to `email`. The caller gets the
/// identifier and never the code. Where the store or the e-mail client
/// fails the login is aborted with `UnexpectedError`; a code that was
/// stored before the client failed stays stored.
pub fn handle_2fa<T: TwoFACodeStore, E: EmailClient>(
    email: &Email,
    two_fa_code_store: &mut T,
    email_client: &mut E,
    login_attempt_id: LoginAttemptId,
    two_fa_code: TwoFACode,
    now: u64,
) -> (r: Result<LoginOutcome, AuthAPIError>)
    ensures
        final(two_fa_code_store).reliable() == old(two_fa_code_store).reliable(),
        match r {
            Ok(outcome) => {
                &&& awaits_second_factor(outcome, login_attempt_id@)
                &&& final(two_fa_code_store).pending() == with_code(
                    old(two_fa_code_store).pending(),
                    email@,
                    login_attempt_id@,
                    two_fa_code@,
                    now,
                )
                &&& final(email_client).sent() == old(email_client).sent().push(
                    two_fa_message(email@, two_fa_code@),
                )
            },
            Err(AuthAPIError::UnexpectedError(_)) => {
                &&& final(email_client).sent() == old(email_client).sent()
                &&& old(two_fa_code_store).reliable() ==> final(two_fa_code_store).pending()
                    == with_code(
                    old(two_fa_code_store).pending(),
                    email@,
                    login_attempt_id@,
                    two_fa_code@,
                    now,
                )
            },
            Err(_) => false,
        },
{
    match two_fa_code_store.add_code(
        email.clone(),
        login_attempt_id.clone(),
        two_fa_code.clone(),
        now,
    ) {
        Ok(()) => {},
        Err(e) => {
            return Err(AuthAPIError::UnexpectedError(e.into_cause()));
        },
    }
    let content = two_fa_content(&two_fa_code);
    match email_client.send_email(email, two_fa_subject(), content.as_str()) {
        Ok(()) => {},
        Err(cause) => {
            return Err(AuthAPIError::UnexpectedError(cause));
        },
    }
    let body = TwoFactorAuthResponse {
        message: String::from_str("2FA required"),
        login_attempt_id: String::from_str(login_attempt_id.as_ref()),
    };
    Ok(
        LoginOutcome {
            status: STATUS_PARTIAL_CONTENT,
            response: LoginResponse::TwoFactorAuth(body),
            token: None,
        },
    )
}

/// Establishes the session of `email` at once: issues its token.
pub fn handle_no_2fa(email: &Email, token_service: &TokenService, now: u64) -> (r: Result<
    LoginOutcome,
    AuthAPIError,
>)
    ensures
        match signed_token(
            token_service.secret(),
            email@,
            now,
            token_expiry(now, token_service.ttl()),
        ) {
            Some(token) => r matches Ok(outcome) && session_established(outcome, token),
            None => r matches Err(AuthAPIError::UnexpectedError(_)),
        },
{
    match token_service.issue(email, now) {
        Ok(token) => Ok(
            LoginOutcome {
                status: STATUS_OK,
                response: LoginResponse::RegularAuth,
                token: Some(token),
            },
        ),
        Err(e) => Err(AuthAPIError::UnexpectedError(e.into_cause())),
    }
}

/// Checks the address and the password of `request` and opens a session
/// or its second factor.
///
/// A request that is not of the shape asked for is turned down as
/// `InvalidCredentials`. An address that is not registered and a password
/// that does not match are both turned down as `IncorrectCredentials`: the
/// caller cannot tell them apart. For a user without second factor a token
/// is issued. For a user with second factor a fresh identifier and a fresh
/// code are drawn, stored in place of any earlier pair and sent to the
/// address; the caller gets the identifier. Where a store, the e-mail
/// client or the signature fails after the credentials were found correct,
/// the login is aborted with `UnexpectedError`.
pub fn login<U: UserStore, T: TwoFACodeStore, E: EmailClient>(
    user_store: &U,
    two_fa_code_store: &mut T,
    email_client: &mut E,
    token_service: &TokenService,
    request: LoginRequest,
    now: u64,
) -> (r: Result<LoginOutcome, AuthAPIError>)
    ensures
        final(two_fa_code_store).reliable() == old(two_fa_code_store).reliable(),
        ({
            let email = request.email@;
            let unchanged = final(two_fa_code_store).pending() == old(two_fa_code_store).pending()
                && final(email_client).sent() == old(email_client).sent();
            match login_verdict(user_store.users(), email, request.password@) {
                LoginVerdict::InvalidCredentials => {
                    &&& r matches Err(AuthAPIError::InvalidCredentials)
                    &&& unchanged
                },
                LoginVerdict::IncorrectCredentials => {
                    &&& r matches Err(AuthAPIError::IncorrectCredentials)
                    &&& unchanged
                },
                LoginVerdict::SecondFactorRequired => {
                    let entry = final(two_fa_code_store).pending()[email];
                    let stored = {
                        &&& is_login_attempt_id(entry.login_attempt_id)
                        &&& is_two_fa_code(entry.code)
                        &&& final(two_fa_code_store).pending() == with_code(
                            old(two_fa_code_store).pending(),
                            email,
                            entry.login_attempt_id,
                            entry.code,
                            now,
                        )
                    };
                    match r {
                        Ok(outcome) => {
                            &&& awaits_second_factor(outcome, entry.login_attempt_id)
                            &&& stored
                            &&& final(email_client).sent() == old(email_client).sent().push(
                                two_fa_message(email, entry.code),
                            )
                        },
                        Err(AuthAPIError::UnexpectedError(_)) => {
                            &&& final(email_client).sent() == old(email_client).sent()
                            &&& old(two_fa_code_store).reliable() ==> stored
                        },
                        Err(AuthAPIError::IncorrectCredentials) => {
                            &&& !user_store.reliable()
                            &&& unchanged
                        },
                        Err(_) => false,
                    }
                },
                LoginVerdict::SessionEstablished => {
                    let issued = signed_token(
                        token_service.secret(),
                        email,
                        now,
                        token_expiry(now, token_service.ttl()),
                    );
                    &&& unchanged
                    &&& match r {
                        Ok(outcome) => issued matches Some(token) && session_established(
                            outcome,
                            token,
                        ),
                        Err(AuthAPIError::UnexpectedError(_)) => issued is None,
                        Err(AuthAPIError::IncorrectCredentials) => !user_store.reliable(),
                        Err(_) => false,
                    }
                },
            }
        }),
{
    let password = match Password::parse(request.password) {
        Ok(password) => password,
        Err(_) => {
            return Err(AuthAPIError::InvalidCredentials);
        },
    };
    let email = match Email::parse(request.email) {
        Ok(email) => email,
        Err(_) => {
            return Err(AuthAPIError::InvalidCredentials);
        },
    };
    if user_store.validate_user(&email, &password).is_err() {
        return Err(AuthAPIError::IncorrectCredentials);
    }
    let user = match user_store.get_user(&email) {
        Ok(user) => user,
        Err(_) => {
            return Err(AuthAPIError::IncorrectCredentials);
        },
    };
    if user.requires_2fa {
        let login_attempt_id = LoginAttemptId::default();
        let two_fa_code = TwoFACode::default();
        handle_2fa(&user.email, two_fa_code_store, email_client, login_attempt_id, two_fa_code, now)
    } else {
        handle_no_2fa(&user.email, token_service, now)
    }
}

} // verus!
