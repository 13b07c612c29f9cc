use auth_service::domain::data_stores::BannedTokenStore;
use auth_service::domain::data_stores::TwoFACode;
use auth_service::domain::data_stores::TwoFACodeStore;
use auth_service::domain::data_stores::UserStore;
use auth_service::domain::AuthAPIError;
use auth_service::domain::Email;
use auth_service::domain::Token;
use auth_service::routes::login;
use auth_service::routes::logout;
use auth_service::routes::signup;
use auth_service::routes::verify_2fa;
use auth_service::routes::verify_token;
use auth_service::routes::LoginOutcome;
use auth_service::routes::LoginRequest;
use auth_service::routes::LoginResponse;
use auth_service::routes::SignupRequest;
use auth_service::routes::SignupResponse;
use auth_service::routes::TokenRequest;
use auth_service::routes::Verify2FARequest;
use auth_service::services::data_stores::hashmap_two_fa_code_store::HashmapTwoFACodeStore;
use auth_service::services::data_stores::hashmap_user_store::HashmapUserStore;
use auth_service::services::data_stores::hashset_banned_token_store::HashsetBannedTokenStore;
use auth_service::services::mock_email_client::MockEmailClient;
use auth_service::utils::auth::TokenService;
use auth_service::utils::auth::TOKEN_TTL_SECONDS;

const NOW: u64 = 1_700_000_000;

struct TestApp {
    user_store: HashmapUserStore,
    banned_token_store: HashsetBannedTokenStore,
    two_fa_code_store: HashmapTwoFACodeStore,
    email_client: MockEmailClient,
    token_service: TokenService,
    cookie: Option<String>,
}

impl TestApp {
    fn new() -> TestApp {
        TestApp {
            user_store: HashmapUserStore::default(),
            banned_token_store: HashsetBannedTokenStore::default(),
            two_fa_code_store: HashmapTwoFACodeStore::default(),
            email_client: MockEmailClient::default(),
            token_service: TokenService::new(b"secret".to_vec(), TOKEN_TTL_SECONDS),
            cookie: None,
        }
    }

    fn post_signup(&mut self, email: &str, password: &str, requires_2fa: bool) -> u16 {
        let request =
            SignupRequest { email: email.to_string(), password: password.to_string(), requires_2fa };
        match signup(&mut self.user_store, request) {
            Ok((status, _)) => status,
            Err(e) => e.status_code(),
        }
    }

    fn try_login(&mut self, email: &str, password: &str, now: u64) -> Result<LoginOutcome, AuthAPIError> {
        let request = LoginRequest { email: email.to_string(), password: password.to_string() };
        let result = login(
            &self.user_store,
            &mut self.two_fa_code_store,
            &mut self.email_client,
            &self.token_service,
            request,
            now,
        );
        if let Ok(outcome) = &result {
            if let Some(token) = &outcome.token {
                self.cookie = Some(token.0.clone());
            }
        }
        result
    }

    fn post_login(&mut self, email: &str, password: &str) -> u16 {
        match self.try_login(email, password, NOW) {
            Ok(outcome) => outcome.status,
            Err(e) => e.status_code(),
        }
    }

    fn login_attempt_id(&mut self, email: &str, password: &str, now: u64) -> String {
        match self.try_login(email, password, now).unwrap().response {
            LoginResponse::TwoFactorAuth(body) => body.login_attempt_id,
            LoginResponse::RegularAuth => panic!("the login did not ask for a second factor"),
        }
    }

    fn stored_code(&self, email: &str, now: u64) -> TwoFACode {
        self.two_fa_code_store.get_code(&Email::parse(email.to_string()).unwrap(), now).unwrap().1
    }

    fn try_verify_2fa(&mut self, email: &str, id: &str, code: &str, now: u64) -> Result<Token, AuthAPIError> {
        let request = Verify2FARequest {
            email: email.to_string(),
            login_attempt_id: id.to_string(),
            code: code.to_string(),
        };
        let result = verify_2fa(&mut self.two_fa_code_store, &self.token_service, request, now);
        if let Ok(token) = &result {
            self.cookie = Some(token.0.clone());
        }
        result
    }

    fn post_verify_2fa(&mut self, email: &str, id: &str, code: &str) -> u16 {
        match self.try_verify_2fa(email, id, code, NOW) {
            Ok(_) => 200,
            Err(e) => e.status_code(),
        }
    }

    fn post_logout(&mut self) -> u16 {
        let cookie = self.cookie.clone();
        match logout(&mut self.banned_token_store, &self.token_service, cookie.as_deref(), NOW) {
            Ok(()) => {
                self.cookie = None;
                200
            },
            Err(e) => e.status_code(),
        }
    }

    fn post_verify_token(&self, token: &str, now: u64) -> u16 {
        let request = TokenRequest { token: token.to_string() };
        match verify_token(&self.banned_token_store, &self.token_service, request, now) {
            Ok(_) => 200,
            Err(e) => e.status_code(),
        }
    }
}

#[test]
fn should_return_201_if_valid_input() {
    let mut app = TestApp::new();
    let request = SignupRequest {
        email: "test@example.com".to_string(),
        password: "Password123!".to_string(),
        requires_2fa: true,
    };
    let (status, actual_response) = signup(&mut app.user_store, request).unwrap();
    assert_eq!(status, 201);
    let expected_response = SignupResponse { message: "User created successfully!".to_owned() };
    assert_eq!(actual_response, expected_response);
    assert!(app.user_store.get_user(&Email::parse("test@example.com".to_string()).unwrap()).is_ok());
}

#[test]
fn signup_should_return_400_if_invalid_input() {
    let mut app = TestApp::new();
    let test_cases = [("12323hotmail.com", true, "password123"), ("12323@hotmail.com", true, "pass")];
    for test_case in test_cases.iter() {
        let request = SignupRequest {
            email: test_case.0.to_string(),
            password: test_case.2.to_string(),
            requires_2fa: test_case.1,
        };
        let error = signup(&mut app.user_store, request).unwrap_err();
        assert_eq!(error.status_code(), 400, "Failed for input: {:?}", test_case);
        assert_eq!(error.message(), "Invalid credentials".to_owned());
    }
}

#[test]
fn should_return_409_if_email_already_exists() {
    let mut app = TestApp::new();
    let _ = app.post_signup("test@example.com", "Password123!", true);
    let request = SignupRequest {
        email: "test@example.com".to_string(),
        password: "Password123!".to_string(),
        requires_2fa: true,
    };
    let error = signup(&mut app.user_store, request).unwrap_err();
    assert_eq!(error.status_code(), 409);
    assert_eq!(error.message(), "User already exists".to_owned());
}

#[test]
fn login_should_return_400_if_invalid_input() {
    let mut app = TestApp::new();
    let test_cases = [("12323hotmail.com", "password123"), ("12323@hotmail.com", "pass")];
    for test_case in test_cases.iter() {
        let error = app.try_login(test_case.0, test_case.1, NOW).unwrap_err();
        assert_eq!(error.status_code(), 400, "Failed for input: {:?}", test_case);
        assert_eq!(error.message(), "Invalid credentials".to_owned());
    }
}

#[test]
fn login_should_return_401_if_incorrect_credentials() {
    let mut app = TestApp::new();
    let _ = app.post_signup("test@example.com", "Password123!", false);
    let status = app.post_login("test@example.com", "Password456!");
    assert_eq!(status, 401);
}

#[test]
fn login_does_not_tell_an_unknown_address_from_a_wrong_password() {
    let mut app = TestApp::new();
    let _ = app.post_signup("test@example.com", "Password123!", false);
    let wrong_password = app.try_login("test@example.com", "Password456!", NOW).unwrap_err();
    let unknown_address = app.try_login("nobody@example.com", "Password123!", NOW).unwrap_err();
    assert_eq!(wrong_password, AuthAPIError::IncorrectCredentials);
    assert_eq!(unknown_address, AuthAPIError::IncorrectCredentials);
    assert_eq!(wrong_password.message(), unknown_address.message());
    assert_eq!(wrong_password.status_code(), unknown_address.status_code());
}

#[test]
fn should_return_200_if_valid_credentials_and_2fa_disabled() {
    let mut app = TestApp::new();
    let status = app.post_signup("test@example.com", "Password123!", false);
    assert_eq!(status, 201);
    let outcome = app.try_login("test@example.com", "Password123!", NOW).unwrap();
    assert_eq!(outcome.status, 200);
    assert!(matches!(outcome.response, LoginResponse::RegularAuth));
    let auth_cookie = outcome.token.expect("No auth cookie found");
    assert!(!auth_cookie.0.is_empty());
    assert_eq!(app.email_client.count(), 0);
}

#[test]
fn should_return_206_if_valid_credentials_and_2fa_enabled() {
    let mut app = TestApp::new();
    let _ = app.post_signup("test@example.com", "Password123!", true);
    let outcome = app.try_login("test@example.com", "Password123!", NOW).unwrap();
    assert_eq!(outcome.status, 206);
    assert!(outcome.token.is_none());
    match outcome.response {
        LoginResponse::TwoFactorAuth(body) => assert_eq!(body.message, "2FA required".to_owned()),
        LoginResponse::RegularAuth => panic!("Could not read the response as TwoFactorAuthResponse"),
    }

    let login_attempt_id = app.login_attempt_id("test@example.com", "Password123!", NOW);
    let stored_code = app
        .two_fa_code_store
        .get_code(&Email::parse("test@example.com".to_string()).unwrap(), NOW)
        .expect("Failed to get code from store");
    let stored_login_attempt_id = stored_code.0.as_ref().to_string();
    assert_eq!(stored_login_attempt_id, login_attempt_id);
}

#[test]
fn login_sends_the_stored_code_and_never_returns_it() {
    let mut app = TestApp::new();
    let _ = app.post_signup("test@example.com", "Password123!", true);
    let login_attempt_id = app.login_attempt_id("test@example.com", "Password123!", NOW);
    let code = app.stored_code("test@example.com", NOW);
    assert_eq!(app.email_client.count(), 1);
    let message = app.email_client.last().unwrap();
    assert_eq!(message.recipient, "test@example.com");
    assert_eq!(message.subject, "Your 2FA code");
    assert_eq!(message.content, format!("Your 2FA code is: {}", code.as_ref()));
    assert!(!login_attempt_id.contains(code.as_ref()));
}

#[test]
fn should_return_400_if_jwt_cookie_missing() {
    let mut app = TestApp::new();
    let status = app.post_logout();
    assert_eq!(status, 400);
    let error = logout(&mut app.banned_token_store, &app.token_service, None, NOW).unwrap_err();
    assert_eq!(error, AuthAPIError::MissingToken);
}

#[test]
fn logout_should_return_401_if_invalid_token() {
    let mut app = TestApp::new();
    app.cookie = Some("invalid".to_string());
    let status = app.post_logout();
    assert_eq!(status, 401);
    assert!(!app.banned_token_store.check_banned_token("invalid", NOW).unwrap());
}

#[test]
fn should_return_200_if_valid_jwt_cookie() {
    let mut app = TestApp::new();
    let status = app.post_signup("test@example.com", "Password123!", false);
    assert_eq!(status, 201);
    let status = app.post_login("test@example.com", "Password123!");
    assert_eq!(status, 200);
    let token = app.cookie.clone().expect("No auth cookie found");
    assert!(!token.is_empty());

    let status = app.post_logout();
    assert_eq!(status, 200);
    assert!(app.cookie.is_none());

    let contains_token = app
        .banned_token_store
        .check_banned_token(&token, NOW)
        .expect("Failed to check if token is banned");
    assert!(contains_token);
}

#[test]
fn should_return_400_if_logout_called_twice_in_a_row() {
    let mut app = TestApp::new();
    app.post_signup("test@example.com", "Password123!", false);
    app.post_login("test@example.com", "Password123!");

    let response1 = app.post_logout();
    assert_eq!(response1, 200);

    let response2 = app.post_logout();
    assert_eq!(response2, 400);
}

#[test]
fn logout_with_a_token_that_was_logged_out_is_invalid() {
    let mut app = TestApp::new();
    app.post_signup("test@example.com", "Password123!", false);
    app.post_login("test@example.com", "Password123!");
    let token = app.cookie.clone().unwrap();
    assert_eq!(app.post_logout(), 200);
    app.cookie = Some(token);
    assert_eq!(app.post_logout(), 401);
}

#[test]
fn verify_2fa_should_return_400_if_invalid_input() {
    let mut app = TestApp::new();
    let status = app.post_verify_2fa("invalid", "invalid", "invalid");
    assert_eq!(status, 400);
    let id = "550e8400-e29b-41d4-a716-446655440000";
    assert_eq!(app.post_verify_2fa("test@example.com", "invalid", "123456"), 400);
    assert_eq!(app.post_verify_2fa("test@example.com", id, "invalid"), 400);
    assert_eq!(app.post_verify_2fa("invalid", id, "123456"), 400);
    assert_eq!(app.post_verify_2fa("test@example.com", id, "012345"), 400);
}

#[test]
fn verify_2fa_should_return_401_if_incorrect_credentials() {
    let mut app = TestApp::new();
    app.post_signup("test@example.com", "Password123!", true);
    let login_attempt_id = app.login_attempt_id("test@example.com", "Password123!", NOW);
    let stored = app.stored_code("test@example.com", NOW);
    let wrong_code = if stored.as_ref() == "123456" { "654321" } else { "123456" };

    let status = app.post_verify_2fa("test@example.com", &login_attempt_id, wrong_code);
    assert_eq!(status, 401);

    let other_id = "550e8400-e29b-41d4-a716-446655440000";
    assert_eq!(app.post_verify_2fa("test@example.com", other_id, stored.as_ref()), 401);
    assert_eq!(app.post_verify_2fa("other@example.com", &login_attempt_id, stored.as_ref()), 401);

    // The pending code has survived the wrong attempts.
    assert_eq!(app.post_verify_2fa("test@example.com", &login_attempt_id, stored.as_ref()), 200);
}

#[test]
fn should_return_401_if_old_code() {
    let mut app = TestApp::new();
    app.post_signup("test@example.com", "Password123!", true);
    let login_attempt_id = app.login_attempt_id("test@example.com", "Password123!", NOW);
    let code = app.stored_code("test@example.com", NOW);

    app.post_login("test@example.com", "Password123!");
    let status = app.post_verify_2fa("test@example.com", &login_attempt_id, code.as_ref());
    assert_eq!(status, 401);
    assert_eq!(app.email_client.count(), 2);
}

#[test]
fn should_return_401_if_same_code_twice() {
    let mut app = TestApp::new();
    app.post_signup("test@example.com", "Password123!", true);
    let login_attempt_id = app.login_attempt_id("test@example.com", "Password123!", NOW);
    let code = app.stored_code("test@example.com", NOW);
    let _login_response = app.post_login("test@example.com", "Password123!");

    let response = app.post_verify_2fa("test@example.com", &login_attempt_id, code.as_ref());
    assert_eq!(response, 401);
}

#[test]
fn a_code_verifies_only_once() {
    let mut app = TestApp::new();
    app.post_signup("test@example.com", "Password123!", true);
    let login_attempt_id = app.login_attempt_id("test@example.com", "Password123!", NOW);
    let code = app.stored_code("test@example.com", NOW);

    let first = app.post_verify_2fa("test@example.com", &login_attempt_id, code.as_ref());
    assert_eq!(first, 200);
    let second = app.post_verify_2fa("test@example.com", &login_attempt_id, code.as_ref());
    assert_eq!(second, 401);
    let later = app.try_verify_2fa("test@example.com", &login_attempt_id, code.as_ref(), NOW + 1);
    assert_eq!(later.err(), Some(AuthAPIError::IncorrectCredentials));
}

#[test]
fn should_return_200_if_correct_code() {
    let mut app = TestApp::new();
    app.post_signup("test@example.com", "Password123!", true);
    let login_attempt_id = app.login_attempt_id("test@example.com", "Password123!", NOW);
    let code = app.stored_code("test@example.com", NOW);

    let token = app
        .try_verify_2fa("test@example.com", &login_attempt_id, code.as_ref(), NOW)
        .expect("No auth cookie found");
    assert!(!token.0.is_empty());
    assert_eq!(app.post_verify_token(&token.0, NOW), 200);
    assert_eq!(app.email_client.count(), 1);
}

#[test]
fn verify_2fa_accepts_the_identifier_in_any_form() {
    let mut app = TestApp::new();
    app.post_signup("test@example.com", "Password123!", true);
    let login_attempt_id = app.login_attempt_id("test@example.com", "Password123!", NOW);
    let code = app.stored_code("test@example.com", NOW);
    let upper = login_attempt_id.to_uppercase();
    assert_eq!(app.post_verify_2fa("test@example.com", &upper, code.as_ref()), 200);
}

#[test]
fn verify_2fa_refuses_a_code_that_has_expired() {
    let mut app = TestApp::new();
    app.post_signup("test@example.com", "Password123!", true);
    let login_attempt_id = app.login_attempt_id("test@example.com", "Password123!", NOW);
    let code = app.stored_code("test@example.com", NOW);
    let late = app.try_verify_2fa("test@example.com", &login_attempt_id, code.as_ref(), NOW + 600);
    assert_eq!(late.err(), Some(AuthAPIError::IncorrectCredentials));
    let in_time = app.try_verify_2fa("test@example.com", &login_attempt_id, code.as_ref(), NOW + 599);
    assert!(in_time.is_ok());
}

#[test]
fn should_return_200_valid_token() {
    let mut app = TestApp::new();
    app.post_signup("test@example.com", "Password123!", false);
    app.post_login("test@example.com", "Password123!");
    let token = app.cookie.clone().expect("No auth cookie found");
    assert_eq!(app.post_verify_token(&token, NOW), 200);
    let request = TokenRequest { token };
    let claims = verify_token(&app.banned_token_store, &app.token_service, request, NOW).unwrap();
    assert_eq!(claims.sub, "test@example.com");
    assert_eq!(claims.iat, NOW);
    assert_eq!(claims.exp, NOW + 600);
}

#[test]
fn verify_token_should_return_401_if_invalid_token() {
    let mut app = TestApp::new();
    app.post_signup("test@example.com", "Password123!", false);
    app.post_login("test@example.com", "Password123!");
    let token = app.cookie.clone().expect("No auth cookie found");
    assert_eq!(app.post_logout(), 200);
    assert_eq!(401, app.post_verify_token(&token, NOW));
    assert_eq!(401, app.post_verify_token("", NOW));
    assert_eq!(401, app.post_verify_token("ewqe", NOW));
}

#[test]
fn should_return_401_if_banned_token() {
    let mut app = TestApp::new();
    app.post_signup("test@example.com", "Password123!", false);
    app.post_login("test@example.com", "Password123!");
    let token = app.cookie.clone().expect("No auth cookie found");
    app.post_logout();
    let verify_result = app.post_verify_token(&token, NOW);
    assert_eq!(401, verify_result);
}

#[test]
fn verify_token_does_not_say_why() {
    let mut app = TestApp::new();
    app.post_signup("test@example.com", "Password123!", false);
    app.post_login("test@example.com", "Password123!");
    let token = app.cookie.clone().unwrap();
    let expired = verify_token(
        &app.banned_token_store,
        &app.token_service,
        TokenRequest { token: token.clone() },
        NOW + 600,
    );
    let malformed = verify_token(
        &app.banned_token_store,
        &app.token_service,
        TokenRequest { token: "invalid".to_string() },
        NOW,
    );
    app.post_logout();
    let revoked =
        verify_token(&app.banned_token_store, &app.token_service, TokenRequest { token }, NOW);
    assert_eq!(expired.err(), Some(AuthAPIError::InvalidToken));
    assert_eq!(malformed.err(), Some(AuthAPIError::InvalidToken));
    assert_eq!(revoked.err(), Some(AuthAPIError::InvalidToken));
}

#[test]
fn session_without_second_factor_from_signup_to_logout() {
    let mut app = TestApp::new();
    assert_eq!(app.post_signup("a@example.com", "Password123!", false), 201);
    let outcome = app.try_login("a@example.com", "Password123!", NOW).unwrap();
    assert_eq!(outcome.status, 200);
    let token = outcome.token.unwrap().0;
    assert!(!token.is_empty());
    assert_eq!(app.post_verify_token(&token, NOW), 200);
    assert_eq!(app.post_logout(), 200);
    assert_eq!(app.post_verify_token(&token, NOW), 401);
    // The token is refused at every later time, too.
    assert_eq!(app.post_verify_token(&token, NOW + 599), 401);
    assert_eq!(app.post_verify_token(&token, NOW + 600), 401);
    assert_eq!(app.post_verify_token(&token, u64::MAX), 401);
}

#[test]
fn session_with_second_factor_from_signup_to_token() {
    let mut app = TestApp::new();
    assert_eq!(app.post_signup("a@example.com", "Password123!", true), 201);
    let outcome = app.try_login("a@example.com", "Password123!", NOW).unwrap();
    assert_eq!(outcome.status, 206);
    assert!(outcome.token.is_none());
    let login_attempt_id = match outcome.response {
        LoginResponse::TwoFactorAuth(body) => body.login_attempt_id,
        LoginResponse::RegularAuth => panic!("the login did not ask for a second factor"),
    };
    let code = app.stored_code("a@example.com", NOW);
    let wrong_code = if code.as_ref() == "123456" { "654321" } else { "123456" };
    assert_eq!(
        app.try_verify_2fa("a@example.com", &login_attempt_id, wrong_code, NOW).err(),
        Some(AuthAPIError::IncorrectCredentials)
    );
    let token = app.try_verify_2fa("a@example.com", &login_attempt_id, code.as_ref(), NOW).unwrap();
    assert!(!token.0.is_empty());
    assert_eq!(app.post_verify_token(&token.0, NOW), 200);
}

#[test]
fn a_new_login_issues_a_new_session_after_logout() {
    let mut app = TestApp::new();
    app.post_signup("a@example.com", "Password123!", false);
    app.try_login("a@example.com", "Password123!", NOW).unwrap();
    let first = app.cookie.clone().unwrap();
    assert_eq!(app.post_logout(), 200);
    app.try_login("a@example.com", "Password123!", NOW + 1).unwrap();
    let second = app.cookie.clone().unwrap();
    assert_ne!(first, second);
    assert_eq!(app.post_verify_token(&first, NOW + 1), 401);
    assert_eq!(app.post_verify_token(&second, NOW + 1), 200);
}

#[test]
fn errors_have_their_status_and_message() {
    let cases = [
        (AuthAPIError::UserAlreadyExists, 409, "User already exists"),
        (AuthAPIError::InvalidCredentials, 400, "Invalid credentials"),
        (AuthAPIError::IncorrectCredentials, 401, "Incorrect credentials"),
        (AuthAPIError::MissingToken, 400, "Missing auth token"),
        (AuthAPIError::InvalidToken, 401, "Invalid auth token"),
        (AuthAPIError::UnexpectedError("the database is down".to_string()), 500, "Unexpected error"),
    ];
    for (error, status, message) in cases.iter() {
        assert_eq!(error.status_code(), *status);
        assert_eq!(error.message(), *message);
    }
    assert_eq!(
        AuthAPIError::UnexpectedError("a".to_string()),
        AuthAPIError::UnexpectedError("b".to_string())
    );
    assert_ne!(AuthAPIError::MissingToken, AuthAPIError::InvalidToken);
}
