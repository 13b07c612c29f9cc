//! Registration.

use vstd::prelude::*;
use vstd::std_specs::cmp::PartialEqSpecImpl;
use crate::domain::data_stores::registered;
use crate::domain::data_stores::UserStore;
use crate::domain::data_stores::UserStoreError;
use crate::domain::email::email_format_ok;
use crate::domain::email::Email;
use crate::domain::error::AuthAPIError;
use crate::domain::password::meets_policy;
use crate::domain::password::Password;
use crate::domain::user::User;

verus! {

/// The HTTP status of a successful registration.
pub const STATUS_CREATED: u16 = 201;

/// What a principal sends to register. The password is in the clear.
pub struct SignupRequest {
    pub email: String,
    pub password: String,
    pub requires_2fa: bool,
}

/// What a principal is told after it has registered.
#[derive(Debug)]
pub struct SignupResponse {
    pub message: String,
}

impl PartialEq for SignupResponse {
    fn eq(&self, other: &Self) -> (r: bool) {
        self.message == other.message
    }
}

impl PartialEqSpecImpl for SignupResponse {
    open spec fn obeys_eq_spec() -> bool {
        true
    }

    open spec fn eq_spec(&self, other: &Self) -> bool {
        self.message@ == other.message@
    }
}

/// Whether the address and the password of a request have the shape asked
/// for.
pub open spec fn credentials_well_formed(email: Seq<char>, password: Seq<char>) -> bool {
    email_format_ok(email) && meets_policy(password)
}

/// Registers the principal that `request` describes.
///
/// A request whose address or password is not of the shape asked for is
/// turned down as `InvalidCredentials`, and an address that is taken as
/// `UserAlreadyExists`; neither changes the store. Otherwise the user is on
/// record afterwards with a hash of the password, unless hashing or the
/// store failed, which is reported as `UnexpectedError`.
pub fn signup<U: UserStore>(user_store: &mut U, request: SignupRequest) -> (r: Result<
    (u16, SignupResponse),
    AuthAPIError,
>)
    ensures
        final(user_store).reliable() == old(user_store).reliable(),
        if !credentials_well_formed(request.email@, request.password@) {
            &&& r matches Err(AuthAPIError::InvalidCredentials)
            &&& final(user_store).users() == old(user_store).users()
        } else {
            match r {
                Ok((status, body)) => {
                    &&& status == STATUS_CREATED
                    &&& body.message@ == "User created successfully!"@
                    &&& registered(
                        old(user_store).users(),
                        final(user_store).users(),
                        request.email@,
                        request.password@,
                        request.requires_2fa,
                    )
                },
                Err(AuthAPIError::UserAlreadyExists) => {
                    &&& old(user_store).users().contains_key(request.email@)
                    &&& final(user_store).users() == old(user_store).users()
                },
                Err(AuthAPIError::UnexpectedError(_)) => old(user_store).reliable() ==> {
                    &&& !old(user_store).users().contains_key(request.email@)
                    &&& final(user_store).users() == old(user_store).users()
                },
                Err(_) => false,
            }
        },
        old(user_store).reliable() && old(user_store).users().contains_key(request.email@)
            && credentials_well_formed(request.email@, request.password@) ==> r matches Err(
            AuthAPIError::UserAlreadyExists,
        ),
{
    let email = match Email::parse(request.email) {
        Ok(email) => email,
        Err(_) => {
            return Err(AuthAPIError::InvalidCredentials);
        },
    };
    let password = match Password::parse(request.password) {
        Ok(password) => password,
        Err(_) => {
            return Err(AuthAPIError::InvalidCredentials);
        },
    };
    let user = User::new(email, password, request.requires_2fa);
    match user_store.get_user(&user.email) {
        Ok(_) => {
            return Err(AuthAPIError::UserAlreadyExists);
        },
        Err(_) => {},
    }
    match user_store.add_user(user) {
        Ok(()) => {},
        Err(UserStoreError::UserAlreadyExists) => {
            return Err(AuthAPIError::UserAlreadyExists);
        },
        Err(UserStoreError::UnexpectedError(cause)) => {
            return Err(AuthAPIError::UnexpectedError(cause));
        },
        Err(e) => {
            return Err(AuthAPIError::UnexpectedError(String::from_str(e.message())));
        },
    }
    let response = SignupResponse { message: String::from_str("User created successfully!") };
    Ok((STATUS_CREATED, response))
}

} // verus!
