//! Principals: as they register and as they are kept.

use vstd::prelude::*;
use vstd::std_specs::cmp::PartialEqSpecImpl;
use crate::domain::email::Email;
use crate::domain::password::Password;

verus! {

/// A principal as it registers: the password is still in the clear and will
/// be hashed by the store that takes the user in.
pub struct User {
    pub email: Email,
    pub password: Password,
    pub requires_2fa: bool,
}

impl User {
    /// A user with exactly the given parts.
    pub fn new(email: Email, password: Password, requires_2fa: bool) -> (user: User)
        ensures
            user.email@ == email@,
            user.password@ == password@,
            user.requires_2fa == requires_2fa,
    {
        User { email, password, requires_2fa }
    }
}

impl Clone for User {
    fn clone(&self) -> (r: Self)
        ensures
            r.email@ == self.email@,
            r.password@ == self.password@,
            r.requires_2fa == self.requires_2fa,
    {
        User {
            email: self.email.clone(),
            password: self.password.clone(),
            requires_2fa: self.requires_2fa,
        }
    }
}

impl PartialEq for User {
    fn eq(&self, other: &Self) -> (r: bool) {
        self.email == other.email && self.password == other.password && self.requires_2fa
            == other.requires_2fa
    }
}

impl PartialEqSpecImpl for User {
    open spec fn obeys_eq_spec() -> bool {
        true
    }

    open spec fn eq_spec(&self, other: &Self) -> bool {
        &&& self.email@ == other.email@
        &&& self.password@ == other.password@
        &&& self.requires_2fa == other.requires_2fa
    }
}

/// What a store knows of a principal besides its address.
pub struct UserRecordView {
    /// The hash string of the password.
    pub password_hash: Seq<char>,
    /// Whether a login must be completed with a one-time code.
    pub requires_2fa: bool,
}

/// A principal as a store keeps it: the password only as a hash string.
pub struct UserRecord {
    pub email: Email,
    pub password_hash: String,
    pub requires_2fa: bool,
}

impl View for UserRecord {
    type V = UserRecordView;

    open spec fn view(&self) -> UserRecordView {
        UserRecordView { password_hash: self.password_hash@, requires_2fa: self.requires_2fa }
    }
}

impl Clone for UserRecord {
    fn clone(&self) -> (r: Self)
        ensures
            r.email@ == self.email@,
            r@ == self@,
    {
        UserRecord {
            email: self.email.clone(),
            password_hash: self.password_hash.clone(),
            requires_2fa: self.requires_2fa,
        }
    }
}

} // verus!
