//! Account registration: validates the submitted fields and builds the user
//! row to insert, with the password hashed by the outside capability. The
//! HTTP layer persists the returned row.

use vstd::prelude::*;
use vstd::string::StringExecFns;
use vstd::string::StrSliceExecFns;

use crate::models::NewUser;
use crate::password::{hash_password, password_ok};
use crate::text::contains_char;

verus! {

/// A registration request.
pub struct RegisterRequest {
    pub username: String,
    pub password: String,
    pub email: String,
}

/// The request as mathematical values.
pub struct RegisterRequestV {
    pub username: Seq<char>,
    pub password: Seq<char>,
    pub email: Seq<char>,
}

impl View for RegisterRequest {
    type V = RegisterRequestV;

    open spec fn view(&self) -> RegisterRequestV {
        RegisterRequestV {
            username: self.username@,
            password: self.password@,
            email: self.email@,
        }
    }
}

/// A request that passes validation: no empty field, and an email that
/// holds an `@`.
pub open spec fn valid_registration(r: RegisterRequestV) -> bool {
    &&& r.username.len() > 0
    &&& r.password.len() > 0
    &&& r.email.len() > 0
    &&& r.email.contains('@')
}

/// The message reported for an invalid request: the first failing check, in
/// the order username, password, email.
pub open spec fn validation_message(r: RegisterRequestV) -> Seq<char> {
    if r.username.len() == 0 {
        "Username cannot be empty"@
    } else if r.password.len() == 0 {
        "Password cannot be empty"@
    } else {
        "Invalid email address"@
    }
}

impl RegisterRequest {
    /// Checks the request, reporting the first failing field.
    pub fn validate(&self) -> (r: Result<(), String>)
        ensures
            (r is Ok) <==> valid_registration(self@),
            r matches Err(m) ==> m@ == validation_message(self@),
    {
        if self.username.as_str().unicode_len() == 0 {
            Err(String::from_str("Username cannot be empty"))
        } else if self.password.as_str().unicode_len() == 0 {
            Err(String::from_str("Password cannot be empty"))
        } else if self.email.as_str().unicode_len() == 0 || !contains_char(
            self.email.as_str(),
            '@',
        ) {
            Err(String::from_str("Invalid email address"))
        } else {
            Ok(())
        }
    }
}

/// Failures of registration.
#[derive(Debug)]
pub enum RegisterError {
    /// The request failed validation; carries the message of the first
    /// failing field.
    Invalid(String),
    /// The password could not be hashed.
    HashFailure,
}

/// The user row for a validated request and its hashed password.
pub fn new_user_record(req: &RegisterRequest, password_hash: String) -> (r: NewUser)
    ensures
        r@.username == req.username@,
        r@.email == req.email@,
        r@.password_hash == password_hash@,
        r@.full_name is None,
        r@.role == "user"@,
        r@.status == "active"@,
{
    NewUser {
        username: req.username.clone(),
        email: req.email.clone(),
        password_hash,
        full_name: None,
        role: String::from_str("user"),
        status: String::from_str("active"),
    }
}

/// Registers an account: validates the request, hashes the password, and
/// builds the row to insert. Any row returned verifies the submitted
/// password against its stored hash.
pub fn register(req: &RegisterRequest) -> (r: Result<NewUser, RegisterError>)
    ensures
        !valid_registration(req@) ==> (r matches Err(e) && (e matches RegisterError::Invalid(m)
            && m@ == validation_message(req@))),
        (r matches Err(e) && e is HashFailure) ==> valid_registration(req@),
        r matches Ok(u) ==> valid_registration(req@) && u@.username == req.username@ && u@.email
            == req.email@ && password_ok(req.password@, u@.password_hash) && u@.full_name is None
            && u@.role == "user"@ && u@.status == "active"@,
{
    match req.validate() {
        Err(m) => Err(RegisterError::Invalid(m)),
        Ok(()) => match hash_password(req.password.as_str()) {
            Some(h) => Ok(new_user_record(req, h)),
            None => Err(RegisterError::HashFailure),
        },
    }
}

} // verus!
