//! The signup decision: which answer a signup request gets.
//!
//! The checks run in a fixed order and the first that fails names the error:
//! an empty email, then an email of the wrong shape, then an empty password.

use crate::email::{email_shape, is_valid_email, lemma_shaped_email_non_empty};
use vstd::prelude::*;

verus! {

/// A signup request as it arrives in the JSON body.
pub struct SignupRequest {
    pub email: String,
    pub password: String,
    pub requires_2fa: bool,
}

/// The body of a successful signup.
pub struct SignupResponse {
    pub message: String,
}

/// The body of a rejected signup.
pub struct ErrorResponse {
    pub error: String,
}

/// Why a signup request was rejected.
#[derive(Clone, Copy, Debug, PartialEq, Eq, Structural)]
pub enum SignupError {
    EmptyEmail,
    InvalidEmailFormat,
    EmptyPassword,
}

/// The message sent back on success.
pub open spec fn created_message() -> Seq<char> {
    "User created successfully!"@
}

impl SignupError {
    /// The text sent back for this error.
    pub open spec fn message_spec(self) -> Seq<char> {
        match self {
            SignupError::EmptyEmail => "Email cannot be empty"@,
            SignupError::InvalidEmailFormat => "Invalid email format"@,
            SignupError::EmptyPassword => "Password cannot be empty"@,
        }
    }

    /// The text sent back for this error.
    pub fn message(&self) -> (r: String)
        ensures
            r@ == self.message_spec(),
    {
        match self {
            SignupError::EmptyEmail => String::from_str("Email cannot be empty"),
            SignupError::InvalidEmailFormat => String::from_str("Invalid email format"),
            SignupError::EmptyPassword => String::from_str("Password cannot be empty"),
        }
    }
}

/// The outcome of the checks on an email and a password: the first check
/// that fails names the error.
pub open spec fn signup_check(email: Seq<char>, password: Seq<char>) -> Result<(), SignupError> {
    if email.len() == 0 {
        Err(SignupError::EmptyEmail)
    } else if !email_shape(email) {
        Err(SignupError::InvalidEmailFormat)
    } else if password.len() == 0 {
        Err(SignupError::EmptyPassword)
    } else {
        Ok(())
    }
}

/// The HTTP status of the answer: 201 on success, 400 on a rejection.
pub open spec fn signup_status(email: Seq<char>, password: Seq<char>) -> u16 {
    match signup_check(email, password) {
        Ok(()) => 201,
        Err(_) => 400,
    }
}

/// The text of the answer: the success message, or the error's message.
pub open spec fn signup_text(email: Seq<char>, password: Seq<char>) -> Seq<char> {
    match signup_check(email, password) {
        Ok(()) => created_message(),
        Err(e) => e.message_spec(),
    }
}

/// Runs the checks on an email and a password, in order.
pub fn validate_signup(email: &str, password: &str) -> (r: Result<(), SignupError>)
    ensures
        r == signup_check(email@, password@),
{
    if email.is_empty() {
        return Err(SignupError::EmptyEmail);
    }
    if !is_valid_email(email) {
        return Err(SignupError::InvalidEmailFormat);
    }
    if password.is_empty() {
        return Err(SignupError::EmptyPassword);
    }
    Ok(())
}

/// The answer to a signup request.
pub enum SignupReply {
    /// 201 Created, with the success message.
    Created(SignupResponse),
    /// 400 Bad Request, with the reason.
    Rejected(ErrorResponse),
}

impl SignupReply {
    /// The HTTP status of this answer.
    pub open spec fn status_spec(&self) -> u16 {
        match self {
            SignupReply::Created(_) => 201,
            SignupReply::Rejected(_) => 400,
        }
    }

    /// The text carried by this answer: the message or the error.
    pub open spec fn text_spec(&self) -> Seq<char> {
        match self {
            SignupReply::Created(body) => body.message@,
            SignupReply::Rejected(body) => body.error@,
        }
    }

    /// The HTTP status of this answer.
    pub fn status(&self) -> (r: u16)
        ensures
            r == self.status_spec(),
    {
        match self {
            SignupReply::Created(_) => 201,
            SignupReply::Rejected(_) => 400,
        }
    }
}

/// Answers a signup request: 201 with the success message when every check
/// passes, else 400 with the message of the first check that failed.
pub fn signup(request: &SignupRequest) -> (r: SignupReply)
    ensures
        r.status_spec() == signup_status(request.email@, request.password@),
        r.text_spec() == signup_text(request.email@, request.password@),
        r is Created <==> signup_check(request.email@, request.password@) is Ok,
{
    match validate_signup(request.email.as_str(), request.password.as_str()) {
        Ok(()) => SignupReply::Created(SignupResponse {
            message: String::from_str("User created successfully!"),
        }),
        Err(e) => SignupReply::Rejected(ErrorResponse { error: e.message() }),
    }
}

/// Every email of the accepted shape, with a non-empty password, is answered
/// 201 with the success message.
pub proof fn lemma_valid_signup_created(email: Seq<char>, password: Seq<char>)
    requires
        email_shape(email),
        password.len() > 0,
    ensures
        signup_check(email, password) == Ok::<(), SignupError>(()),
        signup_status(email, password) == 201,
        signup_text(email, password) == created_message(),
{
    lemma_shaped_email_non_empty(email);
}

/// An empty email is answered 400 with "Email cannot be empty", whatever the
/// password.
pub proof fn lemma_empty_email_rejected(email: Seq<char>, password: Seq<char>)
    requires
        email.len() == 0,
    ensures
        signup_status(email, password) == 400,
        signup_text(email, password) == SignupError::EmptyEmail.message_spec(),
{
}

/// A non-empty email that does not have the accepted shape is answered 400
/// with "Invalid email format", whatever the password.
pub proof fn lemma_malformed_email_rejected(email: Seq<char>, password: Seq<char>)
    requires
        email.len() > 0,
        !email_shape(email),
    ensures
        signup_status(email, password) == 400,
        signup_text(email, password) == SignupError::InvalidEmailFormat.message_spec(),
{
}

/// An email of the accepted shape with an empty password is answered 400
/// with "Password cannot be empty".
pub proof fn lemma_empty_password_rejected(email: Seq<char>, password: Seq<char>)
    requires
        email_shape(email),
        password.len() == 0,
    ensures
        signup_status(email, password) == 400,
        signup_text(email, password) == SignupError::EmptyPassword.message_spec(),
{
    lemma_shaped_email_non_empty(email);
}

} // verus!
