//! The error kinds that the core surfaces, their status codes and bodies.

use vstd::prelude::*;
use vstd::string::*;

verus! {

/// A failure surfaced to the caller.
#[derive(Clone, Copy, Debug, PartialEq, Eq, Structural)]
pub enum AuthError {
    /// Login failed: no such user, or the password does not match.
    InvalidCredentials,
    /// The request carries no acceptable token.
    Unauthenticated,
    /// A specific resource was looked up and is absent.
    NotFound,
    /// A unique key would be duplicated.
    Conflict,
    /// Storage, hashing or token-encoding failure; the detail stays inside.
    Internal,
}

impl AuthError {
    pub open spec fn spec_status_code(self) -> u16 {
        match self {
            AuthError::InvalidCredentials => 400,
            AuthError::Unauthenticated => 401,
            AuthError::NotFound => 404,
            AuthError::Conflict => 409,
            AuthError::Internal => 500,
        }
    }

    pub open spec fn spec_message(self) -> Seq<char> {
        match self {
            AuthError::InvalidCredentials => "Invalid username or password"@,
            AuthError::Unauthenticated => "You are not logged in, please provide token"@,
            AuthError::NotFound => "Not found"@,
            AuthError::Conflict => "Already exists"@,
            AuthError::Internal => "Internal server error"@,
        }
    }

    /// The HTTP status code of this error kind.
    pub fn status_code(&self) -> (r: u16)
        ensures
            r == self.spec_status_code(),
    {
        match self {
            AuthError::InvalidCredentials => 400,
            AuthError::Unauthenticated => 401,
            AuthError::NotFound => 404,
            AuthError::Conflict => 409,
            AuthError::Internal => 500,
        }
    }

    /// The stable message shown for this error kind.
    pub fn message(&self) -> (r: &'static str)
        ensures
            r@ == self.spec_message(),
    {
        match self {
            AuthError::InvalidCredentials => "Invalid username or password",
            AuthError::Unauthenticated => "You are not logged in, please provide token",
            AuthError::NotFound => "Not found",
            AuthError::Conflict => "Already exists",
            AuthError::Internal => "Internal server error",
        }
    }

    /// The JSON error body: `{"status":"fail","message":"<message>"}`.
    pub fn fail_body(&self) -> (r: String)
        ensures
            r@ == fail_body_text(self.spec_message()),
    {
        let mut out = String::from_str("{\"status\":\"fail\",\"message\":\"");
        out.append(self.message());
        out.append("\"}");
        out
    }
}

/// The error body for `message`, which holds no character that JSON escapes.
pub open spec fn fail_body_text(message: Seq<char>) -> Seq<char> {
    "{\"status\":\"fail\",\"message\":\""@ + message + "\"}"@
}

} // verus!
