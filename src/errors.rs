use vstd::prelude::*;

verus! {

/// How a failure is answered at the service boundary.
#[derive(Clone, Copy, Debug, PartialEq, Eq, Structural)]
pub enum ErrorCategory {
    Unauthorized,
    ClientError,
    ServerError,
}

/// Every failure of the service, as one closed set of kinds.
#[derive(Clone, Copy, Debug, PartialEq, Eq, Structural)]
pub enum AppError {
    /// No credential header on a task request.
    MissingToken,
    /// A credential header that is not readable text.
    MalformedHeader,
    /// A credential that did not verify.
    InvalidToken,
    /// Registration of an email that is already registered.
    AlreadyExists,
    /// Sign-in with an email that was never registered.
    NotRegistered,
    /// Sign-in with the wrong password.
    WrongPassword,
    /// Update of a task id that does not exist.
    NotFound,
    /// Update of a task owned by someone else.
    NotOwner,
    /// The store's lock was poisoned by an earlier failure.
    StoreUnavailable,
    /// The password hash could not be produced.
    HashingFailure,
    /// The session token could not be produced.
    TokenIssueFailure,
    /// No further task id fits in a `u32`.
    IdSpaceExhausted,
}

impl AppError {
    pub open spec fn category_spec(self) -> ErrorCategory {
        match self {
            AppError::MissingToken | AppError::MalformedHeader | AppError::InvalidToken => ErrorCategory::Unauthorized,
            AppError::AlreadyExists | AppError::NotRegistered | AppError::WrongPassword
            | AppError::NotFound | AppError::NotOwner => ErrorCategory::ClientError,
            _ => ErrorCategory::ServerError,
        }
    }

    pub open spec fn message_spec(self) -> Seq<char> {
        match self {
            AppError::MissingToken => "Token Not found"@,
            AppError::MalformedHeader | AppError::InvalidToken => "Invalid Token"@,
            AppError::AlreadyExists => "User exists already"@,
            AppError::NotRegistered => "Signup first"@,
            AppError::WrongPassword => "Enter valid Password"@,
            AppError::NotFound => "Enter Valid todo id"@,
            AppError::NotOwner => "UNAUTHORISED"@,
            AppError::HashingFailure | AppError::TokenIssueFailure => "Internal Error"@,
            _ => "Internal Server Error"@,
        }
    }

    /// The response category: unauthorized, client error or server error.
    pub fn category(&self) -> (r: ErrorCategory)
        ensures
            r == self.category_spec(),
    {
        match self {
            AppError::MissingToken | AppError::MalformedHeader | AppError::InvalidToken => ErrorCategory::Unauthorized,
            AppError::AlreadyExists | AppError::NotRegistered | AppError::WrongPassword
            | AppError::NotFound | AppError::NotOwner => ErrorCategory::ClientError,
            _ => ErrorCategory::ServerError,
        }
    }

    /// The human-readable message shown to the client.
    pub fn message(&self) -> (r: String)
        ensures
            r@ == self.message_spec(),
    {
        let s: &str = match self {
            AppError::MissingToken => "Token Not found",
            AppError::MalformedHeader | AppError::InvalidToken => "Invalid Token",
            AppError::AlreadyExists => "User exists already",
            AppError::NotRegistered => "Signup first",
            AppError::WrongPassword => "Enter valid Password",
            AppError::NotFound => "Enter Valid todo id",
            AppError::NotOwner => "UNAUTHORISED",
            AppError::HashingFailure | AppError::TokenIssueFailure => "Internal Error",
            _ => "Internal Server Error",
        };
        s.to_owned()
    }
}

} // verus!
