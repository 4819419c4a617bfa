//! Errors that a caller of the management API sees.
use crate::text::lit;
use vstd::prelude::*;
use vstd::string::*;

verus! {

/// Why a request failed.
#[derive(Debug, PartialEq, Eq)]
pub enum AppError {
    BadRequest(String),
    Unauthorized,
    Forbidden,
    NotFound,
    Conflict(String),
    /// An internal failure, by its message.
    Anyhow(String),
    /// A database failure, by its message.
    Sqlx(String),
}

pub type ApiResult<T> = Result<T, AppError>;

/// The mathematical form of an error.
#[verifier::ext_equal]
pub ghost enum ErrorV {
    BadRequest(Seq<char>),
    Unauthorized,
    Forbidden,
    NotFound,
    Conflict(Seq<char>),
    Anyhow(Seq<char>),
    Sqlx(Seq<char>),
}

impl View for AppError {
    type V = ErrorV;

    open spec fn view(&self) -> ErrorV {
        match self {
            AppError::BadRequest(m) => ErrorV::BadRequest(m@),
            AppError::Unauthorized => ErrorV::Unauthorized,
            AppError::Forbidden => ErrorV::Forbidden,
            AppError::NotFound => ErrorV::NotFound,
            AppError::Conflict(m) => ErrorV::Conflict(m@),
            AppError::Anyhow(m) => ErrorV::Anyhow(m@),
            AppError::Sqlx(m) => ErrorV::Sqlx(m@),
        }
    }
}

impl ErrorV {
    /// The HTTP status that answers the error.
    pub open spec fn status(self) -> nat {
        match self {
            ErrorV::BadRequest(_) => 400,
            ErrorV::Unauthorized => 401,
            ErrorV::Forbidden => 403,
            ErrorV::NotFound => 404,
            ErrorV::Conflict(_) => 409,
            ErrorV::Anyhow(_) => 500,
            ErrorV::Sqlx(_) => 500,
        }
    }

    /// The message that goes out with the status. A database failure is not
    /// described to the caller.
    pub open spec fn message(self) -> Seq<char> {
        match self {
            ErrorV::BadRequest(m) => m,
            ErrorV::Unauthorized => "unauthorized"@,
            ErrorV::Forbidden => "forbidden"@,
            ErrorV::NotFound => "not found"@,
            ErrorV::Conflict(m) => m,
            ErrorV::Anyhow(m) => m,
            ErrorV::Sqlx(_) => "database error"@,
        }
    }
}

impl AppError {
    pub fn bad(msg: &str) -> (r: AppError)
        ensures
            r@ == ErrorV::BadRequest(msg@),
    {
        AppError::BadRequest(lit(msg))
    }

    /// The HTTP status that answers the error.
    pub fn status(&self) -> (r: u16)
        ensures
            r as nat == self@.status(),
    {
        match self {
            AppError::BadRequest(_) => 400,
            AppError::Unauthorized => 401,
            AppError::Forbidden => 403,
            AppError::NotFound => 404,
            AppError::Conflict(_) => 409,
            AppError::Anyhow(_) => 500,
            AppError::Sqlx(_) => 500,
        }
    }

    /// The message that goes out with the status.
    pub fn message(&self) -> (r: String)
        ensures
            r@ == self@.message(),
    {
        match self {
            AppError::BadRequest(m) => lit(m),
            AppError::Unauthorized => lit("unauthorized"),
            AppError::Forbidden => lit("forbidden"),
            AppError::NotFound => lit("not found"),
            AppError::Conflict(m) => lit(m),
            AppError::Anyhow(m) => lit(m),
            AppError::Sqlx(_) => lit("database error"),
        }
    }
}

/// What goes wrong is answered with the status that says whose fault it is; what a
/// database says is not handed out.
pub proof fn law_answers_to_errors(m: Seq<char>, n: Seq<char>)
    ensures
        ErrorV::BadRequest(m).status() == 400 && ErrorV::BadRequest(m).message() == m,
        ErrorV::Conflict(m).status() == 409 && ErrorV::Conflict(m).message() == m,
        ErrorV::Unauthorized.status() == 401 && ErrorV::Forbidden.status() == 403
            && ErrorV::NotFound.status() == 404,
        ErrorV::Anyhow(m).status() == 500 && ErrorV::Sqlx(m).status() == 500,
        ErrorV::Sqlx(m).message() == ErrorV::Sqlx(n).message(),
        ErrorV::Anyhow(m).message() == m,
{
}

} // verus!
