use vstd::prelude::*;
use vstd::string::*;

verus! {

/// The error that `bcrypt` reports when hashing or verification fails.
#[verifier::external_type_specification]
#[verifier::external_body]
pub struct ExBcryptError(bcrypt::BcryptError);

/// One failed rule of a request body.
#[derive(Clone, Debug)]
pub struct ValidationIssue {
    /// The field that failed.
    pub field: String,
    /// The kind of rule that failed (`length` or `email`).
    pub code: String,
    /// The message that the rule carries.
    pub message: String,
}

/// Every error that an operation of the service can end with.
#[derive(Debug)]
pub enum AppError {
    BadRequest(String),
    Unauthorized,
    Forbidden,
    NotFound,
    Conflict(String),
    Database,
    InternalServerError,
    PassWordHashErr(bcrypt::BcryptError),
    Validation(Vec<ValidationIssue>),
}

/// The HTTP status with which an error is answered.
pub open spec fn status_of(e: AppError) -> u16 {
    match e {
        AppError::BadRequest(_) => 400,
        AppError::Unauthorized => 401,
        AppError::Forbidden => 403,
        AppError::NotFound => 404,
        AppError::Conflict(_) => 409,
        AppError::Database => 500,
        AppError::InternalServerError => 500,
        AppError::PassWordHashErr(_) => 500,
        AppError::Validation(_) => 400,
    }
}

/// The text that the answer to an error carries; `None` for validation
/// errors, whose answer carries the list of failed rules instead.
pub open spec fn message_of(e: AppError) -> Option<Seq<char>> {
    match e {
        AppError::BadRequest(m) => Some(m@),
        AppError::Unauthorized => Some("Unauthorized"@),
        AppError::Forbidden => Some("Forbidden"@),
        AppError::NotFound => Some("Not Found"@),
        AppError::Conflict(m) => Some(m@),
        AppError::Database => Some("Data Base Error"@),
        AppError::InternalServerError => Some("Internal Server Error"@),
        AppError::PassWordHashErr(_) => Some("Password hash Error"@),
        AppError::Validation(_) => None,
    }
}

impl AppError {
    /// The HTTP status with which this error is answered.
    pub fn status_code(&self) -> (code: u16)
        ensures
            code == status_of(*self),
    {
        match self {
            AppError::BadRequest(_) => 400,
            AppError::Unauthorized => 401,
            AppError::Forbidden => 403,
            AppError::NotFound => 404,
            AppError::Conflict(_) => 409,
            AppError::Database => 500,
            AppError::InternalServerError => 500,
            AppError::PassWordHashErr(_) => 500,
            AppError::Validation(_) => 400,
        }
    }

    /// The text of the answer to this error, if it is answered with text.
    pub fn message(&self) -> (m: Option<String>)
        ensures
            match message_of(*self) {
                Some(t) => m matches Some(s) && s@ == t,
                None => m is None,
            },
    {
        match self {
            AppError::BadRequest(msg) => Some(msg.clone()),
            AppError::Unauthorized => Some(String::from_str("Unauthorized")),
            AppError::Forbidden => Some(String::from_str("Forbidden")),
            AppError::NotFound => Some(String::from_str("Not Found")),
            AppError::Conflict(msg) => Some(msg.clone()),
            AppError::Database => Some(String::from_str("Data Base Error")),
            AppError::InternalServerError => Some(String::from_str("Internal Server Error")),
            AppError::PassWordHashErr(_) => Some(String::from_str("Password hash Error")),
            AppError::Validation(_) => None,
        }
    }

    /// A bad request whose message is empty, as the cursor checks give it.
    pub fn bad_request_empty() -> (e: AppError)
        ensures
            e matches AppError::BadRequest(m) && m@ == Seq::<char>::empty(),
    {
        AppError::BadRequest(String::new())
    }
}

} // verus!
