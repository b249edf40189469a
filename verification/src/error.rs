//! Errors of the client: what a request can fail with, and how the
//! application classifies failures.
use vstd::prelude::*;
use crate::text::{decimal_spec, join2, join3, u32_to_text};
use vstd::std_specs::convert::FromSpecImpl;

verus! {

/// The error codes the server's API reports.
#[derive(Clone, Copy, Debug, PartialEq, Eq, Structural)]
pub enum ApiErrorCode {
    InvalidUserIdentifier,
    BadRequest,
    NotFound,
    Conflict,
    Unauthorized,
    Forbidden,
    InternalError,
}

/// How an API request failed.
#[derive(Clone, Debug)]
pub enum ApiClientError {
    /// The request did not reach the server or got no answer.
    Transport { message: String },
    /// The server answered with an error status and a readable error body.
    Api { status: u16, code: ApiErrorCode, message: Option<String> },
    /// The server's answer could not be read.
    InvalidResponse { message: String },
}

impl ApiErrorCode {
    /// The code as the server writes it.
    pub open spec fn code_text(self) -> Seq<char> {
        match self {
            ApiErrorCode::InvalidUserIdentifier => "invalid_user_identifier"@,
            ApiErrorCode::BadRequest => "bad_request"@,
            ApiErrorCode::NotFound => "not_found"@,
            ApiErrorCode::Conflict => "conflict"@,
            ApiErrorCode::Unauthorized => "unauthorized"@,
            ApiErrorCode::Forbidden => "forbidden"@,
            ApiErrorCode::InternalError => "internal_error"@,
        }
    }

    /// The code as the server writes it.
    pub fn as_text(&self) -> (r: &'static str)
        ensures
            r@ == self.code_text(),
    {
        match self {
            ApiErrorCode::InvalidUserIdentifier => "invalid_user_identifier",
            ApiErrorCode::BadRequest => "bad_request",
            ApiErrorCode::NotFound => "not_found",
            ApiErrorCode::Conflict => "conflict",
            ApiErrorCode::Unauthorized => "unauthorized",
            ApiErrorCode::Forbidden => "forbidden",
            ApiErrorCode::InternalError => "internal_error",
        }
    }
}

/// The reason phrase that the HTTP crate gives a status code, if it knows
/// one.
pub uninterp spec fn canonical_reason_of(status: u16) -> Option<Seq<char>>;

/// `http::StatusCode::from_u16` followed by `canonical_reason`.  Claimed:
/// the phrase is the one named by `canonical_reason_of`, and a number
/// outside 100 to 999, which is no status code, has none.
#[verifier::external_body]
fn status_reason(status: u16) -> (r: Option<&'static str>)
    ensures
        match (r, canonical_reason_of(status)) {
            (Some(t), Some(u)) => t@ == u,
            (None, None) => true,
            _ => false,
        },
        status < 100 || status > 999 ==> r is None,
{
    match reqwest::StatusCode::from_u16(status) {
        Ok(code) => code.canonical_reason(),
        Err(_) => None,
    }
}

/// A status code as the HTTP crate prints it: the number and its phrase.
pub open spec fn status_line(status: u16) -> Seq<char> {
    decimal_spec(status as nat) + " "@ + match canonical_reason_of(status) {
        Some(reason) => reason,
        None => "<unknown status code>"@,
    }
}

/// A status code as the HTTP crate prints it.
pub fn status_text(status: u16) -> (r: String)
    ensures
        r@ == status_line(status),
{
    let number = u32_to_text(status as u32);
    match status_reason(status) {
        Some(reason) => join3(number.as_str(), " ", reason),
        None => join3(number.as_str(), " ", "<unknown status code>"),
    }
}

impl ApiClientError {
    /// The failure as the log writes it.
    pub open spec fn description(self) -> Seq<char> {
        match self {
            ApiClientError::Transport { message } => "API request failed: "@ + message@,
            ApiClientError::Api { status, code, message } => match message {
                Some(m) => "HTTP "@ + status_line(status) + " ["@ + code.code_text() + "]: "@
                    + m@,
                None => "HTTP "@ + status_line(status) + " ["@ + code.code_text() + "]"@,
            },
            ApiClientError::InvalidResponse { message } => "Invalid API response: "@ + message@,
        }
    }

    /// The failure as the log writes it.
    pub fn describe(&self) -> (r: String)
        ensures
            r@ == self.description(),
    {
        match self {
            ApiClientError::Transport { message } => join2("API request failed: ", message.as_str()),
            ApiClientError::Api { status, code, message } => {
                let status_part = join2("HTTP ", status_text(*status).as_str());
                let coded = join3(status_part.as_str(), " [", code.as_text());
                match message {
                    Some(m) => join3(coded.as_str(), "]: ", m.as_str()),
                    None => join2(coded.as_str(), "]"),
                }
            },
            ApiClientError::InvalidResponse { message } => join2(
                "Invalid API response: ",
                message.as_str(),
            ),
        }
    }
}

/// Why an operation needs an administrator token.
#[derive(Clone, Copy, Debug, PartialEq, Eq, Structural)]
pub enum AuthorizationOperation {
    TopUp,
    EndAdminSession,
    CreateUser,
    UpdateUser,
    GrantAdmin,
    RevokeAdmin,
}

/// What the user has to correct before a form can be sent.
#[derive(Clone, Copy, Debug, PartialEq, Eq, Structural)]
pub enum ValidationMessage {
    InvalidAmount,
    CardRequiredTopUp,
    NameRequired,
    UsernameRequired,
    ProgramRequired,
    BirthdateFormat,
    ScanCardFirst,
    InvalidCard,
    UserNotIdentified,
    CardRequiredGrant,
    PasswordRequired,
    ConfirmRequired,
    PasswordsMismatch,
    CardRequiredRevoke,
    AdminRequiredAuth,
}

/// A failure as the application reports it.
#[derive(Clone, Copy, Debug, PartialEq, Eq, Structural)]
pub enum AppError {
    /// The API returned an error that has no distinct client behaviour.
    Api,
    Unauthorized,
    Forbidden,
    NotFound,
    InvalidUserIdentifier,
    Conflict,
    BadRequest,
    Transport,
    InvalidResponse,
    Validation(ValidationMessage),
    MissingAuthorization { operation: AuthorizationOperation },
    SessionExpired,
}

impl AppError {
    pub open spec fn code_text(self) -> Seq<char> {
        match self {
            AppError::Api => "api"@,
            AppError::Unauthorized => "unauthorized"@,
            AppError::Forbidden => "forbidden"@,
            AppError::NotFound => "not_found"@,
            AppError::InvalidUserIdentifier => "invalid_user_identifier"@,
            AppError::Conflict => "conflict"@,
            AppError::BadRequest => "bad_request"@,
            AppError::Transport => "transport"@,
            AppError::InvalidResponse => "invalid_response"@,
            AppError::Validation(_) => "validation"@,
            AppError::MissingAuthorization { .. } => "missing_authorization"@,
            AppError::SessionExpired => "session_expired"@,
        }
    }

    /// The stable code of the error, as written to the log.
    pub fn code(&self) -> (r: &'static str)
        ensures
            r@ == self.code_text(),
    {
        match self {
            AppError::Api => "api",
            AppError::Unauthorized => "unauthorized",
            AppError::Forbidden => "forbidden",
            AppError::NotFound => "not_found",
            AppError::InvalidUserIdentifier => "invalid_user_identifier",
            AppError::Conflict => "conflict",
            AppError::BadRequest => "bad_request",
            AppError::Transport => "transport",
            AppError::InvalidResponse => "invalid_response",
            AppError::Validation(_) => "validation",
            AppError::MissingAuthorization { .. } => "missing_authorization",
            AppError::SessionExpired => "session_expired",
        }
    }

    /// The application error that an API failure is reported as.
    pub open spec fn of_client_error(e: ApiClientError) -> AppError {
        match e {
            ApiClientError::Transport { .. } => AppError::Transport,
            ApiClientError::InvalidResponse { .. } => AppError::InvalidResponse,
            ApiClientError::Api { code, .. } => match code {
                ApiErrorCode::InvalidUserIdentifier => AppError::InvalidUserIdentifier,
                ApiErrorCode::BadRequest => AppError::BadRequest,
                ApiErrorCode::NotFound => AppError::NotFound,
                ApiErrorCode::Conflict => AppError::Conflict,
                ApiErrorCode::Unauthorized => AppError::Unauthorized,
                ApiErrorCode::Forbidden => AppError::Forbidden,
                ApiErrorCode::InternalError => AppError::Api,
            },
        }
    }

    /// Classifies an API failure.
    pub fn from_client_error(error: &ApiClientError) -> (r: AppError)
        ensures
            r == AppError::of_client_error(*error),
    {
        match error {
            ApiClientError::Transport { .. } => AppError::Transport,
            ApiClientError::InvalidResponse { .. } => AppError::InvalidResponse,
            ApiClientError::Api { code, .. } => match code {
                ApiErrorCode::InvalidUserIdentifier => AppError::InvalidUserIdentifier,
                ApiErrorCode::BadRequest => AppError::BadRequest,
                ApiErrorCode::NotFound => AppError::NotFound,
                ApiErrorCode::Conflict => AppError::Conflict,
                ApiErrorCode::Unauthorized => AppError::Unauthorized,
                ApiErrorCode::Forbidden => AppError::Forbidden,
                ApiErrorCode::InternalError => AppError::Api,
            },
        }
    }
}

impl From<ApiClientError> for AppError {
    fn from(error: ApiClientError) -> (r: AppError) {
        AppError::from_client_error(&error)
    }
}

impl FromSpecImpl<ApiClientError> for AppError {
    open spec fn obeys_from_spec() -> bool {
        true
    }

    open spec fn from_spec(v: ApiClientError) -> AppError {
        AppError::of_client_error(v)
    }
}

} // verus!
