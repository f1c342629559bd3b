//! The gateway's error type and the way each error is shown to a client.

use vstd::prelude::*;
use vstd::string::*;

verus! {

/// The kinds of failure the gateway distinguishes.
#[derive(Clone, Copy, Debug, PartialEq, Eq, Structural)]
pub enum ErrorKind {
    NotFound,
    BadRequest,
    Unauthorized,
    SessionExpired,
    InvalidSession,
    OAuth,
    Upstream,
    TokenRefresh,
    Redis,
    HttpClient,
    Json,
    Config,
    Crypto,
    ResponseTooLarge,
    Internal,
}

/// An error raised while serving a request.
#[derive(Debug)]
pub enum AppError {
    NotFound(String),
    BadRequest(String),
    Unauthorized(String),
    SessionExpired,
    InvalidSession,
    OAuth(String),
    Upstream { status: u16, message: String },
    TokenRefresh(String),
    Redis(String),
    HttpClient(String),
    Json(String),
    Config(String),
    Crypto(String),
    ResponseTooLarge(String),
    Internal(String),
}

/// Result type of the gateway's operations.
pub type AppResult<T> = Result<T, AppError>;

/// What an [`AppError`] is, as plain values: its kind, its text (empty where
/// the kind carries none) and, for `Upstream`, the upstream status (else 0).
pub struct ErrorView {
    pub kind: ErrorKind,
    pub detail: Seq<char>,
    pub status: u16,
}

impl View for AppError {
    type V = ErrorView;

    open spec fn view(&self) -> ErrorView {
        match self {
            AppError::NotFound(m) => ErrorView { kind: ErrorKind::NotFound, detail: m@, status: 0 },
            AppError::BadRequest(m) => ErrorView {
                kind: ErrorKind::BadRequest,
                detail: m@,
                status: 0,
            },
            AppError::Unauthorized(m) => ErrorView {
                kind: ErrorKind::Unauthorized,
                detail: m@,
                status: 0,
            },
            AppError::SessionExpired => ErrorView {
                kind: ErrorKind::SessionExpired,
                detail: Seq::empty(),
                status: 0,
            },
            AppError::InvalidSession => ErrorView {
                kind: ErrorKind::InvalidSession,
                detail: Seq::empty(),
                status: 0,
            },
            AppError::OAuth(m) => ErrorView { kind: ErrorKind::OAuth, detail: m@, status: 0 },
            AppError::Upstream { status, message } => ErrorView {
                kind: ErrorKind::Upstream,
                detail: message@,
                status: *status,
            },
            AppError::TokenRefresh(m) => ErrorView {
                kind: ErrorKind::TokenRefresh,
                detail: m@,
                status: 0,
            },
            AppError::Redis(m) => ErrorView { kind: ErrorKind::Redis, detail: m@, status: 0 },
            AppError::HttpClient(m) => ErrorView {
                kind: ErrorKind::HttpClient,
                detail: m@,
                status: 0,
            },
            AppError::Json(m) => ErrorView { kind: ErrorKind::Json, detail: m@, status: 0 },
            AppError::Config(m) => ErrorView { kind: ErrorKind::Config, detail: m@, status: 0 },
            AppError::Crypto(m) => ErrorView { kind: ErrorKind::Crypto, detail: m@, status: 0 },
            AppError::ResponseTooLarge(m) => ErrorView {
                kind: ErrorKind::ResponseTooLarge,
                detail: m@,
                status: 0,
            },
            AppError::Internal(m) => ErrorView { kind: ErrorKind::Internal, detail: m@, status: 0 },
        }
    }
}

/// What a client is told about an error: the HTTP status and the two
/// members of the JSON body.
pub struct ErrorResponse {
    pub status: u16,
    pub error: String,
    pub message: String,
}

/// The HTTP status an error is answered with. An upstream status that is no
/// HTTP status (outside 100..=999) is answered with 502.
pub open spec fn http_status(e: ErrorView) -> u16 {
    match e.kind {
        ErrorKind::NotFound => 404,
        ErrorKind::BadRequest | ErrorKind::OAuth => 400,
        ErrorKind::Unauthorized | ErrorKind::SessionExpired | ErrorKind::InvalidSession
        | ErrorKind::TokenRefresh => 401,
        ErrorKind::Upstream => if 100 <= e.status <= 999 {
            e.status
        } else {
            502
        },
        ErrorKind::ResponseTooLarge => 502,
        ErrorKind::Redis | ErrorKind::HttpClient | ErrorKind::Json | ErrorKind::Config
        | ErrorKind::Crypto | ErrorKind::Internal => 500,
    }
}

/// The `error` member of the body: the kind, in snake case. All failures
/// inside the server share one discriminator.
pub open spec fn error_code(kind: ErrorKind) -> Seq<char> {
    match kind {
        ErrorKind::NotFound => "not_found"@,
        ErrorKind::BadRequest => "bad_request"@,
        ErrorKind::Unauthorized => "unauthorized"@,
        ErrorKind::SessionExpired => "session_expired"@,
        ErrorKind::InvalidSession => "invalid_session"@,
        ErrorKind::OAuth => "oauth_error"@,
        ErrorKind::Upstream => "upstream_error"@,
        ErrorKind::TokenRefresh => "token_refresh_failed"@,
        ErrorKind::ResponseTooLarge => "response_too_large"@,
        ErrorKind::Redis | ErrorKind::HttpClient | ErrorKind::Json | ErrorKind::Config
        | ErrorKind::Crypto | ErrorKind::Internal => "internal_error"@,
    }
}

/// The `message` member of the body. Failures inside the server get a fixed
/// sentence: their own text is for the server's log only.
pub open spec fn public_message(e: ErrorView) -> Seq<char> {
    match e.kind {
        ErrorKind::SessionExpired => "Your session has expired. Please log in again."@,
        ErrorKind::InvalidSession => "Invalid session. Please log in again."@,
        ErrorKind::Redis | ErrorKind::Internal => "An internal error occurred"@,
        ErrorKind::HttpClient => "Failed to communicate with upstream server"@,
        ErrorKind::Json => "Failed to process response"@,
        ErrorKind::Config => "Server configuration error"@,
        ErrorKind::Crypto => "Cryptographic operation failed"@,
        _ => e.detail,
    }
}

/// Whether a client that gets this error has to log in again.
pub open spec fn forces_login(kind: ErrorKind) -> bool {
    kind == ErrorKind::SessionExpired || kind == ErrorKind::InvalidSession || kind
        == ErrorKind::TokenRefresh
}

impl AppError {
    /// The kind of this error.
    pub fn kind(&self) -> (k: ErrorKind)
        ensures
            k == self@.kind,
    {
        match self {
            AppError::NotFound(_) => ErrorKind::NotFound,
            AppError::BadRequest(_) => ErrorKind::BadRequest,
            AppError::Unauthorized(_) => ErrorKind::Unauthorized,
            AppError::SessionExpired => ErrorKind::SessionExpired,
            AppError::InvalidSession => ErrorKind::InvalidSession,
            AppError::OAuth(_) => ErrorKind::OAuth,
            AppError::Upstream { .. } => ErrorKind::Upstream,
            AppError::TokenRefresh(_) => ErrorKind::TokenRefresh,
            AppError::Redis(_) => ErrorKind::Redis,
            AppError::HttpClient(_) => ErrorKind::HttpClient,
            AppError::Json(_) => ErrorKind::Json,
            AppError::Config(_) => ErrorKind::Config,
            AppError::Crypto(_) => ErrorKind::Crypto,
            AppError::ResponseTooLarge(_) => ErrorKind::ResponseTooLarge,
            AppError::Internal(_) => ErrorKind::Internal,
        }
    }

    /// The HTTP status this error is answered with.
    pub fn status_code(&self) -> (s: u16)
        ensures
            s == http_status(self@),
    {
        match self {
            AppError::NotFound(_) => 404,
            AppError::BadRequest(_) | AppError::OAuth(_) => 400,
            AppError::Unauthorized(_) | AppError::SessionExpired | AppError::InvalidSession
            | AppError::TokenRefresh(_) => 401,
            AppError::Upstream { status, .. } => if 100 <= *status && *status <= 999 {
                *status
            } else {
                502
            },
            AppError::ResponseTooLarge(_) => 502,
            AppError::Redis(_) | AppError::HttpClient(_) | AppError::Json(_) | AppError::Config(_)
            | AppError::Crypto(_) | AppError::Internal(_) => 500,
        }
    }

    /// The `error` member of the JSON body.
    pub fn error_type(&self) -> (s: &'static str)
        ensures
            s@ == error_code(self@.kind),
    {
        match self {
            AppError::NotFound(_) => "not_found",
            AppError::BadRequest(_) => "bad_request",
            AppError::Unauthorized(_) => "unauthorized",
            AppError::SessionExpired => "session_expired",
            AppError::InvalidSession => "invalid_session",
            AppError::OAuth(_) => "oauth_error",
            AppError::Upstream { .. } => "upstream_error",
            AppError::TokenRefresh(_) => "token_refresh_failed",
            AppError::ResponseTooLarge(_) => "response_too_large",
            AppError::Redis(_) | AppError::HttpClient(_) | AppError::Json(_) | AppError::Config(_)
            | AppError::Crypto(_) | AppError::Internal(_) => "internal_error",
        }
    }

    /// The `message` member of the JSON body.
    pub fn message(&self) -> (s: String)
        ensures
            s@ == public_message(self@),
    {
        match self {
            AppError::SessionExpired => String::from_str(
                "Your session has expired. Please log in again.",
            ),
            AppError::InvalidSession => String::from_str("Invalid session. Please log in again."),
            AppError::Redis(_) | AppError::Internal(_) => String::from_str(
                "An internal error occurred",
            ),
            AppError::HttpClient(_) => String::from_str(
                "Failed to communicate with upstream server",
            ),
            AppError::Json(_) => String::from_str("Failed to process response"),
            AppError::Config(_) => String::from_str("Server configuration error"),
            AppError::Crypto(_) => String::from_str("Cryptographic operation failed"),
            AppError::NotFound(m) | AppError::BadRequest(m) | AppError::Unauthorized(m)
            | AppError::OAuth(m) | AppError::TokenRefresh(m) | AppError::ResponseTooLarge(m) => {
                m.clone()
            },
            AppError::Upstream { message, .. } => message.clone(),
        }
    }

    /// The text kept for the server's log: what the error carries, or the
    /// empty string where its kind carries none.
    pub fn detail(&self) -> (s: String)
        ensures
            s@ == self@.detail,
    {
        match self {
            AppError::SessionExpired | AppError::InvalidSession => String::new(),
            AppError::NotFound(m) | AppError::BadRequest(m) | AppError::Unauthorized(m)
            | AppError::OAuth(m) | AppError::TokenRefresh(m) | AppError::ResponseTooLarge(m)
            | AppError::Redis(m) | AppError::HttpClient(m) | AppError::Json(m)
            | AppError::Config(m) | AppError::Crypto(m) | AppError::Internal(m) => m.clone(),
            AppError::Upstream { message, .. } => message.clone(),
        }
    }

    /// The status and body a client receives for this error.
    pub fn into_response(self) -> (r: ErrorResponse)
        ensures
            r.status == http_status(self@),
            r.error@ == error_code(self@.kind),
            r.message@ == public_message(self@),
    {
        let status = self.status_code();
        let error = String::from_str(self.error_type());
        let message = self.message();
        ErrorResponse { status, error, message }
    }

    /// A copy of this error.
    pub fn duplicate(&self) -> (r: AppError)
        ensures
            r@ == self@,
    {
        match self {
            AppError::NotFound(m) => AppError::NotFound(m.clone()),
            AppError::BadRequest(m) => AppError::BadRequest(m.clone()),
            AppError::Unauthorized(m) => AppError::Unauthorized(m.clone()),
            AppError::SessionExpired => AppError::SessionExpired,
            AppError::InvalidSession => AppError::InvalidSession,
            AppError::OAuth(m) => AppError::OAuth(m.clone()),
            AppError::Upstream { status, message } => AppError::Upstream {
                status: *status,
                message: message.clone(),
            },
            AppError::TokenRefresh(m) => AppError::TokenRefresh(m.clone()),
            AppError::Redis(m) => AppError::Redis(m.clone()),
            AppError::HttpClient(m) => AppError::HttpClient(m.clone()),
            AppError::Json(m) => AppError::Json(m.clone()),
            AppError::Config(m) => AppError::Config(m.clone()),
            AppError::Crypto(m) => AppError::Crypto(m.clone()),
            AppError::ResponseTooLarge(m) => AppError::ResponseTooLarge(m.clone()),
            AppError::Internal(m) => AppError::Internal(m.clone()),
        }
    }
}

/// Every error that sends the client back to the login is answered with
/// 401, and carries a code of its own by which the client tells it from
/// other failures.
pub proof fn login_errors_are_unauthorized(e: ErrorView)
    requires
        forces_login(e.kind),
    ensures
        http_status(e) == 401,
        error_code(e.kind) != "unauthorized"@,
        error_code(e.kind) != "internal_error"@,
{
    reveal_strlit("unauthorized");
    reveal_strlit("internal_error");
    reveal_strlit("session_expired");
    reveal_strlit("invalid_session");
    reveal_strlit("token_refresh_failed");
    assert("session_expired"@.len() == 15);
    assert("invalid_session"@.len() == 15);
    assert("token_refresh_failed"@.len() == 20);
    assert("unauthorized"@.len() == 12);
    assert("internal_error"@.len() == 14);
}

} // verus!
