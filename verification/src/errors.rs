//! Error types of the storage, service, authentication and HTTP layers, and
//! the way each layer's error is classified into the next one.
use vstd::prelude::*;
use vstd::string::*;

verus! {

/// HTTP status codes that the API answers with.
pub const STATUS_BAD_REQUEST: u16 = 400;
pub const STATUS_UNAUTHORIZED: u16 = 401;
pub const STATUS_FORBIDDEN: u16 = 403;
pub const STATUS_NOT_FOUND: u16 = 404;
pub const STATUS_CONFLICT: u16 = 409;
pub const STATUS_UNPROCESSABLE_ENTITY: u16 = 422;
pub const STATUS_INTERNAL_SERVER_ERROR: u16 = 500;

/// Messages that storage failures are reported with.
pub const FORBIDDEN_ACCESS: &'static str = "forbidden access";
pub const RESOURCE_NOT_FOUND: &'static str = "resource not found";
pub const INVALID_OPERATION: &'static str = "invalid operation";
pub const RESOURCE_CONFLICT: &'static str = "resource conflict";
pub const UNAUTHORIZED_ACCESS: &'static str = "unauthorized access";
pub const UNKNOWN_ERROR: &'static str = "unknown error";

/// What the document store reported about a failed request: its HTTP status
/// and its message.
#[derive(Debug)]
pub struct CouchFailure {
    pub status: u16,
    pub message: String,
}

/// Errors of the repository layer.
#[derive(Debug)]
pub enum RepoError {
    EntityExists(String),
    EntityNotFound(String),
    SaveFailed(String),
    UpdateFailed(String),
    DeleteFailed(String),
    FailedToConnect(String),
    InvalidOperation(String),
    ForbiddenAction(String),
    UnknownError(String),
}

impl RepoError {
    /// The message the error carries.
    pub open spec fn msg(self) -> Seq<char> {
        match self {
            RepoError::EntityExists(m) => m@,
            RepoError::EntityNotFound(m) => m@,
            RepoError::SaveFailed(m) => m@,
            RepoError::UpdateFailed(m) => m@,
            RepoError::DeleteFailed(m) => m@,
            RepoError::FailedToConnect(m) => m@,
            RepoError::InvalidOperation(m) => m@,
            RepoError::ForbiddenAction(m) => m@,
            RepoError::UnknownError(m) => m@,
        }
    }

    /// How a store failure with status `status` is classified.
    pub open spec fn classifies_status(self, status: u16) -> bool {
        if status == STATUS_FORBIDDEN {
            self is ForbiddenAction && self.msg() == FORBIDDEN_ACCESS@
        } else if status == STATUS_NOT_FOUND {
            self is EntityNotFound && self.msg() == RESOURCE_NOT_FOUND@
        } else if status == STATUS_BAD_REQUEST {
            self is InvalidOperation && self.msg() == INVALID_OPERATION@
        } else if status == STATUS_CONFLICT {
            self is EntityExists && self.msg() == RESOURCE_CONFLICT@
        } else if status == STATUS_UNAUTHORIZED {
            self is FailedToConnect && self.msg() == UNAUTHORIZED_ACCESS@
        } else {
            self is UnknownError && self.msg() == UNKNOWN_ERROR@
        }
    }

    /// Classifies a failure of the document store by its status code; the
    /// store's own message is replaced by a fixed one per class.
    pub fn from_couch(failure: CouchFailure) -> (r: RepoError)
        ensures
            r.classifies_status(failure.status),
    {
        let status = failure.status;
        if status == STATUS_FORBIDDEN {
            RepoError::ForbiddenAction(String::from_str(FORBIDDEN_ACCESS))
        } else if status == STATUS_NOT_FOUND {
            RepoError::EntityNotFound(String::from_str(RESOURCE_NOT_FOUND))
        } else if status == STATUS_BAD_REQUEST {
            RepoError::InvalidOperation(String::from_str(INVALID_OPERATION))
        } else if status == STATUS_CONFLICT {
            RepoError::EntityExists(String::from_str(RESOURCE_CONFLICT))
        } else if status == STATUS_UNAUTHORIZED {
            RepoError::FailedToConnect(String::from_str(UNAUTHORIZED_ACCESS))
        } else {
            RepoError::UnknownError(String::from_str(UNKNOWN_ERROR))
        }
    }
}


/// Errors of the service layer: one for each repository error, with the
/// same message.
#[derive(Debug)]
pub enum ServiceError {
    EntityExists(String),
    EntityNotFound(String),
    SaveFailed(String),
    UpdateFailed(String),
    DeleteFailed(String),
    FailedToConnect(String),
    InvalidOperation(String),
    ForbiddenAction(String),
    UnknownError(String),
}

/// The service error a repository error becomes: the same kind, the same
/// message.
pub open spec fn service_error_of(re: RepoError) -> ServiceError {
    match re {
        RepoError::EntityExists(e) => ServiceError::EntityExists(e),
        RepoError::EntityNotFound(e) => ServiceError::EntityNotFound(e),
        RepoError::SaveFailed(e) => ServiceError::SaveFailed(e),
        RepoError::UpdateFailed(e) => ServiceError::UpdateFailed(e),
        RepoError::DeleteFailed(e) => ServiceError::DeleteFailed(e),
        RepoError::FailedToConnect(e) => ServiceError::FailedToConnect(e),
        RepoError::InvalidOperation(e) => ServiceError::InvalidOperation(e),
        RepoError::ForbiddenAction(e) => ServiceError::ForbiddenAction(e),
        RepoError::UnknownError(e) => ServiceError::UnknownError(e),
    }
}

impl From<RepoError> for ServiceError {
    fn from(re: RepoError) -> (r: ServiceError) {
        match re {
            RepoError::EntityExists(e) => ServiceError::EntityExists(e),
            RepoError::EntityNotFound(e) => ServiceError::EntityNotFound(e),
            RepoError::SaveFailed(e) => ServiceError::SaveFailed(e),
            RepoError::UpdateFailed(e) => ServiceError::UpdateFailed(e),
            RepoError::DeleteFailed(e) => ServiceError::DeleteFailed(e),
            RepoError::FailedToConnect(e) => ServiceError::FailedToConnect(e),
            RepoError::InvalidOperation(e) => ServiceError::InvalidOperation(e),
            RepoError::ForbiddenAction(e) => ServiceError::ForbiddenAction(e),
            RepoError::UnknownError(e) => ServiceError::UnknownError(e),
        }
    }
}

impl vstd::std_specs::convert::FromSpecImpl<RepoError> for ServiceError {
    open spec fn obeys_from_spec() -> bool {
        true
    }

    open spec fn from_spec(re: RepoError) -> ServiceError {
        service_error_of(re)
    }
}

/// Errors of account handling.
#[derive(Debug)]
pub enum AuthError {
    ServiceError(ServiceError),
    AccountExists(String),
    AccountNotFound(String),
    InvalidLogin(String),
    RsendCodeTooSoon(String),
    SMSFailed(String),
}

/// Sending a text message failed.
#[derive(Debug)]
pub struct SmsFailure;

pub const SMS_FAILED: &'static str = "Failed To Send SMS";
pub const INVALID_CREDENTIALS: &'static str = "Invalid Credentials";

impl AuthError {
    /// The message the error carries; that of the service error it wraps,
    /// for a service error.
    pub open spec fn msg(self) -> Seq<char> {
        match self {
            AuthError::ServiceError(e) => e.msg(),
            AuthError::AccountExists(m) => m@,
            AuthError::AccountNotFound(m) => m@,
            AuthError::InvalidLogin(m) => m@,
            AuthError::RsendCodeTooSoon(m) => m@,
            AuthError::SMSFailed(m) => m@,
        }
    }

    /// A failure to send a text message.
    pub fn from_sms_failure(_failure: SmsFailure) -> (r: AuthError)
        ensures
            r is SMSFailed && r.msg() == SMS_FAILED@,
    {
        AuthError::SMSFailed(String::from_str(SMS_FAILED))
    }

    /// A password hash that could not be checked counts as invalid
    /// credentials.
    pub fn from_bcrypt(_err: bcrypt::BcryptError) -> (r: AuthError)
        ensures
            r is InvalidLogin && r.msg() == INVALID_CREDENTIALS@,
    {
        AuthError::InvalidLogin(String::from_str(INVALID_CREDENTIALS))
    }
}

impl ServiceError {
    /// The message the error carries.
    pub open spec fn msg(self) -> Seq<char> {
        match self {
            ServiceError::EntityExists(m) => m@,
            ServiceError::EntityNotFound(m) => m@,
            ServiceError::SaveFailed(m) => m@,
            ServiceError::UpdateFailed(m) => m@,
            ServiceError::DeleteFailed(m) => m@,
            ServiceError::FailedToConnect(m) => m@,
            ServiceError::InvalidOperation(m) => m@,
            ServiceError::ForbiddenAction(m) => m@,
            ServiceError::UnknownError(m) => m@,
        }
    }
}

impl From<RepoError> for AuthError {
    fn from(re: RepoError) -> (r: AuthError) {
        AuthError::ServiceError(ServiceError::from(re))
    }
}

impl vstd::std_specs::convert::FromSpecImpl<RepoError> for AuthError {
    open spec fn obeys_from_spec() -> bool {
        true
    }

    open spec fn from_spec(re: RepoError) -> AuthError {
        AuthError::ServiceError(service_error_of(re))
    }
}

impl From<ServiceError> for AuthError {
    fn from(se: ServiceError) -> (r: AuthError) {
        AuthError::ServiceError(se)
    }
}

impl vstd::std_specs::convert::FromSpecImpl<ServiceError> for AuthError {
    open spec fn obeys_from_spec() -> bool {
        true
    }

    open spec fn from_spec(se: ServiceError) -> AuthError {
        AuthError::ServiceError(se)
    }
}

/// Why a JSON request body could not be read: reading failed, or the text
/// did not parse; with the reason.
#[derive(Debug)]
pub enum JsonBodyError {
    Io(String),
    Parse(String),
}

/// Errors that the HTTP API answers with.
#[derive(Debug)]
pub enum ApiError {
    NotFound(String),
    Forbidden(String),
    BadRequest(String),
    AuthFailed(String),
    RequestThrottled(String),
    Other(String),
    ConflictError(String),
    UnprocessableEntity(String),
    InternalServerError(String),
}

/// The API error a service error becomes.
pub open spec fn api_error_of_service(err: ServiceError) -> ApiError {
    match err {
        ServiceError::EntityNotFound(msg) => ApiError::NotFound(msg),
        ServiceError::ForbiddenAction(msg) => ApiError::Forbidden(msg),
        ServiceError::DeleteFailed(msg) => ApiError::Forbidden(msg),
        ServiceError::EntityExists(msg) => ApiError::ConflictError(msg),
        ServiceError::InvalidOperation(msg) => ApiError::BadRequest(msg),
        ServiceError::SaveFailed(msg) => ApiError::BadRequest(msg),
        ServiceError::UpdateFailed(msg) => ApiError::BadRequest(msg),
        ServiceError::FailedToConnect(msg) => ApiError::BadRequest(msg),
        ServiceError::UnknownError(msg) => ApiError::InternalServerError(msg),
    }
}

/// The API error an account-handling error becomes.
pub open spec fn api_error_of_auth(err: AuthError) -> ApiError {
    match err {
        AuthError::AccountExists(msg) => ApiError::Forbidden(msg),
        AuthError::AccountNotFound(msg) => ApiError::NotFound(msg),
        AuthError::InvalidLogin(msg) => ApiError::AuthFailed(msg),
        AuthError::RsendCodeTooSoon(msg) => ApiError::RequestThrottled(msg),
        AuthError::SMSFailed(msg) => ApiError::Other(msg),
        AuthError::ServiceError(e) => api_error_of_service(e),
    }
}

/// The API error a failure reported by the document store becomes.
pub open spec fn api_error_of_couch(f: CouchFailure) -> ApiError {
    if f.status == STATUS_FORBIDDEN {
        ApiError::Forbidden(f.message)
    } else if f.status == STATUS_NOT_FOUND {
        ApiError::NotFound(f.message)
    } else if f.status == STATUS_BAD_REQUEST {
        ApiError::BadRequest(f.message)
    } else {
        ApiError::Other(f.message)
    }
}

/// The API error an unreadable request body becomes.
pub open spec fn api_error_of_body(e: JsonBodyError) -> ApiError {
    match e {
        JsonBodyError::Io(m) => ApiError::Other(m),
        JsonBodyError::Parse(m) => ApiError::UnprocessableEntity(m),
    }
}

impl From<ServiceError> for ApiError {
    fn from(err: ServiceError) -> (r: ApiError) {
        match err {
            ServiceError::EntityNotFound(msg) => ApiError::NotFound(msg),
            ServiceError::ForbiddenAction(msg) => ApiError::Forbidden(msg),
            ServiceError::DeleteFailed(msg) => ApiError::Forbidden(msg),
            ServiceError::EntityExists(msg) => ApiError::ConflictError(msg),
            ServiceError::InvalidOperation(msg) => ApiError::BadRequest(msg),
            ServiceError::SaveFailed(msg) => ApiError::BadRequest(msg),
            ServiceError::UpdateFailed(msg) => ApiError::BadRequest(msg),
            ServiceError::FailedToConnect(msg) => ApiError::BadRequest(msg),
            ServiceError::UnknownError(msg) => ApiError::InternalServerError(msg),
        }
    }
}

impl vstd::std_specs::convert::FromSpecImpl<ServiceError> for ApiError {
    open spec fn obeys_from_spec() -> bool {
        true
    }

    open spec fn from_spec(err: ServiceError) -> ApiError {
        api_error_of_service(err)
    }
}

impl From<AuthError> for ApiError {
    fn from(ce: AuthError) -> (r: ApiError) {
        match ce {
            AuthError::AccountExists(msg) => ApiError::Forbidden(msg),
            AuthError::AccountNotFound(msg) => ApiError::NotFound(msg),
            AuthError::InvalidLogin(msg) => ApiError::AuthFailed(msg),
            AuthError::RsendCodeTooSoon(msg) => ApiError::RequestThrottled(msg),
            AuthError::SMSFailed(msg) => ApiError::Other(msg),
            AuthError::ServiceError(err) => ApiError::from(err),
        }
    }
}

impl vstd::std_specs::convert::FromSpecImpl<AuthError> for ApiError {
    open spec fn obeys_from_spec() -> bool {
        true
    }

    open spec fn from_spec(err: AuthError) -> ApiError {
        api_error_of_auth(err)
    }
}

impl From<CouchFailure> for ApiError {
    fn from(ce: CouchFailure) -> (r: ApiError) {
        let status = ce.status;
        let message = ce.message;
        if status == STATUS_FORBIDDEN {
            ApiError::Forbidden(message)
        } else if status == STATUS_NOT_FOUND {
            ApiError::NotFound(message)
        } else if status == STATUS_BAD_REQUEST {
            ApiError::BadRequest(message)
        } else {
            ApiError::Other(message)
        }
    }
}

impl vstd::std_specs::convert::FromSpecImpl<CouchFailure> for ApiError {
    open spec fn obeys_from_spec() -> bool {
        true
    }

    open spec fn from_spec(f: CouchFailure) -> ApiError {
        api_error_of_couch(f)
    }
}

impl From<JsonBodyError> for ApiError {
    fn from(e: JsonBodyError) -> (r: ApiError) {
        match e {
            JsonBodyError::Io(m) => ApiError::Other(m),
            JsonBodyError::Parse(m) => ApiError::UnprocessableEntity(m),
        }
    }
}

impl vstd::std_specs::convert::FromSpecImpl<JsonBodyError> for ApiError {
    open spec fn obeys_from_spec() -> bool {
        true
    }

    open spec fn from_spec(e: JsonBodyError) -> ApiError {
        api_error_of_body(e)
    }
}

/// The lower-case hex digit of `n` (below 16).
pub open spec fn hex_digit(n: u32) -> char {
    if n < 10 {
        (n + 48) as char
    } else {
        (n + 87) as char
    }
}

/// How one character is written inside a JSON string literal: a quote and a
/// backslash behind a backslash, the control characters with a short escape
/// (`\b`, `\t`, `\n`, `\f`, `\r`) as that escape, the other control
/// characters as `\u00` and two lower-case hex digits, everything else as
/// it is.
pub open spec fn json_char_escape(c: char) -> Seq<char> {
    if c == '"' {
        seq!['\\', '"']
    } else if c == '\\' {
        seq!['\\', '\\']
    } else if c == '\u{8}' {
        seq!['\\', 'b']
    } else if c == '\t' {
        seq!['\\', 't']
    } else if c == '\n' {
        seq!['\\', 'n']
    } else if c == '\u{c}' {
        seq!['\\', 'f']
    } else if c == '\r' {
        seq!['\\', 'r']
    } else if (c as u32) < 32 {
        seq!['\\', 'u', '0', '0', hex_digit((c as u32) / 16), hex_digit((c as u32) % 16)]
    } else {
        seq![c]
    }
}

/// The characters of `s`, each escaped as in a JSON string literal.
pub open spec fn json_escaped(s: Seq<char>) -> Seq<char>
    decreases s.len(),
{
    if s.len() == 0 {
        Seq::empty()
    } else {
        json_escaped(s.drop_last()) + json_char_escape(s.last())
    }
}

/// The text of `s` as a JSON string literal, quotes and escapes included.
pub open spec fn json_string_literal(s: Seq<char>) -> Seq<char> {
    seq!['"'] + json_escaped(s) + seq!['"']
}

/// `serde_json::to_string` of a string slice: its JSON string literal, with
/// the escapes of `serde_json`'s `ESCAPE` table. Serializing a string cannot
/// fail.
#[verifier::external_body]
fn json_string(s: &str) -> (r: String)
    ensures
        r@ == json_string_literal(s@),
{
    serde_json::to_string(s).expect("a string always serializes")
}

pub const BODY_PREFIX: &'static str = "{\"msg\":";
pub const BODY_SUFFIX: &'static str = "}";

impl ApiError {
    /// The message the error carries.
    pub open spec fn msg(self) -> Seq<char> {
        match self {
            ApiError::NotFound(m) => m@,
            ApiError::Forbidden(m) => m@,
            ApiError::BadRequest(m) => m@,
            ApiError::AuthFailed(m) => m@,
            ApiError::RequestThrottled(m) => m@,
            ApiError::Other(m) => m@,
            ApiError::ConflictError(m) => m@,
            ApiError::UnprocessableEntity(m) => m@,
            ApiError::InternalServerError(m) => m@,
        }
    }

    /// The HTTP status the error is answered with.
    pub open spec fn status_spec(self) -> u16 {
        match self {
            ApiError::NotFound(_) => STATUS_NOT_FOUND,
            ApiError::BadRequest(_) => STATUS_BAD_REQUEST,
            ApiError::Other(_) => STATUS_INTERNAL_SERVER_ERROR,
            ApiError::Forbidden(_) => STATUS_FORBIDDEN,
            ApiError::AuthFailed(_) => STATUS_UNAUTHORIZED,
            ApiError::RequestThrottled(_) => STATUS_BAD_REQUEST,
            ApiError::UnprocessableEntity(_) => STATUS_UNPROCESSABLE_ENTITY,
            ApiError::InternalServerError(_) => STATUS_INTERNAL_SERVER_ERROR,
            ApiError::ConflictError(_) => STATUS_CONFLICT,
        }
    }

    /// The HTTP status the error is answered with.
    pub fn status(&self) -> (r: u16)
        ensures
            r == self.status_spec(),
    {
        match self {
            ApiError::NotFound(_) => STATUS_NOT_FOUND,
            ApiError::BadRequest(_) => STATUS_BAD_REQUEST,
            ApiError::Other(_) => STATUS_INTERNAL_SERVER_ERROR,
            ApiError::Forbidden(_) => STATUS_FORBIDDEN,
            ApiError::AuthFailed(_) => STATUS_UNAUTHORIZED,
            ApiError::RequestThrottled(_) => STATUS_BAD_REQUEST,
            ApiError::UnprocessableEntity(_) => STATUS_UNPROCESSABLE_ENTITY,
            ApiError::InternalServerError(_) => STATUS_INTERNAL_SERVER_ERROR,
            ApiError::ConflictError(_) => STATUS_CONFLICT,
        }
    }

    /// The message the error carries.
    pub fn message(&self) -> (r: &String)
        ensures
            r@ == self.msg(),
    {
        match self {
            ApiError::NotFound(m) => m,
            ApiError::Forbidden(m) => m,
            ApiError::BadRequest(m) => m,
            ApiError::AuthFailed(m) => m,
            ApiError::RequestThrottled(m) => m,
            ApiError::Other(m) => m,
            ApiError::ConflictError(m) => m,
            ApiError::UnprocessableEntity(m) => m,
            ApiError::InternalServerError(m) => m,
        }
    }

    /// The JSON body the error is answered with: `{"msg":` and the message
    /// as a JSON string, then `}`.
    pub fn body(&self) -> (r: String)
        ensures
            r@ == BODY_PREFIX@ + json_string_literal(self.msg()) + BODY_SUFFIX@,
    {
        let quoted = json_string(self.message().as_str());
        let mut body = String::from_str(BODY_PREFIX);
        body.append(quoted.as_str());
        body.append(BODY_SUFFIX);
        body
    }
}

/// The status a failure of the document store is finally answered with, when
/// it passes through the repository, the service and the account layers:
/// 403, 404, 400 and 409 keep their meaning, 401 (the store refusing the
/// service's own credentials) becomes 400, and anything else becomes 500.
/// The message answered is the fixed one of the repository layer.
pub proof fn lemma_store_failure_status(f: CouchFailure, re: RepoError)
    requires
        re.classifies_status(f.status),
    ensures
        api_error_of_auth(AuthError::ServiceError(service_error_of(re))).status_spec() == (if f.status
            == STATUS_FORBIDDEN {
            STATUS_FORBIDDEN
        } else if f.status == STATUS_NOT_FOUND {
            STATUS_NOT_FOUND
        } else if f.status == STATUS_BAD_REQUEST {
            STATUS_BAD_REQUEST
        } else if f.status == STATUS_CONFLICT {
            STATUS_CONFLICT
        } else if f.status == STATUS_UNAUTHORIZED {
            STATUS_BAD_REQUEST
        } else {
            STATUS_INTERNAL_SERVER_ERROR
        }),
        api_error_of_auth(AuthError::ServiceError(service_error_of(re))).msg() == re.msg(),
        api_error_of_service(service_error_of(re)) == api_error_of_auth(AuthError::ServiceError(service_error_of(re))),
{
}


} // verus!
