//! The gateway's error taxonomy and its mapping to HTTP status categories.

use vstd::prelude::*;

verus! {

/// Error type used across the whole gateway. Every variant carries the
/// internal detail message, which is logged but never sent to the client.
#[derive(Debug)]
pub enum ResError {
    /// One or more fields are missing, mis-ordered or unparseable.
    InvalidFields(String),
    /// The fields are present but their value types are invalid.
    InvalidValues(String),
    /// The content type of the request is wrong.
    InvalidContentType(String),
    /// The referenced item does not exist or does not belong to the caller.
    NotFound(String),
    /// The request lacks valid credentials.
    Unauthorized(String),
    /// The request is authenticated but may not access the resource.
    Forbidden(String),
    /// The request is wrong in a way none of the other kinds describes.
    BadRequest(String),
    /// The backend does not implement the operation.
    NotImplemented(String),
    /// Any failure that is the service's own fault.
    ServerError(String),
}

/// The kind of a [`ResError`], without its detail message.
#[derive(Clone, Copy, Debug, PartialEq, Eq, Structural)]
pub enum ErrorKind {
    InvalidFields,
    InvalidValues,
    InvalidContentType,
    NotFound,
    Unauthorized,
    Forbidden,
    BadRequest,
    NotImplemented,
    ServerError,
}

/// Status code analogue reported by a failed remote call.
#[derive(Clone, Copy, Debug, PartialEq, Eq, Structural)]
pub enum RpcCode {
    NotFound,
    PermissionDenied,
    InvalidArgument,
    AlreadyExists,
    Unimplemented,
    Unauthenticated,
    /// Every other code of the remote protocol.
    Other,
}

/// Why a JSON request body was refused before it reached a handler.
#[derive(Clone, Copy, Debug, PartialEq, Eq, Structural)]
pub enum JsonRejectionKind {
    /// The request does not declare a JSON content type.
    MissingJsonContentType,
    /// The body is valid JSON but does not fit the expected type.
    JsonDataError,
    /// Every other reason: broken syntax, an unreadable body.
    Other,
}

/// Message with which the backend reports that the gateway's own service
/// credential was refused.
pub open spec fn bad_service_token_message() -> Seq<char> {
    "invalid authorization token"@
}

impl ResError {
    /// The internal detail message of the error.
    pub open spec fn detail(self) -> Seq<char> {
        match self {
            ResError::InvalidFields(m) => m@,
            ResError::InvalidValues(m) => m@,
            ResError::InvalidContentType(m) => m@,
            ResError::NotFound(m) => m@,
            ResError::Unauthorized(m) => m@,
            ResError::Forbidden(m) => m@,
            ResError::BadRequest(m) => m@,
            ResError::NotImplemented(m) => m@,
            ResError::ServerError(m) => m@,
        }
    }

    /// The kind of the error.
    pub open spec fn spec_kind(self) -> ErrorKind {
        match self {
            ResError::InvalidFields(_) => ErrorKind::InvalidFields,
            ResError::InvalidValues(_) => ErrorKind::InvalidValues,
            ResError::InvalidContentType(_) => ErrorKind::InvalidContentType,
            ResError::NotFound(_) => ErrorKind::NotFound,
            ResError::Unauthorized(_) => ErrorKind::Unauthorized,
            ResError::Forbidden(_) => ErrorKind::Forbidden,
            ResError::BadRequest(_) => ErrorKind::BadRequest,
            ResError::NotImplemented(_) => ErrorKind::NotImplemented,
            ResError::ServerError(_) => ErrorKind::ServerError,
        }
    }

    /// The HTTP status code of each error kind.
    pub open spec fn spec_status_code(self) -> u16 {
        match self {
            ResError::InvalidFields(_) => 400,
            ResError::InvalidValues(_) => 422,
            ResError::InvalidContentType(_) => 415,
            ResError::NotFound(_) => 404,
            ResError::Unauthorized(_) => 401,
            ResError::Forbidden(_) => 403,
            ResError::BadRequest(_) => 400,
            ResError::NotImplemented(_) => 501,
            ResError::ServerError(_) => 500,
        }
    }

    /// The generic message shown to the client for each error kind.
    pub open spec fn spec_response_msg(self) -> Seq<char> {
        match self {
            ResError::InvalidFields(_) => "invalid fields"@,
            ResError::InvalidValues(_) => "invalid values"@,
            ResError::InvalidContentType(_) => "invalid content type"@,
            ResError::NotFound(_) => "not found"@,
            ResError::Unauthorized(_) => "unauthorized"@,
            ResError::Forbidden(_) => "forbidden"@,
            ResError::BadRequest(_) => "bad request"@,
            ResError::NotImplemented(_) => "not implemented"@,
            ResError::ServerError(_) => "server error"@,
        }
    }

    /// The error kind that a failed remote call maps to: the remote status
    /// code decides, except that an unauthenticated status caused by the
    /// gateway's own service credential is the service's fault.
    pub open spec fn spec_from_status(code: RpcCode, message: Seq<char>, detail: String) -> ResError {
        match code {
            RpcCode::NotFound => ResError::NotFound(detail),
            RpcCode::PermissionDenied => ResError::Forbidden(detail),
            RpcCode::InvalidArgument => ResError::InvalidFields(detail),
            RpcCode::AlreadyExists => ResError::BadRequest(detail),
            RpcCode::Unimplemented => ResError::NotImplemented(detail),
            RpcCode::Unauthenticated => if message == bad_service_token_message() {
                ResError::ServerError(detail)
            } else {
                ResError::Unauthorized(detail)
            },
            RpcCode::Other => ResError::ServerError(detail),
        }
    }

    /// The error of the given kind with the given detail message.
    pub fn new(kind: ErrorKind, detail: String) -> (err: ResError)
        ensures
            err.spec_kind() == kind,
            err.detail() == detail@,
    {
        match kind {
            ErrorKind::InvalidFields => ResError::InvalidFields(detail),
            ErrorKind::InvalidValues => ResError::InvalidValues(detail),
            ErrorKind::InvalidContentType => ResError::InvalidContentType(detail),
            ErrorKind::NotFound => ResError::NotFound(detail),
            ErrorKind::Unauthorized => ResError::Unauthorized(detail),
            ErrorKind::Forbidden => ResError::Forbidden(detail),
            ErrorKind::BadRequest => ResError::BadRequest(detail),
            ErrorKind::NotImplemented => ResError::NotImplemented(detail),
            ErrorKind::ServerError => ResError::ServerError(detail),
        }
    }

    /// The kind of this error.
    pub fn kind(&self) -> (kind: ErrorKind)
        ensures
            kind == self.spec_kind(),
    {
        match self {
            ResError::InvalidFields(_) => ErrorKind::InvalidFields,
            ResError::InvalidValues(_) => ErrorKind::InvalidValues,
            ResError::InvalidContentType(_) => ErrorKind::InvalidContentType,
            ResError::NotFound(_) => ErrorKind::NotFound,
            ResError::Unauthorized(_) => ErrorKind::Unauthorized,
            ResError::Forbidden(_) => ErrorKind::Forbidden,
            ResError::BadRequest(_) => ErrorKind::BadRequest,
            ResError::NotImplemented(_) => ErrorKind::NotImplemented,
            ResError::ServerError(_) => ErrorKind::ServerError,
        }
    }

    /// The error kind of a refused JSON body.
    pub open spec fn spec_from_json_rejection(kind: JsonRejectionKind, detail: String) -> ResError {
        match kind {
            JsonRejectionKind::MissingJsonContentType => ResError::InvalidContentType(detail),
            JsonRejectionKind::JsonDataError => ResError::InvalidValues(detail),
            JsonRejectionKind::Other => ResError::BadRequest(detail),
        }
    }

    /// Maps a refused JSON body to an error kind; `detail` is the full
    /// rendering of the refusal.
    pub fn from_json_rejection(kind: JsonRejectionKind, detail: String) -> (err: ResError)
        ensures
            err == ResError::spec_from_json_rejection(kind, detail),
    {
        match kind {
            JsonRejectionKind::MissingJsonContentType => ResError::InvalidContentType(detail),
            JsonRejectionKind::JsonDataError => ResError::InvalidValues(detail),
            JsonRejectionKind::Other => ResError::BadRequest(detail),
        }
    }

    /// HTTP status code with which this error is answered.
    pub fn status_code(&self) -> (code: u16)
        ensures
            code == self.spec_status_code(),
    {
        match self {
            ResError::InvalidFields(_) => 400,
            ResError::InvalidValues(_) => 422,
            ResError::InvalidContentType(_) => 415,
            ResError::NotFound(_) => 404,
            ResError::Unauthorized(_) => 401,
            ResError::Forbidden(_) => 403,
            ResError::BadRequest(_) => 400,
            ResError::NotImplemented(_) => 501,
            ResError::ServerError(_) => 500,
        }
    }

    /// Generic client-facing message of this error; it never holds the
    /// internal detail.
    pub fn response_msg(&self) -> (text: &'static str)
        ensures
            text@ == self.spec_response_msg(),
    {
        match self {
            ResError::InvalidFields(_) => "invalid fields",
            ResError::InvalidValues(_) => "invalid values",
            ResError::InvalidContentType(_) => "invalid content type",
            ResError::NotFound(_) => "not found",
            ResError::Unauthorized(_) => "unauthorized",
            ResError::Forbidden(_) => "forbidden",
            ResError::BadRequest(_) => "bad request",
            ResError::NotImplemented(_) => "not implemented",
            ResError::ServerError(_) => "server error",
        }
    }

    /// Internal detail message of this error.
    pub fn internal_msg(&self) -> (text: &str)
        ensures
            text@ == self.detail(),
    {
        match self {
            ResError::InvalidFields(m) => m.as_str(),
            ResError::InvalidValues(m) => m.as_str(),
            ResError::InvalidContentType(m) => m.as_str(),
            ResError::NotFound(m) => m.as_str(),
            ResError::Unauthorized(m) => m.as_str(),
            ResError::Forbidden(m) => m.as_str(),
            ResError::BadRequest(m) => m.as_str(),
            ResError::NotImplemented(m) => m.as_str(),
            ResError::ServerError(m) => m.as_str(),
        }
    }

    /// Whether the error is the service's own fault (a 5xx status), in which
    /// case it is logged at error level rather than debug level.
    pub fn is_server_fault(&self) -> (fault: bool)
        ensures
            fault == (self.spec_status_code() >= 500),
    {
        self.status_code() >= 500
    }

    /// Maps the failure of a remote call to an error kind. `message` is the
    /// status message of the remote failure and `detail` its full rendering,
    /// kept as the internal detail.
    pub fn from_status(code: RpcCode, message: &str, detail: String) -> (err: ResError)
        ensures
            err == ResError::spec_from_status(code, message@, detail),
    {
        match code {
            RpcCode::NotFound => ResError::NotFound(detail),
            RpcCode::PermissionDenied => ResError::Forbidden(detail),
            RpcCode::InvalidArgument => ResError::InvalidFields(detail),
            RpcCode::AlreadyExists => ResError::BadRequest(detail),
            RpcCode::Unimplemented => ResError::NotImplemented(detail),
            RpcCode::Unauthenticated => {
                if crate::text::str_eq(message, "invalid authorization token") {
                    ResError::ServerError(detail)
                } else {
                    ResError::Unauthorized(detail)
                }
            },
            RpcCode::Other => ResError::ServerError(detail),
        }
    }
}

} // verus!
