//! The failures of the server, and the protocol code each one is reported under.

use vstd::prelude::*;

verus! {

/// What went wrong, apart from the detail.
#[derive(Clone, Copy, Debug, PartialEq, Eq, Structural)]
pub enum ErrorKind {
    Json,
    Io,
    InvalidRequest,
    MethodNotFound,
    InvalidParams,
    InternalError,
    ToolError,
    ResourceError,
    ParseError,
    SerializationError,
    AsyncError,
    ValidationError,
}

/// A failure: its kind and a detail in words.
#[derive(Debug)]
pub enum Error {
    Json(String),
    Io(String),
    InvalidRequest(String),
    MethodNotFound(String),
    InvalidParams(String),
    InternalError(String),
    ToolError(String),
    ResourceError(String),
    ParseError(String),
    SerializationError(String),
    AsyncError(String),
    ValidationError(String),
}

/// The model of an [`Error`].
pub struct ErrorView {
    pub kind: ErrorKind,
    pub detail: Seq<char>,
}

pub const INVALID_REQUEST: i64 = -32600;

pub const METHOD_NOT_FOUND: i64 = -32601;

pub const INVALID_PARAMS: i64 = -32602;

pub const INTERNAL_ERROR: i64 = -32603;

impl ErrorKind {
    /// The protocol code of a failure of this kind. It does not depend on the
    /// detail: only three kinds have a code of their own.
    pub open spec fn spec_code(self) -> i64 {
        match self {
            ErrorKind::InvalidRequest => INVALID_REQUEST,
            ErrorKind::MethodNotFound => METHOD_NOT_FOUND,
            ErrorKind::InvalidParams => INVALID_PARAMS,
            _ => INTERNAL_ERROR,
        }
    }

    /// The words that a message of this kind starts with.
    pub open spec fn spec_prefix(self) -> Seq<char> {
        match self {
            ErrorKind::Json => "JSON error: "@,
            ErrorKind::Io => "IO error: "@,
            ErrorKind::InvalidRequest => "Invalid request: "@,
            ErrorKind::MethodNotFound => "Method not found: "@,
            ErrorKind::InvalidParams => "Invalid params: "@,
            ErrorKind::InternalError => "Internal error: "@,
            ErrorKind::ToolError => "Tool error: "@,
            ErrorKind::ResourceError => "Resource error: "@,
            ErrorKind::ParseError => "Parsing error: "@,
            ErrorKind::SerializationError => "Serialization error: "@,
            ErrorKind::AsyncError => "Async error: "@,
            ErrorKind::ValidationError => "Validation error: "@,
        }
    }

    /// The protocol code of a failure of this kind.
    #[verifier::when_used_as_spec(spec_code)]
    pub fn code(self) -> (r: i64)
        ensures
            r == self.spec_code(),
    {
        match self {
            ErrorKind::InvalidRequest => INVALID_REQUEST,
            ErrorKind::MethodNotFound => METHOD_NOT_FOUND,
            ErrorKind::InvalidParams => INVALID_PARAMS,
            _ => INTERNAL_ERROR,
        }
    }

    /// The words that a message of this kind starts with.
    pub fn prefix(self) -> (r: &'static str)
        ensures
            r@ == self.spec_prefix(),
    {
        match self {
            ErrorKind::Json => "JSON error: ",
            ErrorKind::Io => "IO error: ",
            ErrorKind::InvalidRequest => "Invalid request: ",
            ErrorKind::MethodNotFound => "Method not found: ",
            ErrorKind::InvalidParams => "Invalid params: ",
            ErrorKind::InternalError => "Internal error: ",
            ErrorKind::ToolError => "Tool error: ",
            ErrorKind::ResourceError => "Resource error: ",
            ErrorKind::ParseError => "Parsing error: ",
            ErrorKind::SerializationError => "Serialization error: ",
            ErrorKind::AsyncError => "Async error: ",
            ErrorKind::ValidationError => "Validation error: ",
        }
    }
}

impl ErrorView {
    /// The code under which this failure is reported.
    pub open spec fn code(self) -> i64 {
        self.kind.spec_code()
    }

    /// The message of this failure: what kind it is, then the detail.
    pub open spec fn message(self) -> Seq<char> {
        self.kind.spec_prefix() + self.detail
    }
}

impl View for Error {
    type V = ErrorView;

    open spec fn view(&self) -> ErrorView {
        match self {
            Error::Json(d) => ErrorView { kind: ErrorKind::Json, detail: d@ },
            Error::Io(d) => ErrorView { kind: ErrorKind::Io, detail: d@ },
            Error::InvalidRequest(d) => ErrorView { kind: ErrorKind::InvalidRequest, detail: d@ },
            Error::MethodNotFound(d) => ErrorView { kind: ErrorKind::MethodNotFound, detail: d@ },
            Error::InvalidParams(d) => ErrorView { kind: ErrorKind::InvalidParams, detail: d@ },
            Error::InternalError(d) => ErrorView { kind: ErrorKind::InternalError, detail: d@ },
            Error::ToolError(d) => ErrorView { kind: ErrorKind::ToolError, detail: d@ },
            Error::ResourceError(d) => ErrorView { kind: ErrorKind::ResourceError, detail: d@ },
            Error::ParseError(d) => ErrorView { kind: ErrorKind::ParseError, detail: d@ },
            Error::SerializationError(d) => ErrorView {
                kind: ErrorKind::SerializationError,
                detail: d@,
            },
            Error::AsyncError(d) => ErrorView { kind: ErrorKind::AsyncError, detail: d@ },
            Error::ValidationError(d) => ErrorView { kind: ErrorKind::ValidationError, detail: d@ },
        }
    }
}

impl Error {
    /// A failure of the given kind with the given detail.
    pub fn new(kind: ErrorKind, detail: String) -> (r: Error)
        ensures
            r@ == (ErrorView { kind, detail: detail@ }),
    {
        match kind {
            ErrorKind::Json => Error::Json(detail),
            ErrorKind::Io => Error::Io(detail),
            ErrorKind::InvalidRequest => Error::InvalidRequest(detail),
            ErrorKind::MethodNotFound => Error::MethodNotFound(detail),
            ErrorKind::InvalidParams => Error::InvalidParams(detail),
            ErrorKind::InternalError => Error::InternalError(detail),
            ErrorKind::ToolError => Error::ToolError(detail),
            ErrorKind::ResourceError => Error::ResourceError(detail),
            ErrorKind::ParseError => Error::ParseError(detail),
            ErrorKind::SerializationError => Error::SerializationError(detail),
            ErrorKind::AsyncError => Error::AsyncError(detail),
            ErrorKind::ValidationError => Error::ValidationError(detail),
        }
    }

    /// What kind of failure this is.
    pub fn kind(&self) -> (r: ErrorKind)
        ensures
            r == self@.kind,
    {
        match self {
            Error::Json(_) => ErrorKind::Json,
            Error::Io(_) => ErrorKind::Io,
            Error::InvalidRequest(_) => ErrorKind::InvalidRequest,
            Error::MethodNotFound(_) => ErrorKind::MethodNotFound,
            Error::InvalidParams(_) => ErrorKind::InvalidParams,
            Error::InternalError(_) => ErrorKind::InternalError,
            Error::ToolError(_) => ErrorKind::ToolError,
            Error::ResourceError(_) => ErrorKind::ResourceError,
            Error::ParseError(_) => ErrorKind::ParseError,
            Error::SerializationError(_) => ErrorKind::SerializationError,
            Error::AsyncError(_) => ErrorKind::AsyncError,
            Error::ValidationError(_) => ErrorKind::ValidationError,
        }
    }

    /// The detail, without the words that name the kind.
    pub fn detail(&self) -> (r: &str)
        ensures
            r@ == self@.detail,
    {
        match self {
            Error::Json(d) => d.as_str(),
            Error::Io(d) => d.as_str(),
            Error::InvalidRequest(d) => d.as_str(),
            Error::MethodNotFound(d) => d.as_str(),
            Error::InvalidParams(d) => d.as_str(),
            Error::InternalError(d) => d.as_str(),
            Error::ToolError(d) => d.as_str(),
            Error::ResourceError(d) => d.as_str(),
            Error::ParseError(d) => d.as_str(),
            Error::SerializationError(d) => d.as_str(),
            Error::AsyncError(d) => d.as_str(),
            Error::ValidationError(d) => d.as_str(),
        }
    }

    /// The code under which this failure is reported.
    pub fn code(&self) -> (r: i64)
        ensures
            r == self@.code(),
    {
        self.kind().code()
    }

    /// The message of this failure: what kind it is, then the detail.
    pub fn message(&self) -> (r: String)
        ensures
            r@ == self@.message(),
    {
        String::from_str(self.kind().prefix()).concat(self.detail())
    }

    /// An invalid-request failure with the given detail.
    pub fn invalid_request(detail: &str) -> (r: Error)
        ensures
            r@ == (ErrorView { kind: ErrorKind::InvalidRequest, detail: detail@ }),
    {
        Error::InvalidRequest(String::from_str(detail))
    }

    /// A not-found failure with the given detail.
    pub fn method_not_found(detail: &str) -> (r: Error)
        ensures
            r@ == (ErrorView { kind: ErrorKind::MethodNotFound, detail: detail@ }),
    {
        Error::MethodNotFound(String::from_str(detail))
    }

    /// An invalid-params failure with the given detail.
    pub fn invalid_params(detail: &str) -> (r: Error)
        ensures
            r@ == (ErrorView { kind: ErrorKind::InvalidParams, detail: detail@ }),
    {
        Error::InvalidParams(String::from_str(detail))
    }
}

impl Clone for Error {
    fn clone(&self) -> (r: Self)
        ensures
            r@ == self@,
    {
        Error::new(self.kind(), String::from_str(self.detail()))
    }
}

} // verus!
