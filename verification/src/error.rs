//! The service error taxonomy and its mapping to HTTP status codes.

use vstd::prelude::*;

verus! {

/// What went wrong inside the relational store, as far as a caller can
/// tell: a database-level rejection (with the driver's code and
/// message), a lookup that matched no row, or anything else.
#[derive(Clone, Debug, PartialEq)]
pub enum DbError {
    Database { code: Option<String>, message: String },
    RowNotFound,
    Other(String),
}

/// Every failure a request or a chat command can end in.
#[derive(Clone, Debug, PartialEq)]
pub enum ServiceError {
    /// The relational store failed.
    Sqlx(DbError),
    /// A shared resource was never attached to the request pipeline;
    /// the payload names it.  A wiring defect, always fatal-class.
    MiddlewareNotSet(String),
    /// The application configuration was never attached.
    ConfigNotSet,
    /// A message could not be assembled from its parts.
    ParseMessage(String),
    /// An integer field could not be parsed.
    ParseInt(String),
    /// A byte sequence was not valid UTF-8.
    ParseUtf8(String),
    /// The bearer credential header held bytes outside visible ASCII.
    CredentialParseError(String),
    /// The request carried no identity where one was required, or its
    /// token resolved to no repo.
    BadCredential,
    /// The request was refused; the payload says why.
    Rejected(String),
    /// A stored repo token was not a well-formed token.
    Uuid(String),
    /// A value could not be converted into the named type.
    TryFrom { field: String, from: String, into: String, expect: String },
    /// A slice index held no value.
    EmptySliceIndex(usize),
    /// The client took too long to respond.
    ClientTimeout,
    /// A required HTTP header was absent.
    HttpHeaderNotFound,
    /// The chat transport failed while sending a notification.
    TeloxideError(String),
    /// The HTTP server failed while processing the request.
    ServerError(String),
}

impl ServiceError {
    /// The HTTP status code under which this error is reported.
    pub open spec fn code_spec(&self) -> u16 {
        match self {
            ServiceError::Sqlx(db) => match db {
                DbError::Database { .. } => 400,
                DbError::RowNotFound => 404,
                DbError::Other(_) => 500,
            },
            ServiceError::MiddlewareNotSet(_) => 500,
            ServiceError::ConfigNotSet => 500,
            ServiceError::ParseMessage(_) => 500,
            ServiceError::ParseInt(_) => 422,
            ServiceError::ParseUtf8(_) => 422,
            ServiceError::CredentialParseError(_) => 422,
            ServiceError::BadCredential => 401,
            ServiceError::Rejected(_) => 403,
            ServiceError::Uuid(_) => 422,
            ServiceError::TryFrom { .. } => 400,
            ServiceError::EmptySliceIndex(_) => 400,
            ServiceError::ClientTimeout => 408,
            ServiceError::HttpHeaderNotFound => 417,
            ServiceError::TeloxideError(_) => 500,
            ServiceError::ServerError(_) => 500,
        }
    }

    /// Maps the error to the HTTP status code of its response: store
    /// rejections and conversion failures are the caller's fault (4xx),
    /// a missing or unresolvable credential is 401, a lookup that
    /// matched no row is 404, and internal failures are 5xx.
    pub fn get_code(&self) -> (code: u16)
        ensures
            code == self.code_spec(),
    {
        match self {
            ServiceError::Sqlx(db) => match db {
                DbError::Database { .. } => 400,
                DbError::RowNotFound => 404,
                DbError::Other(_) => 500,
            },
            ServiceError::MiddlewareNotSet(_) => 500,
            ServiceError::ConfigNotSet => 500,
            ServiceError::ParseMessage(_) => 500,
            ServiceError::ParseInt(_) => 422,
            ServiceError::ParseUtf8(_) => 422,
            ServiceError::CredentialParseError(_) => 422,
            ServiceError::BadCredential => 401,
            ServiceError::Rejected(_) => 403,
            ServiceError::Uuid(_) => 422,
            ServiceError::TryFrom { .. } => 400,
            ServiceError::EmptySliceIndex(_) => 400,
            ServiceError::ClientTimeout => 408,
            ServiceError::HttpHeaderNotFound => 417,
            ServiceError::TeloxideError(_) => 500,
            ServiceError::ServerError(_) => 500,
        }
    }
}

} // verus!
