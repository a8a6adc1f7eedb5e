//! The closed set of error kinds, their messages, and the HTTP status each
//! one maps to.

use crate::text::join;
use vstd::prelude::*;

verus! {

/// What a blob backend can report.
#[derive(Debug, Clone, PartialEq, Eq)]
pub enum BackendError {
    /// The object, or the container a listing asked for, does not exist.
    NotFound(String),
    /// A file or stream operation failed; the payload is the cause's text.
    Io(String),
    /// Any failure of the provider that is not a missing object.
    Provider(String),
    /// A stored record could not be encoded or decoded.
    Serialization(String),
    /// The key would leave the container's directory.
    InvalidPath(String),
    /// The container is unreachable or the backend is misconfigured.
    Configuration(String),
    Internal(String),
}

/// What the service reports to its callers.
#[derive(Debug, Clone, PartialEq, Eq)]
pub enum ServiceError {
    Backend(BackendError),
    BucketNotFound(String),
    BucketAlreadyExists(String),
    ObjectNotFound(String),
    InvalidBucketName(String),
    InvalidObjectKey(String),
    Database(String),
    Configuration(String),
    Internal(String),
    LockAcquisition(String),
}

pub type BackendResult<T> = Result<T, BackendError>;

pub type ServiceResult<T> = Result<T, ServiceError>;

impl BackendError {
    /// The text carried by the error, whatever its kind.
    pub open spec fn detail(self) -> Seq<char> {
        match self {
            BackendError::NotFound(s) => s@,
            BackendError::Io(s) => s@,
            BackendError::Provider(s) => s@,
            BackendError::Serialization(s) => s@,
            BackendError::InvalidPath(s) => s@,
            BackendError::Configuration(s) => s@,
            BackendError::Internal(s) => s@,
        }
    }

    /// The fixed words that introduce the detail in the message.
    pub open spec fn heading(self) -> Seq<char> {
        match self {
            BackendError::NotFound(_) => "Object not found: "@,
            BackendError::Io(_) => "IO error: "@,
            BackendError::Provider(_) => "Provider error: "@,
            BackendError::Serialization(_) => "Serialization error: "@,
            BackendError::InvalidPath(_) => "Invalid path: "@,
            BackendError::Configuration(_) => "Configuration error: "@,
            BackendError::Internal(_) => "Internal error: "@,
        }
    }

    /// The message: heading, then detail.
    pub open spec fn message_text(self) -> Seq<char> {
        self.heading() + self.detail()
    }

    /// The human-readable message of this error.
    pub fn message(&self) -> (r: String)
        ensures
            r@ == self.message_text(),
    {
        match self {
            BackendError::NotFound(s) => join("Object not found: ", s.as_str()),
            BackendError::Io(s) => join("IO error: ", s.as_str()),
            BackendError::Provider(s) => join("Provider error: ", s.as_str()),
            BackendError::Serialization(s) => join("Serialization error: ", s.as_str()),
            BackendError::InvalidPath(s) => join("Invalid path: ", s.as_str()),
            BackendError::Configuration(s) => join("Configuration error: ", s.as_str()),
            BackendError::Internal(s) => join("Internal error: ", s.as_str()),
        }
    }

}

impl ServiceError {
    /// The message: a heading for the kind, then the detail. A backend error
    /// is shown in full behind its own heading.
    pub open spec fn message_text(self) -> Seq<char> {
        match self {
            ServiceError::Backend(e) => "Backend error: "@ + e.message_text(),
            ServiceError::BucketNotFound(s) => "Bucket not found: "@ + s@,
            ServiceError::BucketAlreadyExists(s) => "Bucket already exists: "@ + s@,
            ServiceError::ObjectNotFound(s) => "Object not found: "@ + s@,
            ServiceError::InvalidBucketName(s) => "Invalid bucket name: "@ + s@,
            ServiceError::InvalidObjectKey(s) => "Invalid object key: "@ + s@,
            ServiceError::Database(s) => "Database error: "@ + s@,
            ServiceError::Configuration(s) => "Configuration error: "@ + s@,
            ServiceError::Internal(s) => "Internal error: "@ + s@,
            ServiceError::LockAcquisition(s) => "Lock acquisition error: "@ + s@,
        }
    }

    /// The HTTP status for each kind: 404 for anything missing, 409 for a
    /// name conflict, 400 for a rejected name or key, 500 for the rest.
    pub open spec fn status(self) -> u16 {
        match self {
            ServiceError::BucketNotFound(_) | ServiceError::ObjectNotFound(_) => 404,
            ServiceError::BucketAlreadyExists(_) => 409,
            ServiceError::InvalidBucketName(_) | ServiceError::InvalidObjectKey(_) => 400,
            ServiceError::Backend(e) => if e is NotFound {
                404
            } else {
                500
            },
            _ => 500,
        }
    }

    /// The human-readable message of this error.
    pub fn message(&self) -> (r: String)
        ensures
            r@ == self.message_text(),
    {
        match self {
            ServiceError::Backend(e) => {
                let inner = e.message();
                join("Backend error: ", inner.as_str())
            },
            ServiceError::BucketNotFound(s) => join("Bucket not found: ", s.as_str()),
            ServiceError::BucketAlreadyExists(s) => join("Bucket already exists: ", s.as_str()),
            ServiceError::ObjectNotFound(s) => join("Object not found: ", s.as_str()),
            ServiceError::InvalidBucketName(s) => join("Invalid bucket name: ", s.as_str()),
            ServiceError::InvalidObjectKey(s) => join("Invalid object key: ", s.as_str()),
            ServiceError::Database(s) => join("Database error: ", s.as_str()),
            ServiceError::Configuration(s) => join("Configuration error: ", s.as_str()),
            ServiceError::Internal(s) => join("Internal error: ", s.as_str()),
            ServiceError::LockAcquisition(s) => join("Lock acquisition error: ", s.as_str()),
        }
    }

    /// The HTTP status code that answers a request failing with this error.
    pub fn status_code(&self) -> (code: u16)
        ensures
            code == self.status(),
    {
        match self {
            ServiceError::BucketNotFound(_) | ServiceError::ObjectNotFound(_) => 404,
            ServiceError::BucketAlreadyExists(_) => 409,
            ServiceError::InvalidBucketName(_) | ServiceError::InvalidObjectKey(_) => 400,
            ServiceError::Backend(e) => match e {
                BackendError::NotFound(_) => 404,
                _ => 500,
            },
            _ => 500,
        }
    }

    /// The error for a stored record that is not valid JSON for its type;
    /// `cause` is the decoder's own description.
    pub fn from_json_error(cause: &str) -> (r: ServiceError)
        ensures
            r matches ServiceError::Internal(m) && m@ == "JSON error: "@ + cause@,
    {
        ServiceError::Internal(join("JSON error: ", cause))
    }

}

} // verus!
