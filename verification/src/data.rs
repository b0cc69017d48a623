//! The data model: file records, identities, blobs, configuration, errors.

use vstd::prelude::*;

verus! {

/// One uploaded file's metadata row, as the metadata store keeps it.
pub struct File {
    /// Opaque unique identifier, generated at creation; the primary key.
    pub id: String,
    /// Caller-supplied name; `"unknown"` when the caller gave none.
    pub file_name: String,
    /// Caller-supplied content type; `"unknown"` when the caller gave none.
    pub content_type: String,
    /// Unix timestamp of the upload.
    pub upload_time: i64,
    /// How many consumptions are permitted before the file self-destructs.
    pub download_limit: i32,
    /// How many consumptions have been accounted so far.
    pub download_count: i32,
    /// Byte length of the blob at upload time.
    pub file_size: i64,
    /// Precomputed absolute URL for retrieval.
    pub download_url: String,
    /// Username of the uploading identity.
    pub owner: String,
}

/// The mathematical value of a [`File`] record.
pub ghost struct FileView {
    pub id: Seq<char>,
    pub file_name: Seq<char>,
    pub content_type: Seq<char>,
    pub upload_time: int,
    pub download_limit: int,
    pub download_count: int,
    pub file_size: int,
    pub download_url: Seq<char>,
    pub owner: Seq<char>,
}

impl View for File {
    type V = FileView;

    open spec fn view(&self) -> FileView {
        FileView {
            id: self.id@,
            file_name: self.file_name@,
            content_type: self.content_type@,
            upload_time: self.upload_time as int,
            download_limit: self.download_limit as int,
            download_count: self.download_count as int,
            file_size: self.file_size as int,
            download_url: self.download_url@,
            owner: self.owner@,
        }
    }
}

/// One blob: the raw bytes of an uploaded file, keyed by the file identifier.
pub struct Blob {
    pub id: String,
    pub bytes: Vec<u8>,
}

/// One registered user of the identity store.
pub struct Identity {
    /// Opaque unique secret token; the lookup key for authorization.
    pub key: String,
    /// Unique display name.
    pub username: String,
    /// Caller-supplied credential, stored as given.
    pub password: String,
}

/// What one successful consumption hands back: the payload and the response
/// metadata taken from the record that accounted it.
pub struct Download {
    pub bytes: Vec<u8>,
    pub content_type: String,
    pub file_name: String,
    pub file_size: i64,
}

/// Process configuration, environment-sourced by the host program.
#[derive(Clone)]
pub struct Config {
    /// Database backend kind.
    pub db_type: String,
    /// Connection string of the metadata backend.
    pub database_url: String,
    /// Directory that holds the blobs.
    pub data_path: String,
    /// Port the server listens on.
    pub port: String,
    /// Address the server binds to.
    pub listener_addr: String,
    /// Log verbosity.
    pub log_level: String,
    /// Log file location.
    pub log_location: String,
    /// Whether download URLs advertise `https`.
    pub use_tls: bool,
    /// Externally visible `host:port` used to build download URLs.
    pub base_url: String,
    /// Whether self-registration is permitted.
    pub allow_register: bool,
}

/// Every way an operation of the service can fail.
#[derive(Clone, Copy, Debug, PartialEq, Eq, Structural)]
pub enum ApiError {
    /// A required header or field is missing.
    Validation,
    /// The identity key is unknown or invalid.
    Authorization,
    /// The file identifier is unknown, or one of the two stores has no entry
    /// for it.
    NotFound,
    /// A blob read or write failed.
    Storage,
    /// A metadata operation failed.
    Persistence,
    /// The username is already taken.
    Conflict,
    /// Registration is administratively disabled.
    Forbidden,
}

impl ApiError {
    /// The HTTP status code the transport layer should answer with.
    pub fn status_code(&self) -> (r: u16)
        ensures
            r == match *self {
                ApiError::Validation => 400u16,
                ApiError::Authorization => 401u16,
                ApiError::NotFound => 404u16,
                ApiError::Storage => 500u16,
                ApiError::Persistence => 500u16,
                ApiError::Conflict => 409u16,
                ApiError::Forbidden => 403u16,
            },
    {
        match *self {
            ApiError::Validation => 400,
            ApiError::Authorization => 401,
            ApiError::NotFound => 404,
            ApiError::Storage => 500,
            ApiError::Persistence => 500,
            ApiError::Conflict => 409,
            ApiError::Forbidden => 403,
        }
    }

    /// A generic caller-facing message; internal detail stays in the logs.
    pub fn message(&self) -> (r: &'static str)
        ensures
            r@ == match *self {
                ApiError::Validation => "required header not supplied"@,
                ApiError::Authorization => "your key is not valid"@,
                ApiError::NotFound => "file not found"@,
                ApiError::Storage => "file storage error"@,
                ApiError::Persistence => "database error"@,
                ApiError::Conflict => "user already exists"@,
                ApiError::Forbidden => "registration is not allowed"@,
            },
    {
        match *self {
            ApiError::Validation => "required header not supplied",
            ApiError::Authorization => "your key is not valid",
            ApiError::NotFound => "file not found",
            ApiError::Storage => "file storage error",
            ApiError::Persistence => "database error",
            ApiError::Conflict => "user already exists",
            ApiError::Forbidden => "registration is not allowed",
        }
    }
}

} // verus!
