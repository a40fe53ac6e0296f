//! Failure taxonomy of the ingestion layer and its mapping to boundary
//! responses: every internal failure kind maps to exactly one status code and
//! one plain-text message.

use vstd::prelude::*;

verus! {

/// A failure raised by this layer itself while a request is parsed and
/// staged. Variants that carry a `String` wrap the text of a transport or
/// filesystem fault reported by the caller.
#[derive(Debug, PartialEq, Eq)]
pub enum ApiError {
    /// The multipart body held no "file" field (or, for a fully specified
    /// destination, no file bytes at all).
    MissingFile,
    /// The multipart body held no "path" field.
    MissingPath,
    /// The "path" field's bytes are not valid UTF-8.
    PathNotUtf8,
    /// A joined destination path is not representable as text.
    InvalidPath,
    /// The accumulated upload size left the representable range.
    SizeOverflow,
    /// Malformed multipart framing, with the transport's description.
    Multipart(String),
    /// A file chunk could not be read, with the transport's description.
    ChunkRead(String),
    /// The "path" field's bytes could not be read.
    PathRead(String),
    /// The scratch directory could not be created.
    CreateDir(String),
    /// The scratch file could not be created.
    CreateFile(String),
    /// A write to the scratch file failed.
    WriteFailed(String),
    /// The final flush of the scratch file failed.
    FlushFailed(String),
}

/// The boundary status code owed to each failure: client faults are 400,
/// filesystem and accounting faults are 500.
pub open spec fn spec_status(e: ApiError) -> u16 {
    match e {
        ApiError::MissingFile => 400,
        ApiError::MissingPath => 400,
        ApiError::PathNotUtf8 => 400,
        ApiError::InvalidPath => 400,
        ApiError::SizeOverflow => 500,
        ApiError::Multipart(_) => 400,
        ApiError::ChunkRead(_) => 400,
        ApiError::PathRead(_) => 400,
        ApiError::CreateDir(_) => 500,
        ApiError::CreateFile(_) => 500,
        ApiError::WriteFailed(_) => 500,
        ApiError::FlushFailed(_) => 500,
    }
}

/// The boundary message owed to each failure.
pub open spec fn spec_message(e: ApiError) -> Seq<char> {
    match e {
        ApiError::MissingFile => "file field is required"@,
        ApiError::MissingPath => "path field is required"@,
        ApiError::PathNotUtf8 => "Path is not valid UTF-8"@,
        ApiError::InvalidPath => "Invalid path"@,
        ApiError::SizeOverflow => "File size is out of range"@,
        ApiError::Multipart(d) => "Multipart error: "@ + d@,
        ApiError::ChunkRead(d) => "Failed to read chunk: "@ + d@,
        ApiError::PathRead(d) => "Failed to read path: "@ + d@,
        ApiError::CreateDir(d) => "Failed to create temp directory: "@ + d@,
        ApiError::CreateFile(d) => "Failed to create temp file: "@ + d@,
        ApiError::WriteFailed(d) => "Failed to write to temp file: "@ + d@,
        ApiError::FlushFailed(d) => "Failed to flush temp file: "@ + d@,
    }
}

/// Maps a failure of this layer to its boundary response.
pub fn error_response(e: ApiError) -> (r: (u16, String))
    ensures
        r.0 == spec_status(e),
        r.1@ == spec_message(e),
{
    match e {
        ApiError::MissingFile => (400, "file field is required".to_owned()),
        ApiError::MissingPath => (400, "path field is required".to_owned()),
        ApiError::PathNotUtf8 => (400, "Path is not valid UTF-8".to_owned()),
        ApiError::InvalidPath => (400, "Invalid path".to_owned()),
        ApiError::SizeOverflow => (500, "File size is out of range".to_owned()),
        ApiError::Multipart(d) => (400, "Multipart error: ".to_owned().concat(d.as_str())),
        ApiError::ChunkRead(d) => (400, "Failed to read chunk: ".to_owned().concat(d.as_str())),
        ApiError::PathRead(d) => (400, "Failed to read path: ".to_owned().concat(d.as_str())),
        ApiError::CreateDir(d) => (
            500,
            "Failed to create temp directory: ".to_owned().concat(d.as_str()),
        ),
        ApiError::CreateFile(d) => (
            500,
            "Failed to create temp file: ".to_owned().concat(d.as_str()),
        ),
        ApiError::WriteFailed(d) => (
            500,
            "Failed to write to temp file: ".to_owned().concat(d.as_str()),
        ),
        ApiError::FlushFailed(d) => (
            500,
            "Failed to flush temp file: ".to_owned().concat(d.as_str()),
        ),
    }
}

/// A failure reported by the backing storage service, already classified by
/// the service's own taxonomy. This layer must not override that
/// classification.
#[derive(Debug, PartialEq, Eq)]
pub enum ServiceError {
    /// The service judged the request itself invalid.
    BadInput(String),
    /// The addressed resource does not exist.
    Missing(String),
    /// The request conflicts with existing state.
    Conflict(String),
    /// An internal fault of the service or its storage.
    Internal(String),
}

/// The boundary status code owed to each service classification.
pub open spec fn spec_service_status(e: ServiceError) -> u16 {
    match e {
        ServiceError::BadInput(_) => 400,
        ServiceError::Missing(_) => 404,
        ServiceError::Conflict(_) => 409,
        ServiceError::Internal(_) => 500,
    }
}

/// The message carried by a service failure, passed through unchanged.
pub open spec fn spec_service_message(e: ServiceError) -> Seq<char> {
    match e {
        ServiceError::BadInput(d) => d@,
        ServiceError::Missing(d) => d@,
        ServiceError::Conflict(d) => d@,
        ServiceError::Internal(d) => d@,
    }
}

/// Maps a service failure to its boundary response, keeping the service's
/// classification and message.
pub fn service_error_response(e: ServiceError) -> (r: (u16, String))
    ensures
        r.0 == spec_service_status(e),
        r.1@ == spec_service_message(e),
{
    match e {
        ServiceError::BadInput(d) => (400, d),
        ServiceError::Missing(d) => (404, d),
        ServiceError::Conflict(d) => (409, d),
        ServiceError::Internal(d) => (500, d),
    }
}

} // verus!
