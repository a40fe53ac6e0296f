//! File-ingestion and path-routing core of a remote file-storage service.
//!
//! The crate verifies the request-side logic of the storage API: joining
//! destination paths, dispatching a wildcard route segment to one of the
//! read operations, folding a streamed multipart body into a staged upload,
//! naming scratch files, and mapping every internal failure to exactly one
//! boundary status and message. All I/O (the HTTP server, the scratch
//! directory, the backing storage service) stays outside; callers hand the
//! functions here plain values and perform the actions they decide on.

use vstd::prelude::*;

pub mod download;
pub mod errors;
pub mod ingest;
pub mod paths;
pub mod routing;
pub mod staging;
pub mod text;

verus! {

/// The file router: the carrier of the path-construction step shared by the
/// upload handlers.
pub struct FilesRouter;

impl FilesRouter {
    /// Joins a destination directory and a file name into one normalized
    /// slash-separated destination path.
    ///
    /// Both inputs are already text, so the joined result is always
    /// representable; the error arm exists for callers that must treat a
    /// non-representable join as [`crate::errors::ApiError::InvalidPath`].
    pub fn construct_path(path: &str, filename: &str) -> (r: Result<
        String,
        crate::errors::ApiError,
    >)
        ensures
            r is Ok,
            r.unwrap()@ == crate::paths::join_spec(path@, filename@),
    {
        Ok(crate::paths::join(path, filename))
    }
}

} // verus!
