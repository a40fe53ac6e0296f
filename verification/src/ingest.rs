//! The streaming multipart ingestor: a fold over the fields of a request
//! body, field by field and chunk by chunk, that accumulates the staged
//! upload's byte count and auxiliary text fields without ever holding the
//! file's content. The caller performs the reads and writes; the functions
//! here take each event as plain values and decide what happens next.

use vstd::prelude::*;
use vstd::utf8::decode_utf8;
use vstd::utf8::valid_utf8;
use crate::FilesRouter;
use crate::errors::ApiError;
use crate::errors::ServiceError;
use crate::errors::error_response;
use crate::errors::service_error_response;
use crate::errors::spec_message;
use crate::errors::spec_service_message;
use crate::errors::spec_service_status;
use crate::errors::spec_status;
use crate::paths::join_spec;

verus! {

/// What the caller must do with a multipart field that just started.
#[derive(Debug, PartialEq, Eq, Structural, Clone, Copy)]
pub enum FieldAction {
    /// Stream the field's chunks to the scratch file, reporting each through
    /// [`Ingestor::on_file_chunk`].
    StreamToFile,
    /// Collect the field's bytes whole and hand them to
    /// [`Ingestor::on_path_field`].
    CollectPath,
    /// Skip the field.
    Ignore,
}

/// The field name the ingestor goes by: a missing name reads as empty.
pub open spec fn field_name_view(name: Option<&str>) -> Seq<char> {
    match name {
        Some(n) => n@,
        None => ""@,
    }
}

/// The file name a field declares: a missing one reads as "unnamed".
pub open spec fn declared_filename_view(f: Option<&str>) -> Seq<char> {
    match f {
        Some(n) => n@,
        None => "unnamed"@,
    }
}

/// The action owed to a field name: "file" is streamed, "path" is collected,
/// every other field is ignored.
pub open spec fn spec_field_action(name: Seq<char>) -> FieldAction {
    if name == "file"@ {
        FieldAction::StreamToFile
    } else if name == "path"@ {
        FieldAction::CollectPath
    } else {
        FieldAction::Ignore
    }
}

/// The running state of one upload request's body parse: the declared file
/// name (once a "file" field arrived), the destination text (once a "path"
/// field arrived), and the byte count accumulated so far.
pub struct Ingestor {
    /// File name declared by the last "file" field, if any arrived.
    pub filename: Option<String>,
    /// Decoded "path" field, if one arrived.
    pub path: Option<String>,
    /// Bytes accumulated across the "file" field's chunks.
    pub size: u64,
}

impl Ingestor {
    /// A fresh parse: nothing seen, nothing counted.
    pub fn new() -> (r: Ingestor)
        ensures
            r.filename is None,
            r.path is None,
            r.size == 0,
    {
        Ingestor { filename: None, path: None, size: 0 }
    }

    /// Classifies a field that just started. A "file" field records its
    /// declared file name (or "unnamed"); no other field changes the state.
    pub fn on_field_start(&mut self, name: Option<&str>, field_filename: Option<&str>) -> (r:
        FieldAction)
        ensures
            r == spec_field_action(field_name_view(name)),
            r == FieldAction::StreamToFile ==> (final(self).filename matches Some(f) && f@
                == declared_filename_view(field_filename) && final(self).path == old(self).path
                && final(self).size == old(self).size),
            r != FieldAction::StreamToFile ==> *final(self) == *old(self),
    {
        let n: &str = match name {
            Some(n) => n,
            None => "",
        };
        if crate::text::str_eq(n, "file") {
            let f: String = match field_filename {
                Some(f) => f.to_owned(),
                None => "unnamed".to_owned(),
            };
            self.filename = Some(f);
            FieldAction::StreamToFile
        } else if crate::text::str_eq(n, "path") {
            FieldAction::CollectPath
        } else {
            FieldAction::Ignore
        }
    }

    /// Accounts one streamed chunk of the "file" field. The caller writes the
    /// chunk to the scratch file; this only adds its length to the running
    /// count, failing if the count would leave the representable range.
    pub fn on_file_chunk(&mut self, chunk: &[u8]) -> (r: Result<(), ApiError>)
        ensures
            old(self).size + chunk@.len() <= u64::MAX ==> (r is Ok && final(self).size
                == old(self).size + chunk@.len()),
            old(self).size + chunk@.len() > u64::MAX ==> (r == Err::<(), ApiError>(
                ApiError::SizeOverflow,
            ) && final(self).size == old(self).size),
            final(self).filename == old(self).filename,
            final(self).path == old(self).path,
    {
        match self.size.checked_add(chunk.len() as u64) {
            Some(s) => {
                self.size = s;
                Ok(())
            },
            None => Err(ApiError::SizeOverflow),
        }
    }

    /// Takes the collected bytes of a "path" field and decodes them as UTF-8
    /// text; bytes that are not UTF-8 are rejected and change nothing.
    pub fn on_path_field(&mut self, data: Vec<u8>) -> (r: Result<(), ApiError>)
        ensures
            valid_utf8(data@) ==> (r is Ok && (final(self).path matches Some(p) && p@
                == decode_utf8(data@)) && final(self).filename == old(self).filename
                && final(self).size == old(self).size),
            !valid_utf8(data@) ==> r == Err::<(), ApiError>(ApiError::PathNotUtf8) && *final(self)
                == *old(self),
    {
        match utf8_to_string(data) {
            Some(s) => {
                self.path = Some(s);
                Ok(())
            },
            None => Err(ApiError::PathNotUtf8),
        }
    }

    /// Closes an "upload" parse, where the "path" field names the destination
    /// directory: both a "file" and a "path" field must have arrived, and the
    /// destination becomes the directory joined with the declared file name.
    pub fn finish_upload(self, storage_id: uuid::Uuid) -> (r: Result<InFile, ApiError>)
        ensures
            self.filename is None ==> r == Err::<InFile, ApiError>(ApiError::MissingFile),
            self.filename is Some && self.path is None ==> r == Err::<InFile, ApiError>(
                ApiError::MissingPath,
            ),
            self.filename is Some && self.path is Some ==> (r matches Ok(f) && f.path@
                == join_spec(self.path.unwrap()@, self.filename.unwrap()@) && f.size == self.size
                && f.storage_id == storage_id),
    {
        let Ingestor { filename, path, size } = self;
        let filename = match filename {
            Some(f) => f,
            None => {
                return Err(ApiError::MissingFile);
            },
        };
        let path = match path {
            Some(p) => p,
            None => {
                return Err(ApiError::MissingPath);
            },
        };
        let joined = match FilesRouter::construct_path(path.as_str(), filename.as_str()) {
            Ok(j) => j,
            Err(e) => {
                return Err(e);
            },
        };
        Ok(InFile::new(joined, size, storage_id))
    }

    /// Closes an "upload_to" parse, where the "path" field is already the
    /// full destination: the "file" field must have carried at least one
    /// byte — an empty one counts as missing whether or not a "path" field
    /// arrived — and a "path" field must have arrived.
    pub fn finish_upload_to(self, storage_id: uuid::Uuid, temp_path: String) -> (r: Result<
        InFileSchema,
        ApiError,
    >)
        ensures
            self.size == 0 ==> r == Err::<InFileSchema, ApiError>(ApiError::MissingFile),
            self.size > 0 && self.path is None ==> r == Err::<InFileSchema, ApiError>(
                ApiError::MissingPath,
            ),
            self.size > 0 && self.path is Some ==> (r matches Ok(s) && s.path == self.path.unwrap()
                && s.size == self.size && s.storage_id == storage_id && s.temp_path == temp_path),
    {
        let Ingestor { filename: _, path, size } = self;
        if size == 0 {
            return Err(ApiError::MissingFile);
        }
        let path = match path {
            Some(p) => p,
            None => {
                return Err(ApiError::MissingPath);
            },
        };
        Ok(InFileSchema::new(storage_id, path, size, temp_path))
    }
}

/// Relies on `String::from_utf8`: succeeds exactly on valid UTF-8 bytes and
/// decodes them to their characters.
#[verifier::external_body]
fn utf8_to_string(data: Vec<u8>) -> (r: Option<String>)
    ensures
        r is Some <==> valid_utf8(data@),
        r matches Some(s) ==> s@ == decode_utf8(data@),
{
    String::from_utf8(data).ok()
}

/// An upload record handed to the storage service: the resolved destination
/// path, the accumulated byte count, and the target storage's identifier.
#[derive(Debug)]
pub struct InFile {
    /// Destination path inside the storage bucket.
    pub path: String,
    /// Bytes staged for this upload.
    pub size: u64,
    /// Identifier of the target storage bucket.
    pub storage_id: uuid::Uuid,
}

impl InFile {
    /// Packs an upload record from its parts.
    pub fn new(path: String, size: u64, storage_id: uuid::Uuid) -> (r: InFile)
        ensures
            r.path == path,
            r.size == size,
            r.storage_id == storage_id,
    {
        InFile { path, size, storage_id }
    }
}

/// A fully specified upload record: the destination path arrives already
/// resolved, and the staged scratch file travels along.
#[derive(Debug)]
pub struct InFileSchema {
    /// Identifier of the target storage bucket.
    pub storage_id: uuid::Uuid,
    /// Full destination path, file name included.
    pub path: String,
    /// Bytes staged for this upload.
    pub size: u64,
    /// The scratch file holding the staged bytes.
    pub temp_path: String,
}

impl InFileSchema {
    /// Packs a fully specified upload record from its parts.
    pub fn new(storage_id: uuid::Uuid, path: String, size: u64, temp_path: String) -> (r:
        InFileSchema)
        ensures
            r.storage_id == storage_id,
            r.path == path,
            r.size == size,
            r.temp_path == temp_path,
    {
        InFileSchema { storage_id, path, size, temp_path }
    }
}

/// Folder-creation parameters as the boundary hands them in.
pub struct UploadParams {
    /// Directory under which the folder is created.
    pub path: String,
    /// Name of the new folder.
    pub folder_name: String,
}

/// A folder-creation record handed to the storage service.
#[derive(Debug)]
pub struct InFolderSchema {
    /// Identifier of the target storage bucket.
    pub storage_id: uuid::Uuid,
    /// Directory under which the folder is created.
    pub path: String,
    /// Name of the new folder.
    pub folder_name: String,
}

impl InFolderSchema {
    /// Packs a folder-creation record from its parts.
    pub fn new(storage_id: uuid::Uuid, path: String, folder_name: String) -> (r: InFolderSchema)
        ensures
            r.storage_id == storage_id,
            r.path == path,
            r.folder_name == folder_name,
    {
        InFolderSchema { storage_id, path, folder_name }
    }
}

/// The decision after the storage service answered an upload handoff:
/// success passes ownership of the staged file to the service, so this layer
/// must not touch it; failure leaves the staged file here, so the handler
/// removes it and answers with the service's own classification.
#[derive(Debug, PartialEq, Eq)]
pub enum UploadOutcome {
    /// Respond 201; the staged file now belongs to the service.
    Created,
    /// Remove the staged file, then respond with this status and message.
    CleanupAndFail(u16, String),
}

/// Decides how an upload request ends once the storage service has answered:
/// no record was handed off on failure, so the staged file must go.
pub fn complete_upload(service_result: Result<(), ServiceError>) -> (r: UploadOutcome)
    ensures
        service_result is Ok ==> r == UploadOutcome::Created,
        service_result matches Err(e) ==> (r matches UploadOutcome::CleanupAndFail(s, m) && s
            == spec_service_status(e) && m@ == spec_service_message(e)),
{
    match service_result {
        Ok(_) => UploadOutcome::Created,
        Err(e) => {
            let (s, m) = service_error_response(e);
            UploadOutcome::CleanupAndFail(s, m)
        },
    }
}

/// Decides how an upload request ends when a failure strikes before any
/// handoff — malformed framing, a failed read or write, a missing field, a
/// bad path: the staged file must go, no record reaches the service, and the
/// failure answers the request with its own boundary response.
pub fn abort_upload(e: ApiError) -> (r: UploadOutcome)
    ensures
        r matches UploadOutcome::CleanupAndFail(s, m) && s == spec_status(e) && m@ == spec_message(
            e,
        ),
{
    let (status, message) = error_response(e);
    UploadOutcome::CleanupAndFail(status, message)
}

/// Total byte count across a sequence of chunks.
pub open spec fn total_len(chunks: Seq<Seq<u8>>) -> nat
    decreases chunks.len(),
{
    if chunks.len() == 0 {
        0
    } else {
        chunks[0].len() + total_len(chunks.drop_first())
    }
}

/// The byte count reached from `start` by accounting chunks one at a time,
/// the way repeated [`Ingestor::on_file_chunk`] calls do.
pub open spec fn folded_size(start: nat, chunks: Seq<Seq<u8>>) -> nat
    decreases chunks.len(),
{
    if chunks.len() == 0 {
        start
    } else {
        folded_size(start + chunks[0].len(), chunks.drop_first())
    }
}

/// Law: streaming a file field chunk by chunk accounts exactly the total
/// byte count across the chunks — a staged upload of N bytes, in one chunk
/// or many, reports size N.
pub proof fn lemma_streamed_size_is_total(start: nat, chunks: Seq<Seq<u8>>)
    ensures
        folded_size(start, chunks) == start + total_len(chunks),
    decreases chunks.len(),
{
    if chunks.len() > 0 {
        lemma_streamed_size_is_total(start + chunks[0].len(), chunks.drop_first());
    }
}

} // verus!
