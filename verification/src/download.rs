//! Assembly of a download response: the file's leaf name decides both the
//! guessed content type and the attachment header; the body passes through
//! untouched.

use vstd::prelude::*;
use crate::paths::file_name_spec;
use crate::paths::leaf_name;

verus! {

/// The content type that the guesser derives from a file name's extension.
pub uninterp spec fn mime_for(name: Seq<char>) -> Seq<char>;

/// Relies on `mime_guess::from_path` with `first_or_octet_stream` and the
/// `Display` impl of `mime::Mime`: a pure lookup on the name's extension,
/// falling back to the generic binary type, rendered as its text form.
#[verifier::external_body]
fn guess_content_type(filename: &str) -> (r: String)
    ensures
        r@ == mime_for(filename@),
{
    mime_guess::from_path(filename).first_or_octet_stream().to_string()
}

/// The name a download is served under: the path's final named component by
/// standard path semantics — trailing separators and "." components ignored —
/// or "unnamed.bin" when the path has no extractable leaf.
pub open spec fn download_name(path: Seq<char>) -> Seq<char> {
    match file_name_spec(path) {
        Some(l) => l,
        None => "unnamed.bin"@,
    }
}

/// A download answer at the boundary: raw bytes plus the two headers that
/// describe them.
pub struct DownloadResponse {
    /// Content type guessed from the served name's extension.
    pub content_type: String,
    /// Attachment header naming the served file.
    pub content_disposition: String,
    /// The file's bytes, passed through unchanged.
    pub body: Vec<u8>,
}

/// Builds the response for a downloaded file: the body is exactly the bytes
/// the storage service returned, the content type is guessed from the served
/// name, and the disposition header names that file as an attachment.
pub fn download_response(path: &str, data: Vec<u8>) -> (r: DownloadResponse)
    ensures
        r.body@ == data@,
        r.content_type@ == mime_for(download_name(path@)),
        r.content_disposition@ == "attachment; filename=\""@ + download_name(path@) + "\""@,
{
    let filename = leaf_name(path);
    let content_type = guess_content_type(filename.as_str());
    let content_disposition = "attachment; filename=\"".to_owned().concat(
        filename.as_str(),
    ).concat("\"");
    DownloadResponse { content_type, content_disposition, body: data }
}

} // verus!
