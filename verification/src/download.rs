//! The download response: the leading metadata frame of the backend stream
//! becomes the headers of the HTTP response, every later frame its body.

use vstd::prelude::*;
use vstd::string::*;
use crate::decimal::{decimal, format_u64};
use crate::error::ResError;
use crate::text::text_of;

verus! {

/// What the first frame of a download says about the file.
#[derive(Debug)]
pub struct DownloadMetadata {
    pub name: String,
    pub size: u64,
}

/// One message of the download stream.
#[derive(Debug)]
pub struct DownloadFrame {
    pub metadata: Option<DownloadMetadata>,
    pub data: Vec<u8>,
}

/// The headers of a download response. The values are final; a content
/// type that cannot be told from the file name is left out.
#[derive(Debug)]
pub struct DownloadHeaders {
    pub content_length: String,
    pub content_disposition: String,
    pub content_type: Option<String>,
}

/// The media type that `mime_guess::from_path` guesses first for a file
/// name, rendered as text; `None` where it guesses none. The guess depends
/// on the name alone: the crate looks the extension of the name up in a
/// table that is compiled into it.
pub uninterp spec fn guessed_mime(file_name: Seq<char>) -> Option<Seq<char>>;

/// Detail of the error for a stream without a first frame.
pub open spec fn no_first_frame_text() -> Seq<char> {
    "Could not get the first message from a file stream"@
}

/// Detail of the error for a stream whose first frame has no metadata.
pub open spec fn no_metadata_text() -> Seq<char> {
    "Could not get metadata from the first message in a file stream"@
}

/// The value of the content-length header: the size in decimal.
pub open spec fn content_length_of(size: u64) -> Seq<char> {
    decimal(size as int)
}

/// The value of the content-disposition header: an attachment with the
/// file name in quotes.
pub open spec fn content_disposition_of(name: Seq<char>) -> Seq<char> {
    "attachment; filename=\""@ + name + "\""@
}

/// Calls `mime_guess::from_path(..).first()` and renders the media type.
/// Trusted: the result is the crate's first guess for this file name, which
/// it takes from a fixed table by the extension of the name, without
/// touching the disk.
#[verifier::external_body]
fn guess_content_type(file_name: &str) -> (guess: Option<String>)
    ensures
        text_of(guess) == guessed_mime(file_name@),
{
    match mime_guess::from_path(file_name).first() {
        Some(mime) => Some(mime.to_string()),
        None => None,
    }
}

/// The metadata that a download stream starts with. A stream that ends
/// before its first frame, or whose first frame carries no metadata, broke
/// the backend's contract: that is a `ServerError`.
pub fn leading_metadata(first: Option<DownloadFrame>) -> (res: Result<DownloadMetadata, ResError>)
    ensures
        match res {
            Ok(meta) => first is Some && first->Some_0.metadata == Some(meta),
            Err(e) => {
                &&& e is ServerError
                &&& match first {
                    None => e.detail() == no_first_frame_text(),
                    Some(frame) => frame.metadata is None && e.detail() == no_metadata_text(),
                }
            },
        },
{
    match first {
        None => Err(
            ResError::ServerError(
                String::from_str("Could not get the first message from a file stream"),
            ),
        ),
        Some(frame) => match frame.metadata {
            Some(meta) => Ok(meta),
            None => Err(
                ResError::ServerError(
                    String::from_str("Could not get metadata from the first message in a file stream"),
                ),
            ),
        },
    }
}

/// The headers for a file with the given metadata and content type.
pub fn download_headers(meta: &DownloadMetadata, content_type: Option<String>) -> (headers:
    DownloadHeaders)
    ensures
        headers.content_length@ == content_length_of(meta.size),
        headers.content_disposition@ == content_disposition_of(meta.name@),
        headers.content_type == content_type,
{
    let content_length = format_u64(meta.size);
    let mut content_disposition = String::from_str("attachment; filename=\"");
    content_disposition.append(meta.name.as_str());
    content_disposition.append("\"");
    DownloadHeaders { content_length, content_disposition, content_type }
}

/// Composes the headers of a download response from the first frame of
/// the backend stream, with the content type guessed from the file name.
/// Fails with `ServerError`, before any header exists, exactly when the
/// first frame is missing or carries no metadata.
pub fn compose_download(first: Option<DownloadFrame>) -> (res: Result<DownloadHeaders, ResError>)
    ensures
        match res {
            Ok(headers) => {
                &&& first is Some
                &&& first->Some_0.metadata is Some
                &&& headers.content_length@ == content_length_of(first->Some_0.metadata->Some_0.size)
                &&& headers.content_disposition@ == content_disposition_of(
                    first->Some_0.metadata->Some_0.name@,
                )
                &&& text_of(headers.content_type) == guessed_mime(first->Some_0.metadata->Some_0.name@)
            },
            Err(e) => {
                &&& e is ServerError
                &&& match first {
                    None => e.detail() == no_first_frame_text(),
                    Some(frame) => frame.metadata is None && e.detail() == no_metadata_text(),
                }
            },
        },
{
    match leading_metadata(first) {
        Ok(meta) => {
            let content_type = guess_content_type(meta.name.as_str());
            Ok(download_headers(&meta, content_type))
        },
        Err(e) => Err(e),
    }
}

/// The part of the response body that a later frame of the stream
/// contributes: its data, whatever else it carries.
pub fn frame_body(frame: DownloadFrame) -> (body: Vec<u8>)
    ensures
        body@ == frame.data@,
{
    frame.data
}

} // verus!
