//! Downloads: how far one has come, and under which name the response is
//! stored.

use crate::text::{optional_text, remove_quotes, unquoted};
use vstd::prelude::*;

verus! {

#[verifier::external_type_specification]
#[verifier::external_body]
pub struct ExRegexError(regex::Error);

/// Whether `regex::Regex::new` accepts `pattern`.
pub uninterp spec fn regex_accepts(pattern: Seq<char>) -> bool;

/// The text that capture group `group` holds in the leftmost match that
/// `regex::Regex::captures` finds for `pattern` in `haystack`, if there is a
/// match and the group took part in it.
pub uninterp spec fn regex_group(pattern: Seq<char>, haystack: Seq<char>, group: nat) -> Option<
    Seq<char>,
>;

/// Why a download could not be started or completed.
#[derive(Debug)]
pub enum DownloadError {
    /// The request could not be sent or was not answered.
    GetFailed { url: String, error: String },
    /// The response does not say how long it is.
    MissingContentLength { url: String },
    /// The response has no `content-disposition` header.
    MissingContentDisposition,
    /// The `content-disposition` header is not text.
    HeaderNotText { error: String },
    /// The pattern that finds the file name was refused.
    InvalidPattern { error: String },
    /// The `content-disposition` header names no file.
    MissingFileName,
    /// The body broke off.
    StreamFailed { error: String },
    /// A part of the body could not be written to the file.
    WriteFailed { path: String, error: String },
}

/// What a [`DownloadError`] stands for.
pub ghost enum DownloadErrorView {
    GetFailed { url: Seq<char>, error: Seq<char> },
    MissingContentLength { url: Seq<char> },
    MissingContentDisposition,
    HeaderNotText { error: Seq<char> },
    InvalidPattern { error: Seq<char> },
    MissingFileName,
    StreamFailed { error: Seq<char> },
    WriteFailed { path: Seq<char>, error: Seq<char> },
}

impl View for DownloadError {
    type V = DownloadErrorView;

    open spec fn view(&self) -> DownloadErrorView {
        match self {
            DownloadError::GetFailed { url, error } => DownloadErrorView::GetFailed {
                url: url@,
                error: error@,
            },
            DownloadError::MissingContentLength { url } => {
                DownloadErrorView::MissingContentLength { url: url@ }
            },
            DownloadError::MissingContentDisposition => {
                DownloadErrorView::MissingContentDisposition
            },
            DownloadError::HeaderNotText { error } => DownloadErrorView::HeaderNotText {
                error: error@,
            },
            DownloadError::InvalidPattern { error } => DownloadErrorView::InvalidPattern {
                error: error@,
            },
            DownloadError::MissingFileName => DownloadErrorView::MissingFileName,
            DownloadError::StreamFailed { error } => DownloadErrorView::StreamFailed {
                error: error@,
            },
            DownloadError::WriteFailed { path, error } => DownloadErrorView::WriteFailed {
                path: path@,
                error: error@,
            },
        }
    }
}

/// The sentence that reports a download error.
pub open spec fn error_message(error: DownloadErrorView) -> Seq<char> {
    match error {
        DownloadErrorView::GetFailed { url, error } => "Failed to GET from '"@ + url
            + "'. Error: "@ + error,
        DownloadErrorView::MissingContentLength { url } => "Failed to get content length from '"@
            + url + "'"@,
        DownloadErrorView::MissingContentDisposition => "Failed to get content-disposition header"@,
        DownloadErrorView::HeaderNotText { error } =>
            "Failed to convert content-disposition header to string. Error: "@ + error,
        DownloadErrorView::InvalidPattern { error } => "Failed to create regex. Error: "@ + error,
        DownloadErrorView::MissingFileName =>
            "Failed to get file name from content-disposition header"@,
        DownloadErrorView::StreamFailed { error } =>
            "Failed to get next item from stream. Error: "@ + error,
        DownloadErrorView::WriteFailed { path, error } => "Failed to write to file '"@ + path
            + "'. Error: "@ + error,
    }
}

impl DownloadError {
    /// The sentence that reports this error.
    pub fn message(&self) -> (text: String)
        ensures
            text@ == error_message(self@),
    {
        match self {
            DownloadError::GetFailed { url, error } => {
                let mut text = String::from_str("Failed to GET from '");
                text.append(url.as_str());
                text.append("'. Error: ");
                text.append(error.as_str());
                text
            },
            DownloadError::MissingContentLength { url } => {
                let mut text = String::from_str("Failed to get content length from '");
                text.append(url.as_str());
                text.append("'");
                text
            },
            DownloadError::MissingContentDisposition => String::from_str(
                "Failed to get content-disposition header",
            ),
            DownloadError::HeaderNotText { error } => {
                let mut text = String::from_str(
                    "Failed to convert content-disposition header to string. Error: ",
                );
                text.append(error.as_str());
                text
            },
            DownloadError::InvalidPattern { error } => {
                let mut text = String::from_str("Failed to create regex. Error: ");
                text.append(error.as_str());
                text
            },
            DownloadError::MissingFileName => String::from_str(
                "Failed to get file name from content-disposition header",
            ),
            DownloadError::StreamFailed { error } => {
                let mut text = String::from_str("Failed to get next item from stream. Error: ");
                text.append(error.as_str());
                text
            },
            DownloadError::WriteFailed { path, error } => {
                let mut text = String::from_str("Failed to write to file '");
                text.append(path.as_str());
                text.append("'. Error: ");
                text.append(error.as_str());
                text
            },
        }
    }
}

/// The pattern that finds the file name in a `content-disposition` header:
/// what follows `filename=`, up to the next semicolon.
pub open spec fn file_name_pattern() -> Seq<char> {
    "filename=([^;]+)"@
}

/// Compiles `pattern` with `regex::Regex::new` and searches `haystack` with
/// `Regex::captures`. A refused pattern gives the crate's error. Otherwise the
/// answer is the text of capture group `group` in the leftmost match, or
/// nothing when there is no match or the group took no part in it.
#[verifier::external_body]
fn capture(pattern: &str, haystack: &str, group: usize) -> (found: Result<
    Option<String>,
    regex::Error,
>)
    ensures
        found is Ok <==> regex_accepts(pattern@),
        found matches Ok(text) ==> optional_text(text) == regex_group(
            pattern@,
            haystack@,
            group as nat,
        ),
{
    let re = regex::Regex::new(pattern)?;
    Ok(re.captures(haystack).and_then(|found| found.get(group)).map(|m| m.as_str().to_string()))
}

/// The sentence with which `regex::Error` describes itself. Nothing is
/// claimed of it.
#[verifier::external_body]
fn describe(error: &regex::Error) -> (text: String) {
    error.to_string()
}

/// The file name that a captured `filename=` value gives: the value without
/// its double quotes. Without a captured value there is no file name.
pub fn file_name_from_capture(captured: Option<&str>) -> (name: Result<String, DownloadError>)
    ensures
        captured matches Some(text) ==> (name matches Ok(n) && n@ == unquoted(text@)),
        captured is None ==> (name matches Err(e) && e@ == DownloadErrorView::MissingFileName),
{
    match captured {
        Some(text) => Ok(remove_quotes(text)),
        None => Err(DownloadError::MissingFileName),
    }
}

/// The name under which a response is stored, read from its
/// `content-disposition` header: the value that follows `filename=`, up to the
/// next semicolon, without double quotes.
pub fn get_file_name_from_response(content_disposition: Option<&str>) -> (name: Result<
    String,
    DownloadError,
>)
    ensures
        content_disposition is None ==> (name matches Err(e) && e@
            == DownloadErrorView::MissingContentDisposition),
        content_disposition matches Some(header) ==> {
            if !regex_accepts(file_name_pattern()) {
                name matches Err(DownloadError::InvalidPattern { .. })
            } else {
                match regex_group(file_name_pattern(), header@, 1) {
                    Some(text) => name matches Ok(n) && n@ == unquoted(text),
                    None => name matches Err(e) && e@ == DownloadErrorView::MissingFileName,
                }
            }
        },
{
    let header = match content_disposition {
        Some(header) => header,
        None => {
            return Err(DownloadError::MissingContentDisposition);
        },
    };
    match capture("filename=([^;]+)", header, 1) {
        Ok(Some(text)) => file_name_from_capture(Some(text.as_str())),
        Ok(None) => file_name_from_capture(None),
        Err(error) => Err(DownloadError::InvalidPattern { error: describe(&error) }),
    }
}

/// What is known of a response before its body is read.
#[derive(Debug)]
pub struct Download {
    pub total_size: u64,
    pub file_name: String,
}

/// The count of bytes received once `chunk_len` more have come in, never
/// above `total_size`.
pub open spec fn received(downloaded: u64, chunk_len: usize, total_size: u64) -> int {
    if downloaded + chunk_len <= total_size {
        downloaded + chunk_len
    } else {
        total_size as int
    }
}

/// The count of bytes received once `chunk_len` more have come in, never
/// above `total_size`.
pub fn downloaded_after(downloaded: u64, chunk_len: usize, total_size: u64) -> (now: u64)
    ensures
        now == received(downloaded, chunk_len, total_size),
{
    if downloaded >= total_size {
        total_size
    } else {
        let room: u64 = total_size - downloaded;
        if chunk_len as u64 >= room {
            total_size
        } else {
            downloaded + chunk_len as u64
        }
    }
}

/// Reads from a response's headers what the download needs: the length of the
/// body and the name of the file to store it in. A response without a content
/// length is refused before its file name is looked at.
pub fn download_file(
    url: &str,
    content_length: Option<u64>,
    content_disposition: Option<&str>,
) -> (plan: Result<Download, DownloadError>)
    ensures
        content_length is None ==> (plan matches Err(e) && e@
            == DownloadErrorView::MissingContentLength { url: url@ }),
        content_length is Some && content_disposition is None ==> (plan matches Err(e) && e@
            == DownloadErrorView::MissingContentDisposition),
        content_length is Some && content_disposition is Some ==> {
            let header = content_disposition.unwrap()@;
            if !regex_accepts(file_name_pattern()) {
                plan matches Err(DownloadError::InvalidPattern { .. })
            } else {
                match regex_group(file_name_pattern(), header, 1) {
                    Some(text) => plan matches Ok(d) && d.total_size == content_length.unwrap()
                        && d.file_name@ == unquoted(text),
                    None => plan matches Err(e) && e@ == DownloadErrorView::MissingFileName,
                }
            }
        },
{
    let total_size = match content_length {
        Some(total) => total,
        None => {
            return Err(DownloadError::MissingContentLength { url: String::from_str(url) });
        },
    };
    match get_file_name_from_response(content_disposition) {
        Ok(file_name) => Ok(Download { total_size, file_name }),
        Err(e) => Err(e),
    }
}

} // verus!
