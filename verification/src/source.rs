//! How a caller's audio source is told apart and named.

use vstd::prelude::*;

use crate::errors::AudDError;
use crate::text::{has_prefix, push_str, starts_with, string_of};

verus! {

/// How a source given as text is sent.
#[derive(Debug, Clone, Copy, PartialEq, Eq, Structural)]
pub enum SourceKind {
    /// An `http://` or `https://` URL, sent as the `url` form field.
    Url,
    /// A local file path, uploaded as the `file` part.
    Path,
}

/// The kind of a source given as text: a URL exactly when it starts with
/// `http://` or `https://`.
pub open spec fn text_source_kind(s: Seq<char>) -> SourceKind {
    if has_prefix(s, "http://"@) || has_prefix(s, "https://"@) {
        SourceKind::Url
    } else {
        SourceKind::Path
    }
}

/// Tells a URL from a file path.
pub fn classify_source_text(s: &str) -> (r: SourceKind)
    ensures
        r == text_source_kind(s@),
{
    if starts_with(s, "http://") || starts_with(s, "https://") {
        SourceKind::Url
    } else {
        SourceKind::Path
    }
}

/// The file name sent for an upload: the path's own name when it has one,
/// otherwise `upload.bin`.
pub fn upload_file_name(path_name: Option<String>) -> (r: String)
    ensures
        r@ == match path_name {
            Some(n) => n@,
            None => "upload.bin"@,
        },
{
    match path_name {
        Some(n) => n,
        None => string_of("upload.bin"),
    }
}

/// The message of a path source that does not exist.
pub open spec fn missing_path_text(display: Seq<char>) -> Seq<char> {
    display + " is not an existing file path. Pass a URL (http:// or https://), a Path, or bytes."@
}

/// The error for a path source that does not exist, caught before any attempt.
pub fn missing_path_error(display: &str) -> (e: AudDError)
    ensures
        e matches AudDError::Source(m) && m@ == missing_path_text(display@),
{
    let mut m = string_of(display);
    push_str(&mut m, " is not an existing file path. Pass a URL (http:// or https://), a Path, or bytes.");
    AudDError::Source(m)
}

/// How an attempt gets the bytes of a reader source.
#[derive(Debug, Clone, Copy, PartialEq, Eq, Structural)]
pub enum ReaderAttempt {
    /// Send the bytes buffered on an earlier attempt.
    Buffered,
    /// Read the reader to its end now, and buffer the bytes for later attempts.
    ReadNow,
    /// The reader was taken and nothing was buffered: the source is refused.
    Consumed,
}

/// Decides how an attempt gets the bytes of a reader source: buffered bytes
/// first, then the reader if it is still there, else the source is consumed.
pub fn reader_attempt(has_buffer: bool, has_reader: bool) -> (r: ReaderAttempt)
    ensures
        r == if has_buffer {
            ReaderAttempt::Buffered
        } else if has_reader {
            ReaderAttempt::ReadNow
        } else {
            ReaderAttempt::Consumed
        },
{
    if has_buffer {
        ReaderAttempt::Buffered
    } else if has_reader {
        ReaderAttempt::ReadNow
    } else {
        ReaderAttempt::Consumed
    }
}

/// The message of a reader source asked for a second attempt after it was
/// consumed.
pub open spec fn consumed_reader_text() -> Seq<char> {
    "Cannot retry an unbuffered reader — pass bytes (Source::Bytes) or a Path/URL instead."@
}

/// The error for a reader source asked for again after it was consumed.
pub fn consumed_reader_error() -> (e: AudDError)
    ensures
        e matches AudDError::Source(m) && m@ == consumed_reader_text(),
{
    AudDError::Source(
        string_of(
            "Cannot retry an unbuffered reader — pass bytes (Source::Bytes) or a Path/URL instead.",
        ),
    )
}

} // verus!
