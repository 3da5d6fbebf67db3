//! What is asked of an upload before a record is made for it.

use crate::planner::VideoProcessingService;
use crate::text::{
    chars_of, decimal, last_segment, last_segment_start, lowercase_text, push_text, push_unsigned,
    text_eq, text_of, text_of_range,
};
use vstd::prelude::*;

verus! {

/// The largest accepted upload: 2 GiB.
pub const MAX_FILE_SIZE: u64 = 2147483648;

/// The smallest accepted upload: 1 MiB.
pub const MIN_FILE_SIZE: u64 = 1048576;

/// Why an upload is refused.
#[derive(Debug, Clone, Copy, PartialEq, Eq, Structural)]
pub enum ValidationFailure {
    /// The extension is not one of the supported containers.
    UnsupportedFormat,
    /// The file is larger than `MAX_FILE_SIZE`.
    TooLarge,
    /// The file is smaller than `MIN_FILE_SIZE`.
    TooSmall,
}

/// A refused upload, with the reason in words.
pub struct ValidationError {
    pub kind: ValidationFailure,
    pub reason: String,
}

/// Whether a lower-case extension is one of the supported containers.
pub open spec fn is_supported_format(lower: Seq<char>) -> bool {
    ||| lower == "mp4"@
    ||| lower == "mov"@
    ||| lower == "avi"@
    ||| lower == "mkv"@
    ||| lower == "webm"@
    ||| lower == "flv"@
    ||| lower == "wmv"@
    ||| lower == "m4v"@
}

/// The extension by which an upload is judged: what follows the last `.`
/// of its name, or the whole name where it holds none.
pub open spec fn upload_extension(filename: Seq<char>) -> Seq<char> {
    last_segment(filename, '.')
}

/// Why a file with the lower-case extension `lower` and `size` bytes is
/// refused, if it is. The format is judged first, then the upper limit,
/// then the lower.
pub open spec fn validation_failure(lower: Seq<char>, size: u64) -> Option<ValidationFailure> {
    if !is_supported_format(lower) {
        Some(ValidationFailure::UnsupportedFormat)
    } else if size > MAX_FILE_SIZE {
        Some(ValidationFailure::TooLarge)
    } else if size < MIN_FILE_SIZE {
        Some(ValidationFailure::TooSmall)
    } else {
        None
    }
}

/// The reason in words for a failure.
pub open spec fn validation_reason(kind: ValidationFailure, lower: Seq<char>, size: u64) -> Seq<
    char,
> {
    match kind {
        ValidationFailure::UnsupportedFormat => "Unsupported video format: "@ + lower
            + ". Supported formats: mp4, mov, avi, mkv, webm, flv, wmv, m4v"@,
        ValidationFailure::TooLarge => "File size too large: "@ + decimal(
            size as int / 1024 / 1024,
        ) + " MB. Maximum allowed: 2048 MB"@,
        ValidationFailure::TooSmall => "File size too small: "@ + decimal(size as int)
            + " bytes. Minimum required: 1048576 bytes"@,
    }
}

/// Whether a lower-case extension is one of the supported containers.
pub fn is_supported_extension(lower: &str) -> (r: bool)
    ensures
        r == is_supported_format(lower@),
{
    text_eq(lower, "mp4") || text_eq(lower, "mov") || text_eq(lower, "avi") || text_eq(
        lower,
        "mkv",
    ) || text_eq(lower, "webm") || text_eq(lower, "flv") || text_eq(lower, "wmv") || text_eq(
        lower,
        "m4v",
    )
}

/// What follows the last `.` of `filename`, or all of it.
pub fn extension_after_last_dot(filename: &str) -> (extension: String)
    ensures
        extension@ == upload_extension(filename@),
{
    let all = chars_of(filename);
    let start = last_segment_start(&all, '.');
    text_of_range(&all, start, all.len())
}

/// Judges a file by its lower-case extension and its size in bytes.
pub fn validate_extension_and_size(lower: &str, file_size: u64) -> (r: Result<
    (),
    ValidationError,
>)
    ensures
        match r {
            Ok(()) => validation_failure(lower@, file_size) is None,
            Err(e) => validation_failure(lower@, file_size) == Some(e.kind) && e.reason@
                == validation_reason(e.kind, lower@, file_size),
        },
{
    if !is_supported_extension(lower) {
        let mut reason: Vec<char> = Vec::new();
        push_text(&mut reason, "Unsupported video format: ");
        push_text(&mut reason, lower);
        push_text(&mut reason, ". Supported formats: mp4, mov, avi, mkv, webm, flv, wmv, m4v");
        return Err(
            ValidationError { kind: ValidationFailure::UnsupportedFormat, reason: text_of(&reason) },
        );
    }
    if file_size > MAX_FILE_SIZE {
        let mut reason: Vec<char> = Vec::new();
        push_text(&mut reason, "File size too large: ");
        push_unsigned(&mut reason, file_size / 1024 / 1024);
        push_text(&mut reason, " MB. Maximum allowed: 2048 MB");
        return Err(ValidationError { kind: ValidationFailure::TooLarge, reason: text_of(&reason) });
    }
    if file_size < MIN_FILE_SIZE {
        let mut reason: Vec<char> = Vec::new();
        push_text(&mut reason, "File size too small: ");
        push_unsigned(&mut reason, file_size);
        push_text(&mut reason, " bytes. Minimum required: 1048576 bytes");
        return Err(ValidationError { kind: ValidationFailure::TooSmall, reason: text_of(&reason) });
    }
    Ok(())
}

/// Whether the name of a file has the extension of a supported container,
/// in any case.
pub fn is_video_file(filename: &str) -> (r: bool)
    ensures
        r == is_supported_format(lowercase_text(upload_extension(filename@))),
{
    let extension = extension_after_last_dot(filename);
    let lower = extension.as_str().to_lowercase();
    is_supported_extension(lower.as_str())
}

impl VideoProcessingService {
    /// Judges an upload by the extension of its name, in any case, and by
    /// its size: the extension is one of the supported containers and the
    /// size lies between `MIN_FILE_SIZE` and `MAX_FILE_SIZE`, both included.
    pub fn validate_video_file(filename: &str, file_size: u64) -> (r: Result<(), ValidationError>)
        ensures
            match r {
                Ok(()) => validation_failure(
                    lowercase_text(upload_extension(filename@)),
                    file_size,
                ) is None,
                Err(e) => validation_failure(
                    lowercase_text(upload_extension(filename@)),
                    file_size,
                ) == Some(e.kind) && e.reason@ == validation_reason(
                    e.kind,
                    lowercase_text(upload_extension(filename@)),
                    file_size,
                ),
            },
    {
        let extension = extension_after_last_dot(filename);
        let lower = extension.as_str().to_lowercase();
        validate_extension_and_size(lower.as_str(), file_size)
    }
}

/// A file of a supported container is accepted exactly when its size is at
/// least 1 MiB and at most 2 GiB.
pub proof fn lemma_size_window(lower: Seq<char>, size: u64)
    requires
        is_supported_format(lower),
    ensures
        validation_failure(lower, size) is None <==> 1048576 <= size <= 2147483648,
{
}

} // verus!
