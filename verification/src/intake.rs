//! Upload intake: what a multipart form must hold for an upload to be
//! accepted, under which name the file is stored, and what follows the
//! storing of the original.

use crate::codec::ToolUnavailable;
use crate::models::{CreateVideoRequest, Timestamp, Video, VideoStatus, VideoUploadResponse};
use crate::planner::VideoProcessingService;
use crate::text::{
    chars_of, last_segment, last_segment_start, lowercase_text, push_range, push_replaced,
    push_text, replace_char, text_of,
};
use crate::validation::{
    is_supported_format, is_video_file, upload_extension, validation_failure, validation_reason,
    ValidationFailure,
};
use vstd::prelude::*;

verus! {

/// A file of a form: its name and its bytes.
pub struct UploadedFile {
    pub filename: String,
    pub data: Vec<u8>,
}

/// One field of a multipart form, read to its end.
pub enum FormField {
    /// The field `title`.
    Title(String),
    /// The field `description`.
    Description(String),
    /// The field `files`, with the file name where the part states one.
    File { filename: Option<String>, data: Vec<u8> },
    /// Any other field.
    Other,
}

/// What a form has held so far.
pub struct UploadForm {
    pub title: String,
    pub description: Option<String>,
    pub video_file: Option<UploadedFile>,
}

/// Why an upload is turned away, each with the status of the answer.
#[derive(Debug, Clone, Copy, PartialEq, Eq, Structural)]
pub enum RejectionKind {
    /// No title: 400.
    TitleMissing,
    /// No file of a supported container: 400.
    FileMissing,
    /// The file is refused: 400.
    Invalid(ValidationFailure),
    /// The encoder is not available: 500.
    ToolUnavailable,
}

/// A refused upload: why, and what the answer says.
pub struct UploadRejection {
    pub kind: RejectionKind,
    pub message: String,
}

/// An upload that passed every check.
pub struct AcceptedUpload {
    pub title: String,
    pub description: Option<String>,
    pub original_filename: String,
    /// The name under which the file is stored.
    pub filename: String,
    pub data: Vec<u8>,
}

/// The name that stands for a file part without a name.
pub open spec fn part_filename(filename: Option<String>) -> Seq<char> {
    match filename {
        Some(name) => name@,
        None => "unknown"@,
    }
}

/// The name under which an upload is stored: the title in lower case, with
/// `_` for each blank and without its dots, then a dot and what follows the
/// last dot of the original name.
pub open spec fn stored_name(lower_title: Seq<char>, original_filename: Seq<char>) -> Seq<char> {
    replace_char(replace_char(lower_title, ' ', "_"@), '.', ""@) + "."@ + last_segment(
        original_filename,
        '.',
    )
}

impl RejectionKind {
    /// The status of the answer.
    pub fn status_code(&self) -> (code: u16)
        ensures
            code == if *self == RejectionKind::ToolUnavailable {
                500u16
            } else {
                400u16
            },
    {
        match self {
            RejectionKind::ToolUnavailable => 500,
            _ => 400,
        }
    }
}

/// Whether a field holds a file whose name has the extension of a supported
/// container, in any case.
pub open spec fn field_is_video(field: FormField) -> bool {
    match field {
        FormField::File { filename, data } => is_supported_format(
            lowercase_text(upload_extension(part_filename(filename))),
        ),
        _ => false,
    }
}

/// Whether the form `after` is the form `before` with one more field taken
/// in.
pub open spec fn took_field(
    before: UploadForm,
    after: UploadForm,
    field: FormField,
    is_video: bool,
) -> bool {
    match field {
        FormField::Title(text) => after.title == text && after.description == before.description
            && after.video_file == before.video_file,
        FormField::Description(text) => after.title == before.title && after.video_file
            == before.video_file && after.description == if text@.len() > 0 {
            Some(text)
        } else {
            before.description
        },
        FormField::File { filename, data } => after.title == before.title && after.description
            == before.description && if is_video {
            match after.video_file {
                Some(file) => file.filename@ == part_filename(filename) && file.data == data,
                None => false,
            }
        } else {
            after.video_file == before.video_file
        },
        FormField::Other => after == before,
    }
}

impl UploadForm {
    /// A form of which nothing was read yet.
    pub fn new() -> (form: UploadForm)
        ensures
            form.title@.len() == 0,
            form.description is None,
            form.video_file is None,
    {
        UploadForm { title: String::new(), description: None, video_file: None }
    }

    /// Takes in one field. A later title replaces an earlier one; an empty
    /// description leaves the description as it was; a file is kept only
    /// where `is_video` says that its name is that of a supported
    /// container, and then replaces an earlier one.
    pub fn take_field_judged(&mut self, field: FormField, is_video: bool)
        ensures
            took_field(*old(self), *final(self), field, is_video),
    {
        match field {
            FormField::Title(text) => {
                self.title = text;
            },
            FormField::Description(text) => {
                if text.as_str().unicode_len() > 0 {
                    self.description = Some(text);
                }
            },
            FormField::File { filename, data } => {
                if is_video {
                    let name = match filename {
                        Some(name) => name,
                        None => "unknown".to_owned(),
                    };
                    self.video_file = Some(UploadedFile { filename: name, data });
                }
            },
            FormField::Other => {},
        }
    }

    /// Takes in one field, judging a file by the extension of its name.
    pub fn take_field(&mut self, field: FormField)
        ensures
            took_field(*old(self), *final(self), field, field_is_video(field)),
    {
        let is_video = match &field {
            FormField::File { filename, data } => match filename {
                Some(name) => is_video_file(name.as_str()),
                None => is_video_file("unknown"),
            },
            _ => false,
        };
        self.take_field_judged(field, is_video);
    }
}

impl VideoProcessingService {
    /// The name under which an upload is stored, from its title in lower
    /// case and its original name.
    pub fn stored_filename_for(lower_title: &str, original_filename: &str) -> (name: String)
        ensures
            name@ == stored_name(lower_title@, original_filename@),
    {
        let title = chars_of(lower_title);
        let mut underscored: Vec<char> = Vec::new();
        push_replaced(&mut underscored, &title, ' ', "_");
        let mut out: Vec<char> = Vec::new();
        push_replaced(&mut out, &underscored, '.', "");
        push_text(&mut out, ".");
        let original = chars_of(original_filename);
        let start = last_segment_start(&original, '.');
        push_range(&mut out, &original, start, original.len());
        text_of(&out)
    }

    /// The name under which an upload is stored.
    pub fn stored_filename(title: &str, original_filename: &str) -> (name: String)
        ensures
            name@ == stored_name(lowercase_text(title@), original_filename@),
    {
        let lower = title.to_lowercase();
        Self::stored_filename_for(lower.as_str(), original_filename)
    }
}

/// What the checks of a form with this title and this file would refuse,
/// given the verdict on the file.
pub open spec fn form_rejection(
    title: Seq<char>,
    has_file: bool,
    verdict: Option<ValidationFailure>,
) -> Option<RejectionKind> {
    if title.len() == 0 {
        Some(RejectionKind::TitleMissing)
    } else if !has_file {
        Some(RejectionKind::FileMissing)
    } else {
        match verdict {
            Some(failure) => Some(RejectionKind::Invalid(failure)),
            None => None,
        }
    }
}

/// The verdict of the validation on the file of a form.
pub open spec fn file_verdict(file: Option<UploadedFile>) -> Option<ValidationFailure> {
    match file {
        Some(f) => validation_failure(
            lowercase_text(upload_extension(f.filename@)),
            f.data@.len() as u64,
        ),
        None => None,
    }
}

impl UploadForm {
    /// Checks a form that was read to its end: it has a title, it has a
    /// video file, and the file passes the validation. An accepted upload
    /// keeps title, description and bytes and is given its stored name.
    pub fn check(self) -> (r: Result<AcceptedUpload, UploadRejection>)
        ensures
            match r {
                Ok(upload) => {
                    &&& form_rejection(
                        self.title@,
                        self.video_file is Some,
                        file_verdict(self.video_file),
                    ) is None
                    &&& upload.title == self.title
                    &&& upload.description == self.description
                    &&& self.video_file matches Some(file) && upload.original_filename
                        == file.filename && upload.data == file.data
                    &&& upload.filename@ == stored_name(
                        lowercase_text(self.title@),
                        upload.original_filename@,
                    )
                    &&& upload.data@.len() <= crate::validation::MAX_FILE_SIZE
                },
                Err(rejection) => {
                    &&& form_rejection(
                        self.title@,
                        self.video_file is Some,
                        file_verdict(self.video_file),
                    ) == Some(rejection.kind)
                    &&& rejection.kind == RejectionKind::TitleMissing ==> rejection.message@
                        == "Title is required"@
                    &&& rejection.kind == RejectionKind::FileMissing ==> rejection.message@
                        == "Video file is required"@
                    &&& rejection.kind matches RejectionKind::Invalid(failure)
                        ==> self.video_file matches Some(file) && rejection.message@
                        == validation_reason(
                        failure,
                        lowercase_text(upload_extension(file.filename@)),
                        file.data@.len() as u64,
                    )
                },
            },
    {
        if self.title.as_str().unicode_len() == 0 {
            return Err(
                UploadRejection {
                    kind: RejectionKind::TitleMissing,
                    message: "Title is required".to_owned(),
                },
            );
        }
        let file = match self.video_file {
            Some(file) => file,
            None => {
                return Err(
                    UploadRejection {
                        kind: RejectionKind::FileMissing,
                        message: "Video file is required".to_owned(),
                    },
                );
            },
        };
        let file_size: u64 = file.data.len() as u64;
        match VideoProcessingService::validate_video_file(file.filename.as_str(), file_size) {
            Ok(()) => {},
            Err(e) => {
                return Err(
                    UploadRejection { kind: RejectionKind::Invalid(e.kind), message: e.reason },
                );
            },
        }
        let filename = VideoProcessingService::stored_filename(
            self.title.as_str(),
            file.filename.as_str(),
        );
        Ok(
            AcceptedUpload {
                title: self.title,
                description: self.description,
                original_filename: file.filename,
                filename,
                data: file.data,
            },
        )
    }
}

impl AcceptedUpload {
    /// What is asked of the store to create the record of this upload.
    pub fn create_request(&self) -> (request: CreateVideoRequest)
        ensures
            request.title == self.title,
            request.description == self.description,
    {
        CreateVideoRequest { title: self.title.clone(), description: clone_text(&self.description) }
    }
}

/// The rejection for an encoder that is not available.
pub fn tool_rejection(cause: ToolUnavailable) -> (rejection: UploadRejection)
    ensures
        rejection.kind == RejectionKind::ToolUnavailable,
        rejection.message@ == "Video processing service is not available"@,
{
    UploadRejection {
        kind: RejectionKind::ToolUnavailable,
        message: "Video processing service is not available".to_owned(),
    }
}

/// The answer to an accepted upload, once its record exists: the video is
/// uploading, nothing is encoded yet.
pub fn accepted_response(video: &Video, upload: &AcceptedUpload) -> (response: VideoUploadResponse)
    requires
        upload.data@.len() <= crate::validation::MAX_FILE_SIZE,
    ensures
        response.video_id == video.id,
        response.title == upload.title,
        response.description == upload.description,
        response.status == VideoStatus::Uploading,
        response.hls_files_count == 0,
        response.total_size == upload.data@.len(),
        response.created_at == match video.created_at {
            Some(t) => t,
            None => Timestamp::epoch(),
        },
{
    VideoUploadResponse {
        video_id: video.id,
        title: upload.title.clone(),
        description: clone_text(&upload.description),
        status: VideoStatus::Uploading,
        hls_files_count: 0,
        total_size: upload.data.len() as i64,
        created_at: Timestamp::or_epoch(video.created_at),
    }
}

/// A copy of an optional text.
pub fn clone_text(text: &Option<String>) -> (copy: Option<String>)
    ensures
        copy == *text,
{
    match text {
        Some(t) => Some(t.clone()),
        None => None,
    }
}

/// What follows the storing of the original file.
#[derive(Debug, Clone, Copy, PartialEq, Eq, Structural)]
pub enum AfterOriginal {
    /// The original is stored: the processing run starts.
    StartRun,
    /// The original could not be stored: the video fails, and no run is
    /// ever started for it.
    MarkFailed,
}

impl AfterOriginal {
    /// Decides what follows, given whether the original was stored.
    pub fn decide(stored: bool) -> (next: AfterOriginal)
        ensures
            next == if stored {
                AfterOriginal::StartRun
            } else {
                AfterOriginal::MarkFailed
            },
            next == AfterOriginal::StartRun <==> stored,
    {
        if stored {
            AfterOriginal::StartRun
        } else {
            AfterOriginal::MarkFailed
        }
    }

    /// The name under which the storing of the original is reported.
    pub fn step_name(stored: bool) -> (name: &'static str)
        ensures
            name@ == if stored {
                "upload_original_video"@
            } else {
                "upload_original_video_failed"@
            },
    {
        if stored {
            "upload_original_video"
        } else {
            "upload_original_video_failed"
        }
    }
}

} // verus!
