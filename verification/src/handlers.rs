//! The decisions of the video routes: who may see a video, when it can be
//! streamed, and what an update changes.

use crate::ids::RecordId;
use crate::intake::clone_text;
use crate::models::{stored_status, HlsStreamingResponse, Video};
use crate::storage::GcsService;
use crate::text::{chars_of, push_text, strip_bounds, text_of, text_of_range, trimmed, Strip};
use vstd::prelude::*;

verus! {

/// Why a route refuses a request.
#[derive(Debug, Clone, Copy, PartialEq, Eq, Structural)]
pub enum Refusal {
    /// The video belongs to someone else: 403.
    AccessDenied,
    /// There is no such video: 404.
    VideoNotFound,
    /// The video has no playlist yet: 400.
    NotReadyForStreaming,
    /// The video has no thumbnail: 404.
    ThumbnailNotAvailable,
    /// An update names neither title nor description: 400.
    NothingToUpdate,
}

impl Refusal {
    /// The status of the answer.
    pub open spec fn status(self) -> u16 {
        match self {
            Refusal::AccessDenied => 403,
            Refusal::VideoNotFound => 404,
            Refusal::NotReadyForStreaming => 400,
            Refusal::ThumbnailNotAvailable => 404,
            Refusal::NothingToUpdate => 400,
        }
    }

    /// What the answer says.
    pub open spec fn text(self) -> Seq<char> {
        match self {
            Refusal::AccessDenied => "Access denied"@,
            Refusal::VideoNotFound => "Video not found"@,
            Refusal::NotReadyForStreaming => "Video is not ready for streaming"@,
            Refusal::ThumbnailNotAvailable => "Thumbnail not available"@,
            Refusal::NothingToUpdate => "At least one field (title or description) must be provided"@,
        }
    }

    /// The status of the answer.
    pub fn status_code(&self) -> (code: u16)
        ensures
            code == self.status(),
    {
        match self {
            Refusal::AccessDenied => 403,
            Refusal::VideoNotFound => 404,
            Refusal::NotReadyForStreaming => 400,
            Refusal::ThumbnailNotAvailable => 404,
            Refusal::NothingToUpdate => 400,
        }
    }

    /// What the answer says.
    pub fn message(&self) -> (message: &'static str)
        ensures
            message@ == self.text(),
    {
        match self {
            Refusal::AccessDenied => "Access denied",
            Refusal::VideoNotFound => "Video not found",
            Refusal::NotReadyForStreaming => "Video is not ready for streaming",
            Refusal::ThumbnailNotAvailable => "Thumbnail not available",
            Refusal::NothingToUpdate => "At least one field (title or description) must be provided",
        }
    }
}

/// Why `user_id` may not see the video that was looked up, if so.
pub open spec fn access_refusal(video: Option<Video>, user_id: RecordId) -> Option<Refusal> {
    match video {
        None => Some(Refusal::VideoNotFound),
        Some(v) => if v.user_id != user_id {
            Some(Refusal::AccessDenied)
        } else {
            None
        },
    }
}

/// Hands the video that was looked up to its owner and to nobody else.
pub fn authorize(video: Option<Video>, user_id: RecordId) -> (r: Result<Video, Refusal>)
    ensures
        match r {
            Ok(v) => video == Some(v) && access_refusal(video, user_id) is None,
            Err(refusal) => access_refusal(video, user_id) == Some(refusal),
        },
{
    match video {
        None => Err(Refusal::VideoNotFound),
        Some(v) => if v.user_id.value != user_id.value {
            Err(Refusal::AccessDenied)
        } else {
            Ok(v)
        },
    }
}

/// Where `video` is streamed from: the public address of its playlist,
/// which it must have, and of its thumbnail, if it has one.
pub fn stream_video(video: Video, gcs_service: &GcsService) -> (r: Result<
    HlsStreamingResponse,
    Refusal,
>)
    ensures
        match r {
            Ok(response) => {
                &&& video.hls_playlist_path matches Some(path) && response.hls_url@
                    == gcs_service.public_url(path@)
                &&& match video.thumbnail_path {
                    Some(path) => response.thumbnail_url matches Some(url) && url@
                        == gcs_service.public_url(path@),
                    None => response.thumbnail_url is None,
                }
                &&& response.video_id == video.id
                &&& response.status == stored_status(video.status)
                &&& response.title == video.title
                &&& response.duration == video.duration
            },
            Err(refusal) => video.hls_playlist_path is None && refusal
                == Refusal::NotReadyForStreaming,
        },
{
    let status = video.get_status();
    let hls_url = match &video.hls_playlist_path {
        Some(path) => gcs_service.get_public_url(path.as_str()),
        None => { return Err(Refusal::NotReadyForStreaming); },
    };
    let thumbnail_url = match &video.thumbnail_path {
        Some(path) => Some(gcs_service.get_public_url(path.as_str())),
        None => None,
    };
    Ok(
        HlsStreamingResponse {
            video_id: video.id,
            hls_url,
            thumbnail_url,
            status,
            title: video.title,
            duration: video.duration,
        },
    )
}

/// The object and the local file through which a thumbnail is served.
pub struct ThumbnailTransfer {
    /// `thumbnails/{id}.jpg`.
    pub remote_path: String,
    /// `/tmp/thumb_{id}.jpg`.
    pub temp_path: String,
}

/// From where to where the thumbnail of `video` is fetched, if the record
/// holds a thumbnail path.
pub fn get_thumbnail(video: &Video) -> (r: Result<ThumbnailTransfer, Refusal>)
    ensures
        match r {
            Ok(transfer) => video.thumbnail_path is Some && transfer.remote_path@
                == "thumbnails/"@ + video.id.text() + ".jpg"@ && transfer.temp_path@
                == "/tmp/thumb_"@ + video.id.text() + ".jpg"@,
            Err(refusal) => video.thumbnail_path is None && refusal
                == Refusal::ThumbnailNotAvailable,
        },
{
    if video.thumbnail_path.is_none() {
        return Err(Refusal::ThumbnailNotAvailable);
    }
    let id = video.id.to_string();
    let mut remote: Vec<char> = Vec::new();
    push_text(&mut remote, "thumbnails/");
    push_text(&mut remote, id.as_str());
    push_text(&mut remote, ".jpg");
    let mut temp: Vec<char> = Vec::new();
    push_text(&mut temp, "/tmp/thumb_");
    push_text(&mut temp, id.as_str());
    push_text(&mut temp, ".jpg");
    Ok(ThumbnailTransfer { remote_path: text_of(&remote), temp_path: text_of(&temp) })
}

/// The folder in storage that holds all files of a video: its id.
pub fn delete_video(video_id: &RecordId) -> (folder_prefix: String)
    ensures
        folder_prefix@ == video_id.text(),
{
    video_id.to_string()
}

/// The title after an update: the new one without surrounding whitespace,
/// unless none is given or nothing is left of it.
pub open spec fn updated_title(existing: Seq<char>, title: Option<String>) -> Seq<char> {
    match title {
        Some(t) => if trimmed(t@).len() > 0 {
            trimmed(t@)
        } else {
            existing
        },
        None => existing,
    }
}

/// The description after an update: the new one without surrounding
/// whitespace, none where nothing is left of it, and the old one where
/// none is given.
pub open spec fn updated_description(existing: Option<String>, description: Option<String>)
    -> Option<Seq<char>> {
    match description {
        Some(d) => if trimmed(d@).len() > 0 {
            Some(trimmed(d@))
        } else {
            None
        },
        None => match existing {
            Some(e) => Some(e@),
            None => None,
        },
    }
}

/// What an update changes.
pub struct VideoUpdate {
    pub title: String,
    pub description: Option<String>,
}

/// Title and description of `existing` after an update that gives
/// `title`, `description`, both or neither; an update with neither is
/// refused.
pub fn update_video(existing: &Video, title: Option<String>, description: Option<String>) -> (r:
    Result<VideoUpdate, Refusal>)
    ensures
        match r {
            Ok(update) => {
                &&& title is Some || description is Some
                &&& update.title@ == updated_title(existing.title@, title)
                &&& match update.description {
                    Some(d) => updated_description(existing.description, description) == Some(d@),
                    None => updated_description(existing.description, description) is None,
                }
            },
            Err(refusal) => title is None && description is None && refusal
                == Refusal::NothingToUpdate,
        },
{
    if title.is_none() && description.is_none() {
        return Err(Refusal::NothingToUpdate);
    }
    let new_title = match &title {
        Some(t) => {
            let all = chars_of(t.as_str());
            let (from, to) = strip_bounds(&all, Strip::Whitespace);
            if from < to {
                text_of_range(&all, from, to)
            } else {
                existing.title.clone()
            }
        },
        None => existing.title.clone(),
    };
    let new_description = match &description {
        Some(d) => {
            let all = chars_of(d.as_str());
            let (from, to) = strip_bounds(&all, Strip::Whitespace);
            if from < to {
                Some(text_of_range(&all, from, to))
            } else {
                None
            }
        },
        None => clone_text(&existing.description),
    };
    Ok(VideoUpdate { title: new_title, description: new_description })
}

} // verus!
