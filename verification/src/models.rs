//! The lifecycle status of a video and the record that holds it.

use crate::ids::RecordId;
use crate::storage::GcsService;
use crate::text::{lowercase_text, push_text, text_eq, text_of};
use vstd::prelude::*;

verus! {

/// Where a video stands in its lifecycle.
#[derive(Debug, Clone, Copy, PartialEq, Eq, Structural)]
pub enum VideoStatus {
    Uploading,
    Processing,
    Ready,
    Failed,
}

impl VideoStatus {
    /// The name under which the status is stored.
    pub open spec fn text(self) -> Seq<char> {
        match self {
            VideoStatus::Uploading => "uploading"@,
            VideoStatus::Processing => "processing"@,
            VideoStatus::Ready => "ready"@,
            VideoStatus::Failed => "failed"@,
        }
    }

    /// The status that a lower-case name denotes.
    pub open spec fn named(lower: Seq<char>) -> Option<VideoStatus> {
        if lower == "uploading"@ {
            Some(VideoStatus::Uploading)
        } else if lower == "processing"@ {
            Some(VideoStatus::Processing)
        } else if lower == "ready"@ {
            Some(VideoStatus::Ready)
        } else if lower == "failed"@ {
            Some(VideoStatus::Failed)
        } else {
            None
        }
    }

    /// The message for a text that names no status.
    pub open spec fn invalid_message(s: Seq<char>) -> Seq<char> {
        "Invalid video status: "@ + s
    }

    /// Whether a video in this status may move to `next`: an upload starts
    /// processing or fails, and processing ends ready or failed.
    pub open spec fn allows(self, next: VideoStatus) -> bool {
        match (self, next) {
            (VideoStatus::Uploading, VideoStatus::Processing) => true,
            (VideoStatus::Uploading, VideoStatus::Failed) => true,
            (VideoStatus::Processing, VideoStatus::Ready) => true,
            (VideoStatus::Processing, VideoStatus::Failed) => true,
            _ => false,
        }
    }

    /// Whether a video in this status may move to `next`.
    pub fn can_become(&self, next: VideoStatus) -> (r: bool)
        ensures
            r == self.allows(next),
    {
        match (*self, next) {
            (VideoStatus::Uploading, VideoStatus::Processing) => true,
            (VideoStatus::Uploading, VideoStatus::Failed) => true,
            (VideoStatus::Processing, VideoStatus::Ready) => true,
            (VideoStatus::Processing, VideoStatus::Failed) => true,
            _ => false,
        }
    }

    /// The name under which the status is stored.
    pub fn to_string(&self) -> (name: String)
        ensures
            name@ == self.text(),
    {
        match self {
            VideoStatus::Uploading => "uploading".to_owned(),
            VideoStatus::Processing => "processing".to_owned(),
            VideoStatus::Ready => "ready".to_owned(),
            VideoStatus::Failed => "failed".to_owned(),
        }
    }

    /// The status that the lower-case name `lower` denotes; `original` is
    /// the text as it was given, for the message.
    pub fn from_lowercase(lower: &str, original: &str) -> (r: Result<VideoStatus, String>)
        ensures
            match r {
                Ok(status) => Self::named(lower@) == Some(status),
                Err(message) => Self::named(lower@) is None && message@ == Self::invalid_message(
                    original@,
                ),
            },
    {
        if text_eq(lower, "uploading") {
            Ok(VideoStatus::Uploading)
        } else if text_eq(lower, "processing") {
            Ok(VideoStatus::Processing)
        } else if text_eq(lower, "ready") {
            Ok(VideoStatus::Ready)
        } else if text_eq(lower, "failed") {
            Ok(VideoStatus::Failed)
        } else {
            let mut message: Vec<char> = Vec::new();
            push_text(&mut message, "Invalid video status: ");
            push_text(&mut message, original);
            Err(text_of(&message))
        }
    }

    /// Reads a status from its name in any case.
    pub fn from_str(s: &str) -> (r: Result<VideoStatus, String>)
        ensures
            match r {
                Ok(status) => Self::named(lowercase_text(s@)) == Some(status),
                Err(message) => Self::named(lowercase_text(s@)) is None && message@
                    == Self::invalid_message(s@),
            },
    {
        let lower = s.to_lowercase();
        Self::from_lowercase(lower.as_str(), s)
    }
}

/// The names of the four statuses are distinct, so each status is read back
/// from its own name.
pub proof fn lemma_status_names_round_trip(status: VideoStatus)
    ensures
        VideoStatus::named(status.text()) == Some(status),
{
    reveal_strlit("uploading");
    reveal_strlit("processing");
    reveal_strlit("ready");
    reveal_strlit("failed");
    assert("uploading"@.len() == 9);
    assert("processing"@.len() == 10);
    assert("ready"@.len() == 5);
    assert("failed"@.len() == 6);
}

/// A point in time: seconds and nanoseconds since the Unix epoch.
#[derive(Debug, Clone, Copy, PartialEq, Eq, Structural)]
pub struct Timestamp {
    pub seconds: i64,
    pub nanos: u32,
}

impl Timestamp {
    /// The Unix epoch, which stands for a time that was never recorded.
    pub open spec fn epoch() -> Timestamp {
        Timestamp { seconds: 0, nanos: 0 }
    }

    /// `time`, or the epoch where there is none.
    pub fn or_epoch(time: Option<Timestamp>) -> (r: Timestamp)
        ensures
            r == match time {
                Some(t) => t,
                None => Timestamp::epoch(),
            },
    {
        match time {
            Some(t) => t,
            None => Timestamp { seconds: 0, nanos: 0 },
        }
    }
}

/// The record of a video.
#[derive(Debug, Clone)]
pub struct Video {
    pub id: RecordId,
    pub title: String,
    pub description: Option<String>,
    pub filename: String,
    pub original_filename: String,
    pub file_size: i64,
    /// Duration in seconds.
    pub duration: Option<i32>,
    pub thumbnail_path: Option<String>,
    pub hls_playlist_path: Option<String>,
    /// The status under its stored name.
    pub status: Option<String>,
    pub user_id: RecordId,
    pub created_at: Option<Timestamp>,
    pub updated_at: Option<Timestamp>,
}

/// The status that a stored name stands for: a record without a status, or
/// with a name that is none, counts as failed.
pub open spec fn stored_status(status: Option<String>) -> VideoStatus {
    match status {
        Some(name) => match VideoStatus::named(lowercase_text(name@)) {
            Some(status) => status,
            None => VideoStatus::Failed,
        },
        None => VideoStatus::Failed,
    }
}

impl Video {
    /// The status of the record.
    pub fn get_status(&self) -> (status: VideoStatus)
        ensures
            status == stored_status(self.status),
    {
        match &self.status {
            Some(name) => match VideoStatus::from_str(name.as_str()) {
                Ok(status) => status,
                Err(_) => VideoStatus::Failed,
            },
            None => VideoStatus::Failed,
        }
    }

    /// Sets the status of the record and leaves the rest as it is.
    pub fn set_status(&mut self, status: VideoStatus)
        ensures
            final(self).status matches Some(name) && name@ == status.text(),
            final(self).id == old(self).id,
            final(self).title == old(self).title,
            final(self).description == old(self).description,
            final(self).filename == old(self).filename,
            final(self).original_filename == old(self).original_filename,
            final(self).file_size == old(self).file_size,
            final(self).duration == old(self).duration,
            final(self).thumbnail_path == old(self).thumbnail_path,
            final(self).hls_playlist_path == old(self).hls_playlist_path,
            final(self).user_id == old(self).user_id,
            final(self).created_at == old(self).created_at,
            final(self).updated_at == old(self).updated_at,
    {
        self.status = Some(status.to_string());
    }
}

/// What is asked to create a video.
#[derive(Debug)]
pub struct CreateVideoRequest {
    pub title: String,
    pub description: Option<String>,
}

/// Where a video is streamed from.
#[derive(Debug)]
pub struct HlsStreamingResponse {
    pub video_id: RecordId,
    pub hls_url: String,
    pub thumbnail_url: Option<String>,
    pub status: VideoStatus,
    pub title: String,
    pub duration: Option<i32>,
}

/// The answer to an accepted upload.
#[derive(Debug)]
pub struct VideoUploadResponse {
    pub video_id: RecordId,
    pub title: String,
    pub description: Option<String>,
    pub status: VideoStatus,
    pub hls_files_count: usize,
    pub total_size: i64,
    pub created_at: Timestamp,
}

/// A video as the API shows it.
#[derive(Debug)]
pub struct VideoResponse {
    pub id: RecordId,
    pub title: String,
    pub description: Option<String>,
    pub filename: String,
    pub file_size: i64,
    pub duration: Option<i32>,
    pub thumbnail_path: Option<String>,
    pub hls_playlist_path: Option<String>,
    pub hls_stream_url: Option<String>,
    pub thumbnail_url: Option<String>,
    pub status: VideoStatus,
    pub user_id: RecordId,
    pub created_at: Timestamp,
    pub updated_at: Timestamp,
}

/// One page of a list.
#[derive(Debug)]
pub struct PaginatedResponse<T> {
    pub data: Vec<T>,
    pub pagination: PaginationMeta,
}

/// Where a page stands in its list.
#[derive(Debug, Clone, Copy, PartialEq, Eq, Structural)]
pub struct PaginationMeta {
    pub total: i64,
    pub limit: i64,
    pub offset: i64,
    pub current_page: i64,
    pub total_pages: i64,
    pub has_next: bool,
    pub has_previous: bool,
}

/// Whether a page can be described: there is a page size, nothing is
/// negative and the numbers of the pages can be computed in 64 bits.
pub open spec fn page_describable(total: i64, limit: i64, offset: i64) -> bool {
    &&& total >= 0
    &&& limit > 0
    &&& offset >= 0
    &&& total + limit <= i64::MAX
    &&& offset / limit < i64::MAX
}

/// The page of `limit` items that starts `offset` items into a list of
/// `total`: pages are counted from 1, and the last one may be short.
pub open spec fn page_of(total: i64, limit: i64, offset: i64) -> PaginationMeta {
    let total_pages = (total + limit - 1) / (limit as int);
    let current_page = offset / limit + 1;
    PaginationMeta {
        total,
        limit,
        offset,
        current_page: current_page as i64,
        total_pages: total_pages as i64,
        has_next: current_page < total_pages,
        has_previous: current_page > 1,
    }
}

impl PaginationMeta {
    /// Describes the page of `limit` items at `offset` in a list of `total`.
    pub fn new(total: i64, limit: i64, offset: i64) -> (meta: PaginationMeta)
        requires
            page_describable(total, limit, offset),
        ensures
            meta == page_of(total, limit, offset),
            meta.total_pages * limit >= total,
            meta.total_pages >= 0,
            meta.current_page >= 1,
    {
        proof {
            assert(0 <= offset as int / limit as int) by (nonlinear_arith)
                requires
                    offset >= 0,
                    limit > 0,
            ;
            assert(0 <= (total + limit - 1) / (limit as int) <= total + limit - 1)
                by (nonlinear_arith)
                requires
                    total >= 0,
                    limit > 0,
            ;
        }
        let total_pages: i64 = (total + limit - 1) / limit;
        let current_page: i64 = offset / limit + 1;
        proof {
            assert(total_pages * limit >= total) by (nonlinear_arith)
                requires
                    total >= 0,
                    limit > 0,
                    total_pages == (total + limit - 1) / (limit as int),
            ;
        }
        PaginationMeta {
            total,
            limit,
            offset,
            current_page,
            total_pages,
            has_next: current_page < total_pages,
            has_previous: current_page > 1,
        }
    }

    /// Describes the page, where it can be described.
    pub fn checked(total: i64, limit: i64, offset: i64) -> (meta: Option<PaginationMeta>)
        ensures
            meta == if page_describable(total, limit, offset) {
                Some(page_of(total, limit, offset))
            } else {
                None
            },
    {
        if total >= 0 && limit > 0 && offset >= 0 && total <= i64::MAX - limit && offset / limit
            < i64::MAX {
            Some(PaginationMeta::new(total, limit, offset))
        } else {
            None
        }
    }
}

/// Which page of a list is asked for.
#[derive(Debug)]
pub struct VideoListQuery {
    pub limit: Option<i64>,
    pub offset: Option<i64>,
}

impl VideoListQuery {
    /// The page size: 10 unless given, and never more than 100.
    pub fn page_limit(&self) -> (limit: i64)
        ensures
            limit == match self.limit {
                Some(l) => if l < 100 {
                    l
                } else {
                    100
                },
                None => 10,
            },
    {
        match self.limit {
            Some(l) => if l < 100 {
                l
            } else {
                100
            },
            None => 10,
        }
    }

    /// The start of the page: the front of the list unless given.
    pub fn page_offset(&self) -> (offset: i64)
        ensures
            offset == match self.offset {
                Some(o) => o,
                None => 0,
            },
    {
        match self.offset {
            Some(o) => o,
            None => 0,
        }
    }
}

/// `/api/v1/videos/{id}/stream/playlist.m3u8`.
pub open spec fn stream_route(id: RecordId) -> Seq<char> {
    "/api/v1/videos/"@ + id.text() + "/stream/playlist.m3u8"@
}

/// `/api/v1/videos/{id}/thumbnail`.
pub open spec fn thumbnail_route(id: RecordId) -> Seq<char> {
    "/api/v1/videos/"@ + id.text() + "/thumbnail"@
}

/// Whether `response` shows `video` in all that does not depend on where
/// its files are served from.
pub open spec fn shows(response: VideoResponse, video: Video) -> bool {
    &&& response.id == video.id
    &&& response.title == video.title
    &&& response.description == video.description
    &&& response.filename == video.filename
    &&& response.file_size == video.file_size
    &&& response.duration == video.duration
    &&& response.thumbnail_path == video.thumbnail_path
    &&& response.hls_playlist_path == video.hls_playlist_path
    &&& response.status == stored_status(video.status)
    &&& response.user_id == video.user_id
    &&& response.created_at == match video.created_at {
        Some(t) => t,
        None => Timestamp::epoch(),
    }
    &&& response.updated_at == match video.updated_at {
        Some(t) => t,
        None => Timestamp::epoch(),
    }
}

impl VideoResponse {
    /// Shows `video` with the public addresses of its playlist and its
    /// thumbnail in the bucket of `gcs_service`, each where the record
    /// holds the path.
    pub fn from_video_with_gcs_urls(video: Video, gcs_service: &GcsService) -> (response:
        VideoResponse)
        ensures
            shows(response, video),
            match video.hls_playlist_path {
                Some(path) => response.hls_stream_url matches Some(url) && url@
                    == gcs_service.public_url(path@),
                None => response.hls_stream_url is None,
            },
            match video.thumbnail_path {
                Some(path) => response.thumbnail_url matches Some(url) && url@
                    == gcs_service.public_url(path@),
                None => response.thumbnail_url is None,
            },
    {
        let status = video.get_status();
        let hls_stream_url = match &video.hls_playlist_path {
            Some(path) => Some(gcs_service.get_public_url(path.as_str())),
            None => None,
        };
        let thumbnail_url = match &video.thumbnail_path {
            Some(path) => Some(gcs_service.get_public_url(path.as_str())),
            None => None,
        };
        VideoResponse {
            id: video.id,
            title: video.title,
            description: video.description,
            filename: video.filename,
            file_size: video.file_size,
            duration: video.duration,
            thumbnail_path: video.thumbnail_path,
            hls_playlist_path: video.hls_playlist_path,
            hls_stream_url,
            thumbnail_url,
            status,
            user_id: video.user_id,
            created_at: Timestamp::or_epoch(video.created_at),
            updated_at: Timestamp::or_epoch(video.updated_at),
        }
    }

    /// Shows `video` with the routes of the API for its playlist and its
    /// thumbnail, each where the record holds the path.
    pub fn from(video: Video) -> (response: VideoResponse)
        ensures
            shows(response, video),
            match video.hls_playlist_path {
                Some(_) => response.hls_stream_url matches Some(url) && url@ == stream_route(
                    video.id,
                ),
                None => response.hls_stream_url is None,
            },
            match video.thumbnail_path {
                Some(_) => response.thumbnail_url matches Some(url) && url@ == thumbnail_route(
                    video.id,
                ),
                None => response.thumbnail_url is None,
            },
    {
        let status = video.get_status();
        let id = video.id.to_string();
        let hls_stream_url = match &video.hls_playlist_path {
            Some(_) => {
                let mut url: Vec<char> = Vec::new();
                push_text(&mut url, "/api/v1/videos/");
                push_text(&mut url, id.as_str());
                push_text(&mut url, "/stream/playlist.m3u8");
                Some(text_of(&url))
            },
            None => None,
        };
        let thumbnail_url = match &video.thumbnail_path {
            Some(_) => {
                let mut url: Vec<char> = Vec::new();
                push_text(&mut url, "/api/v1/videos/");
                push_text(&mut url, id.as_str());
                push_text(&mut url, "/thumbnail");
                Some(text_of(&url))
            },
            None => None,
        };
        VideoResponse {
            id: video.id,
            title: video.title,
            description: video.description,
            filename: video.filename,
            file_size: video.file_size,
            duration: video.duration,
            thumbnail_path: video.thumbnail_path,
            hls_playlist_path: video.hls_playlist_path,
            hls_stream_url,
            thumbnail_url,
            status,
            user_id: video.user_id,
            created_at: Timestamp::or_epoch(video.created_at),
            updated_at: Timestamp::or_epoch(video.updated_at),
        }
    }
}

} // verus!
