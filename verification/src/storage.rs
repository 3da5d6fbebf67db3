//! Where the files of a video live: the layout of the local upload
//! directory and of the bucket, and what a file name says about its
//! content.

use crate::ids::RecordId;
use crate::text::{
    chars_of, last_segment, last_segment_start, lowercase_text, push_range, push_text,
    slice_of, strip_both, strip_bounds, text_eq, text_of, text_of_range, Strip,
};
use vstd::prelude::*;

verus! {

/// The layout of a local upload directory.
#[derive(Clone)]
pub struct StorageService {
    pub upload_dir: String,
}

impl StorageService {
    /// The layout below `upload_dir`.
    pub fn new(upload_dir: String) -> (service: StorageService)
        ensures
            service.upload_dir@ == upload_dir@,
    {
        StorageService { upload_dir }
    }

    /// `{upload_dir}/videos/{id}/{filename}`.
    pub open spec fn video_path(self, video_id: RecordId, filename: Seq<char>) -> Seq<char> {
        self.upload_dir@ + "/videos/"@ + video_id.text() + "/"@ + filename
    }

    /// `{upload_dir}/thumbnails/{id}.jpg`.
    pub open spec fn thumbnail_path(self, video_id: RecordId) -> Seq<char> {
        self.upload_dir@ + "/thumbnails/"@ + video_id.text() + ".jpg"@
    }

    /// `{upload_dir}/hls/{id}/`.
    pub open spec fn hls_path(self, video_id: RecordId) -> Seq<char> {
        self.upload_dir@ + "/hls/"@ + video_id.text() + "/"@
    }

    /// `{upload_dir}/videos/{id}`.
    pub open spec fn video_dir(self, video_id: RecordId) -> Seq<char> {
        self.upload_dir@ + "/videos/"@ + video_id.text()
    }

    /// `{upload_dir}/hls/{id}`.
    pub open spec fn hls_dir(self, video_id: RecordId) -> Seq<char> {
        self.upload_dir@ + "/hls/"@ + video_id.text()
    }

    /// `{upload_dir}/thumbnails`.
    pub open spec fn thumbnail_dir(self) -> Seq<char> {
        self.upload_dir@ + "/thumbnails"@
    }

    /// The path of the uploaded file `filename` of a video.
    pub fn get_video_path(&self, video_id: &RecordId, filename: &str) -> (path: String)
        ensures
            path@ == self.video_path(*video_id, filename@),
    {
        let id = video_id.to_string();
        let mut out: Vec<char> = Vec::new();
        push_text(&mut out, self.upload_dir.as_str());
        push_text(&mut out, "/videos/");
        push_text(&mut out, id.as_str());
        push_text(&mut out, "/");
        push_text(&mut out, filename);
        text_of(&out)
    }

    /// The path of the thumbnail of a video.
    pub fn get_thumbnail_path(&self, video_id: &RecordId) -> (path: String)
        ensures
            path@ == self.thumbnail_path(*video_id),
    {
        let id = video_id.to_string();
        let mut out: Vec<char> = Vec::new();
        push_text(&mut out, self.upload_dir.as_str());
        push_text(&mut out, "/thumbnails/");
        push_text(&mut out, id.as_str());
        push_text(&mut out, ".jpg");
        text_of(&out)
    }

    /// The directory of the playlists and segments of a video, with a
    /// trailing slash.
    pub fn get_hls_path(&self, video_id: &RecordId) -> (path: String)
        ensures
            path@ == self.hls_path(*video_id),
    {
        let id = video_id.to_string();
        let mut out: Vec<char> = Vec::new();
        push_text(&mut out, self.upload_dir.as_str());
        push_text(&mut out, "/hls/");
        push_text(&mut out, id.as_str());
        push_text(&mut out, "/");
        text_of(&out)
    }

    /// The path of one playlist or segment of a video.
    pub fn get_hls_file_path(&self, video_id: &RecordId, filename: &str) -> (path: String)
        ensures
            path@ == self.hls_path(*video_id) + filename@,
    {
        let id = video_id.to_string();
        let mut out: Vec<char> = Vec::new();
        push_text(&mut out, self.upload_dir.as_str());
        push_text(&mut out, "/hls/");
        push_text(&mut out, id.as_str());
        push_text(&mut out, "/");
        push_text(&mut out, filename);
        text_of(&out)
    }

    /// The three directories that hold the files of a video: for the
    /// upload, for the stream and for thumbnails, in this order.
    pub fn video_directories(&self, video_id: &RecordId) -> (dirs: (String, String, String))
        ensures
            dirs.0@ == self.video_dir(*video_id),
            dirs.1@ == self.hls_dir(*video_id),
            dirs.2@ == self.thumbnail_dir(),
    {
        let id = video_id.to_string();
        let mut video: Vec<char> = Vec::new();
        push_text(&mut video, self.upload_dir.as_str());
        push_text(&mut video, "/videos/");
        push_text(&mut video, id.as_str());
        let mut hls: Vec<char> = Vec::new();
        push_text(&mut hls, self.upload_dir.as_str());
        push_text(&mut hls, "/hls/");
        push_text(&mut hls, id.as_str());
        let mut thumbnails: Vec<char> = Vec::new();
        push_text(&mut thumbnails, self.upload_dir.as_str());
        push_text(&mut thumbnails, "/thumbnails");
        (text_of(&video), text_of(&hls), text_of(&thumbnails))
    }
}

/// The layout of a bucket and the names under which it is addressed.
#[derive(Clone)]
pub struct GcsService {
    pub bucket_name: String,
}

/// The object names to delete for a folder.
pub struct FolderDeletion {
    /// The resource name of the bucket.
    pub bucket: String,
    /// The object that bears the name of the folder itself.
    pub root_object: String,
    /// The prefix of the objects inside the folder.
    pub prefix: String,
}

/// `{id}/videos/{filename}`.
pub open spec fn remote_video_path(video_id: RecordId, filename: Seq<char>) -> Seq<char> {
    video_id.text() + "/videos/"@ + filename
}

/// `{id}/thumbnails/thumbnail.jpg`.
pub open spec fn remote_thumbnail_path(video_id: RecordId) -> Seq<char> {
    video_id.text() + "/thumbnails/thumbnail.jpg"@
}

/// `{id}/hls/`.
pub open spec fn remote_hls_path(video_id: RecordId) -> Seq<char> {
    video_id.text() + "/hls/"@
}

/// `projects/_/buckets/{bucket}`.
pub open spec fn bucket_resource_text(bucket: Seq<char>) -> Seq<char> {
    "projects/_/buckets/"@ + bucket
}

/// A folder prefix without the slashes at its ends.
pub open spec fn folder_name(folder_prefix: Seq<char>) -> Seq<char> {
    strip_both(folder_prefix, Strip::Char('/'))
}

impl GcsService {
    /// The layout of the bucket `bucket_name`.
    pub fn new(bucket_name: String) -> (service: GcsService)
        ensures
            service.bucket_name@ == bucket_name@,
    {
        GcsService { bucket_name }
    }

    /// `https://storage.googleapis.com/{bucket}/{remote_path}`.
    pub open spec fn public_url(self, remote_path: Seq<char>) -> Seq<char> {
        "https://storage.googleapis.com/"@ + self.bucket_name@ + "/"@ + remote_path
    }

    /// `gs://{bucket}/{remote_path}`.
    pub open spec fn object_uri(self, remote_path: Seq<char>) -> Seq<char> {
        "gs://"@ + self.bucket_name@ + "/"@ + remote_path
    }

    /// The address under which an object is read over HTTP.
    pub fn get_public_url(&self, remote_path: &str) -> (url: String)
        ensures
            url@ == self.public_url(remote_path@),
    {
        let mut out: Vec<char> = Vec::new();
        push_text(&mut out, "https://storage.googleapis.com/");
        push_text(&mut out, self.bucket_name.as_str());
        push_text(&mut out, "/");
        push_text(&mut out, remote_path);
        text_of(&out)
    }

    /// The address under which an object is read for a limited time; for
    /// now the public address, whatever the time.
    pub fn get_signed_url(&self, remote_path: &str, expiration_hours: u32) -> (url: Result<
        String,
        (),
    >)
        ensures
            url matches Ok(u) && u@ == self.public_url(remote_path@),
    {
        Ok(self.get_public_url(remote_path))
    }

    /// The canonical name of an object that was uploaded.
    pub fn uploaded_uri(&self, remote_path: &str) -> (uri: String)
        ensures
            uri@ == self.object_uri(remote_path@),
    {
        let mut out: Vec<char> = Vec::new();
        push_text(&mut out, "gs://");
        push_text(&mut out, self.bucket_name.as_str());
        push_text(&mut out, "/");
        push_text(&mut out, remote_path);
        text_of(&out)
    }

    /// The resource name of the bucket.
    pub fn bucket_resource(&self) -> (name: String)
        ensures
            name@ == bucket_resource_text(self.bucket_name@),
    {
        let mut out: Vec<char> = Vec::new();
        push_text(&mut out, "projects/_/buckets/");
        push_text(&mut out, self.bucket_name.as_str());
        text_of(&out)
    }

    /// The object name of the uploaded file `filename` of a video.
    pub fn get_video_path(&self, video_id: &RecordId, filename: &str) -> (path: String)
        ensures
            path@ == remote_video_path(*video_id, filename@),
    {
        let id = video_id.to_string();
        let mut out: Vec<char> = Vec::new();
        push_text(&mut out, id.as_str());
        push_text(&mut out, "/videos/");
        push_text(&mut out, filename);
        text_of(&out)
    }

    /// The object name of the thumbnail of a video.
    pub fn get_thumbnail_path(&self, video_id: &RecordId) -> (path: String)
        ensures
            path@ == remote_thumbnail_path(*video_id),
    {
        let id = video_id.to_string();
        let mut out: Vec<char> = Vec::new();
        push_text(&mut out, id.as_str());
        push_text(&mut out, "/thumbnails/thumbnail.jpg");
        text_of(&out)
    }

    /// The prefix of the playlists and segments of a video.
    pub fn get_hls_path(&self, video_id: &RecordId) -> (path: String)
        ensures
            path@ == remote_hls_path(*video_id),
    {
        let id = video_id.to_string();
        let mut out: Vec<char> = Vec::new();
        push_text(&mut out, id.as_str());
        push_text(&mut out, "/hls/");
        text_of(&out)
    }

    /// What to delete for the folder `folder_prefix`: nothing where the
    /// prefix is empty once the slashes at its ends are taken off, else the
    /// object of that name and every object below it.
    pub fn delete_folder(&self, folder_prefix: &str) -> (plan: Option<FolderDeletion>)
        ensures
            match plan {
                None => folder_name(folder_prefix@).len() == 0,
                Some(p) => {
                    &&& folder_name(folder_prefix@).len() > 0
                    &&& p.bucket@ == bucket_resource_text(self.bucket_name@)
                    &&& p.root_object@ == folder_name(folder_prefix@)
                    &&& p.prefix@ == folder_name(folder_prefix@) + "/"@
                },
            },
    {
        let all = chars_of(folder_prefix);
        let (from, to) = strip_bounds(&all, Strip::Char('/'));
        if from == to {
            return None;
        }
        let mut prefix: Vec<char> = Vec::new();
        push_range(&mut prefix, &all, from, to);
        push_text(&mut prefix, "/");
        Some(
            FolderDeletion {
                bucket: self.bucket_resource(),
                root_object: text_of_range(&all, from, to),
                prefix: text_of(&prefix),
            },
        )
    }
}

/// `path` without the separators and the `.` components at its end, which
/// do not count as part of a path.
pub open spec fn without_trailing_current(path: Seq<char>) -> Seq<char>
    decreases path.len(),
{
    if path.len() >= 1 && path.last() == '/' {
        without_trailing_current(path.drop_last())
    } else if path.len() >= 2 && path.last() == '.' && path[path.len() - 2] == '/' {
        without_trailing_current(path.subrange(0, path.len() - 2))
    } else {
        path
    }
}

/// The final component of `path`, if it names a file or a directory. The
/// names of objects are separated by `/`, on whatever host the service
/// runs.
pub open spec fn file_name(path: Seq<char>) -> Option<Seq<char>> {
    let name = last_segment(without_trailing_current(path), '/');
    if name.len() == 0 || name == seq!['.'] || name == seq!['.', '.'] {
        None
    } else {
        Some(name)
    }
}

/// The extension of a file name: what follows its last `.`, unless the name
/// holds no `.` or only one at its front.
pub open spec fn name_extension(name: Seq<char>) -> Option<Seq<char>> {
    let extension = last_segment(name, '.');
    if extension.len() + 1 < name.len() {
        Some(extension)
    } else {
        None
    }
}

/// The extension of the final component of `path`.
pub open spec fn file_extension(path: Seq<char>) -> Option<Seq<char>> {
    match file_name(path) {
        Some(name) => name_extension(name),
        None => None,
    }
}

/// The extension of `path`, or the empty text where it has none.
pub open spec fn extension_or_empty(path: Seq<char>) -> Seq<char> {
    match file_extension(path) {
        Some(extension) => extension,
        None => Seq::empty(),
    }
}

/// The extension of the final component of `path`.
pub fn extension_of(path: &str) -> (extension: Option<String>)
    ensures
        match extension {
            Some(e) => file_extension(path@) == Some(e@),
            None => file_extension(path@) is None,
        },
{
    let all = chars_of(path);
    let mut end: usize = all.len();
    assert(all@.take(end as int) == all@);
    loop
        invariant
            end <= all.len(),
            without_trailing_current(all@) == without_trailing_current(all@.take(end as int)),
        ensures
            end <= all.len(),
            without_trailing_current(all@) == all@.take(end as int),
        decreases end,
    {
        let ghost kept = all@.take(end as int);
        if end >= 1 && all[end - 1] == '/' {
            assert(kept.drop_last() == all@.take(end - 1));
            end -= 1;
        } else if end >= 2 && all[end - 1] == '.' && all[end - 2] == '/' {
            assert(kept.subrange(0, kept.len() - 2) == all@.take(end - 2));
            end -= 2;
        } else {
            break ;
        }
    }
    let kept = slice_of(&all, 0, end);
    assert(kept@ == all@.take(end as int));
    let start = last_segment_start(&kept, '/');
    let name = slice_of(&kept, start, kept.len());
    if name.len() == 0 {
        return None;
    }
    if name.len() == 1 && name[0] == '.' {
        assert(name@ == seq!['.']);
        return None;
    }
    if name.len() == 2 && name[0] == '.' && name[1] == '.' {
        assert(name@ == seq!['.', '.']);
        return None;
    }
    assert(name@ != seq!['.']) by {
        if name@ == seq!['.'] {
            assert(name@.len() == 1 && name@[0] == '.');
        }
    }
    assert(name@ != seq!['.', '.']) by {
        if name@ == seq!['.', '.'] {
            assert(name@.len() == 2 && name@[0] == '.' && name@[1] == '.');
        }
    }
    let dot = last_segment_start(&name, '.');
    if dot >= 2 {
        Some(text_of_range(&name, dot, name.len()))
    } else {
        None
    }
}

/// The content type for a lower-case extension.
pub open spec fn content_type_text(lower: Seq<char>) -> Seq<char> {
    if lower == "mp4"@ {
        "video/mp4"@
    } else if lower == "mov"@ {
        "video/quicktime"@
    } else if lower == "avi"@ {
        "video/x-msvideo"@
    } else if lower == "mkv"@ {
        "video/x-matroska"@
    } else if lower == "webm"@ {
        "video/webm"@
    } else if lower == "flv"@ {
        "video/x-flv"@
    } else if lower == "wmv"@ {
        "video/x-ms-wmv"@
    } else if lower == "m4v"@ {
        "video/x-m4v"@
    } else if lower == "jpg"@ || lower == "jpeg"@ {
        "image/jpeg"@
    } else if lower == "png"@ {
        "image/png"@
    } else if lower == "gif"@ {
        "image/gif"@
    } else if lower == "m3u8"@ {
        "application/vnd.apple.mpegurl"@
    } else if lower == "ts"@ {
        "video/mp2t"@
    } else {
        "application/octet-stream"@
    }
}

/// The cache directive for a lower-case extension: playlists are looked up
/// again after a second, segments and videos are kept for a day, the rest
/// is not cached.
pub open spec fn cache_control_text(lower: Seq<char>) -> Seq<char> {
    if lower == "m3u8"@ {
        "public, max-age=1, no-transform"@
    } else if lower == "ts"@ || lower == "mp4"@ {
        "public, max-age=86400"@
    } else {
        "no-cache"@
    }
}

/// The content type for a lower-case extension.
pub fn content_type_for(lower: &str) -> (content_type: &'static str)
    ensures
        content_type@ == content_type_text(lower@),
{
    if text_eq(lower, "mp4") {
        "video/mp4"
    } else if text_eq(lower, "mov") {
        "video/quicktime"
    } else if text_eq(lower, "avi") {
        "video/x-msvideo"
    } else if text_eq(lower, "mkv") {
        "video/x-matroska"
    } else if text_eq(lower, "webm") {
        "video/webm"
    } else if text_eq(lower, "flv") {
        "video/x-flv"
    } else if text_eq(lower, "wmv") {
        "video/x-ms-wmv"
    } else if text_eq(lower, "m4v") {
        "video/x-m4v"
    } else if text_eq(lower, "jpg") || text_eq(lower, "jpeg") {
        "image/jpeg"
    } else if text_eq(lower, "png") {
        "image/png"
    } else if text_eq(lower, "gif") {
        "image/gif"
    } else if text_eq(lower, "m3u8") {
        "application/vnd.apple.mpegurl"
    } else if text_eq(lower, "ts") {
        "video/mp2t"
    } else {
        "application/octet-stream"
    }
}

/// The cache directive for a lower-case extension.
pub fn cache_control_for(lower: &str) -> (directive: &'static str)
    ensures
        directive@ == cache_control_text(lower@),
{
    if text_eq(lower, "m3u8") {
        "public, max-age=1, no-transform"
    } else if text_eq(lower, "ts") || text_eq(lower, "mp4") {
        "public, max-age=86400"
    } else {
        "no-cache"
    }
}

fn lower_extension(file_path: &str) -> (lower: String)
    ensures
        lower@ == lowercase_text(extension_or_empty(file_path@)),
{
    match extension_of(file_path) {
        Some(extension) => extension.as_str().to_lowercase(),
        None => {
            proof {
                reveal_strlit("");
                assert(""@ == Seq::<char>::empty());
            }
            "".to_lowercase()
        },
    }
}

impl GcsService {
    /// The content type of the object `file_path`, by its extension in any
    /// case.
    pub fn get_content_type(file_path: &str) -> (content_type: String)
        ensures
            content_type@ == content_type_text(lowercase_text(extension_or_empty(file_path@))),
    {
        let lower = lower_extension(file_path);
        content_type_for(lower.as_str()).to_owned()
    }

    /// The cache directive of the object `file_path`, by its extension in
    /// any case.
    pub fn determine_cache_control(file_path: &str) -> (directive: String)
        ensures
            directive@ == cache_control_text(lowercase_text(extension_or_empty(file_path@))),
    {
        let lower = lower_extension(file_path);
        cache_control_for(lower.as_str()).to_owned()
    }
}

} // verus!
