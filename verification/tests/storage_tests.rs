use video_stream_be::ids::RecordId;
use video_stream_be::storage::{
    cache_control_for, content_type_for, extension_of, GcsService, StorageService,
};

const ID: u128 = 0xa1a2a3a4_b1b2_c1c2_d1d2_d3d4d5d6d7d8;
const ID_TEXT: &str = "a1a2a3a4-b1b2-c1c2-d1d2-d3d4d5d6d7d8";

#[test]
fn record_id_is_written_hyphenated_in_lower_case() {
    assert_eq!(RecordId::new(ID).to_string(), ID_TEXT);
    assert_eq!(RecordId::new(0).to_string(), "00000000-0000-0000-0000-000000000000");
    assert_eq!(RecordId::new(u128::MAX).to_string(), "ffffffff-ffff-ffff-ffff-ffffffffffff");
    assert_eq!(
        RecordId::new(0x0123456789abcdef_0123456789abcdef).to_string(),
        "01234567-89ab-cdef-0123-456789abcdef"
    );
    assert_eq!(RecordId::new(ID).to_string(), uuid::Uuid::from_u128(ID).to_string());
}

#[test]
fn record_id_is_read_back_from_its_forms() {
    assert_eq!(RecordId::parse_str(ID_TEXT), Some(RecordId::new(ID)));
    assert_eq!(RecordId::parse_str("A1A2A3A4B1B2C1C2D1D2D3D4D5D6D7D8"), Some(RecordId::new(ID)));
    assert_eq!(
        RecordId::parse_str("urn:uuid:a1a2a3a4-b1b2-c1c2-d1d2-d3d4d5d6d7d8"),
        Some(RecordId::new(ID))
    );
    assert_eq!(RecordId::parse_str(""), None);
    assert_eq!(RecordId::parse_str("not-an-id"), None);
    assert_eq!(RecordId::parse_str("a1a2a3a4-b1b2-c1c2-d1d2-d3d4d5d6d7d"), None);
    assert_eq!(RecordId::from_parsed_value(Some(7)), Some(RecordId::new(7)));
    assert_eq!(RecordId::from_parsed_value(None), None);
}

#[test]
fn local_layout_is_below_the_upload_directory() {
    let storage = StorageService::new("/data/uploads".to_string());
    let id = RecordId::new(ID);
    assert_eq!(storage.get_video_path(&id, "clip.mp4"), format!("/data/uploads/videos/{ID_TEXT}/clip.mp4"));
    assert_eq!(storage.get_thumbnail_path(&id), format!("/data/uploads/thumbnails/{ID_TEXT}.jpg"));
    assert_eq!(storage.get_hls_path(&id), format!("/data/uploads/hls/{ID_TEXT}/"));
    assert_eq!(
        storage.get_hls_file_path(&id, "720p.m3u8"),
        format!("/data/uploads/hls/{ID_TEXT}/720p.m3u8")
    );
    let (video, hls, thumbnails) = storage.video_directories(&id);
    assert_eq!(video, format!("/data/uploads/videos/{ID_TEXT}"));
    assert_eq!(hls, format!("/data/uploads/hls/{ID_TEXT}"));
    assert_eq!(thumbnails, "/data/uploads/thumbnails");
}

#[test]
fn bucket_layout_is_keyed_by_the_asset() {
    let gcs = GcsService::new("media".to_string());
    let id = RecordId::new(ID);
    assert_eq!(gcs.get_video_path(&id, "clip.mp4"), format!("{ID_TEXT}/videos/clip.mp4"));
    assert_eq!(gcs.get_thumbnail_path(&id), format!("{ID_TEXT}/thumbnails/thumbnail.jpg"));
    assert_eq!(gcs.get_hls_path(&id), format!("{ID_TEXT}/hls/"));
    assert_eq!(gcs.get_public_url("a/b.ts"), "https://storage.googleapis.com/media/a/b.ts");
    assert_eq!(
        gcs.get_signed_url("a/b.ts", 4),
        Ok("https://storage.googleapis.com/media/a/b.ts".to_string())
    );
    assert_eq!(gcs.uploaded_uri("a/b.ts"), "gs://media/a/b.ts");
    assert_eq!(gcs.bucket_resource(), "projects/_/buckets/media");
}

#[test]
fn folder_deletion_normalizes_the_prefix() {
    let gcs = GcsService::new("media".to_string());
    let plan = gcs.delete_folder("/abc/def//").unwrap();
    assert_eq!(plan.bucket, "projects/_/buckets/media");
    assert_eq!(plan.root_object, "abc/def");
    assert_eq!(plan.prefix, "abc/def/");
    let plan = gcs.delete_folder(ID_TEXT).unwrap();
    assert_eq!(plan.root_object, ID_TEXT);
    assert_eq!(plan.prefix, format!("{ID_TEXT}/"));
    assert!(gcs.delete_folder("").is_none());
    assert!(gcs.delete_folder("///").is_none());
}

#[test]
fn extension_follows_the_final_component() {
    let cases = [
        "a/b/720p_001.ts",
        "playlist.m3u8",
        "thumbnail.JPG",
        "noext",
        ".hidden",
        ".hidden.txt",
        "a.b/c",
        "a/b.txt/",
        "a/b.txt/.",
        "a/b.txt//./",
        "..",
        "a/..",
        ".",
        "",
        "/",
        "trailing.",
        "a..b",
        "x/.y.",
        "archive.tar.gz",
    ];
    for path in cases.iter() {
        let expected = std::path::Path::new(path)
            .extension()
            .and_then(|e| e.to_str())
            .map(|e| e.to_string());
        assert_eq!(extension_of(path), expected, "{:?}", path);
    }
}

#[test]
fn content_types_follow_the_extension() {
    let cases = [
        ("a.mp4", "video/mp4"),
        ("a.MOV", "video/quicktime"),
        ("a.avi", "video/x-msvideo"),
        ("a.mkv", "video/x-matroska"),
        ("a.webm", "video/webm"),
        ("a.flv", "video/x-flv"),
        ("a.wmv", "video/x-ms-wmv"),
        ("a.m4v", "video/x-m4v"),
        ("a.jpg", "image/jpeg"),
        ("a.JPEG", "image/jpeg"),
        ("a.png", "image/png"),
        ("a.gif", "image/gif"),
        ("x/hls/playlist.m3u8", "application/vnd.apple.mpegurl"),
        ("x/hls/720p_000.ts", "video/mp2t"),
        ("a.bin", "application/octet-stream"),
        ("noext", "application/octet-stream"),
        ("", "application/octet-stream"),
    ];
    for (path, expected) in cases.iter() {
        assert_eq!(GcsService::get_content_type(path), *expected, "{path}");
    }
    assert_eq!(content_type_for("ts"), "video/mp2t");
    assert_eq!(content_type_for("TS"), "application/octet-stream");
}

#[test]
fn cache_control_follows_the_extension() {
    assert_eq!(GcsService::determine_cache_control("x/playlist.M3U8"), "public, max-age=1, no-transform");
    assert_eq!(GcsService::determine_cache_control("x/720p_001.ts"), "public, max-age=86400");
    assert_eq!(GcsService::determine_cache_control("x/clip.mp4"), "public, max-age=86400");
    assert_eq!(GcsService::determine_cache_control("x/thumbnail.jpg"), "no-cache");
    assert_eq!(GcsService::determine_cache_control("x/none"), "no-cache");
    assert_eq!(cache_control_for("m3u8"), "public, max-age=1, no-transform");
    assert_eq!(cache_control_for("mp4"), "public, max-age=86400");
    assert_eq!(cache_control_for(""), "no-cache");
}
