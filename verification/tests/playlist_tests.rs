use video_stream_be::planner::{ResolvedRendition, VideoProcessingService};

fn rendition(quality: &str, width: i32, height: i32, bitrate: &str) -> ResolvedRendition {
    ResolvedRendition {
        quality: quality.to_string(),
        width,
        height,
        video_bitrate: bitrate.to_string(),
    }
}

#[test]
fn empty_playlist_is_the_header_alone() {
    let text = VideoProcessingService::generate_master_playlist(&Vec::new());
    assert_eq!(text, "#EXTM3U\n#EXT-X-VERSION:3\n\n");
}

#[test]
fn full_ladder_playlist_is_reproduced_exactly() {
    let plan = VideoProcessingService::plan_renditions(&VideoProcessingService::ladder(), 3840, 2160);
    let text = VideoProcessingService::generate_master_playlist(&plan);
    let expected = "#EXTM3U\n#EXT-X-VERSION:3\n\n\
#EXT-X-STREAM-INF:BANDWIDTH=2000000,RESOLUTION=1920x1080\n1080p.m3u8\n\n\
#EXT-X-STREAM-INF:BANDWIDTH=1000000,RESOLUTION=1280x720\n720p.m3u8\n\n\
#EXT-X-STREAM-INF:BANDWIDTH=500000,RESOLUTION=852x480\n480p.m3u8\n\n\
#EXT-X-STREAM-INF:BANDWIDTH=250000,RESOLUTION=640x360\n360p.m3u8\n\n";
    assert_eq!(text, expected);
}

#[test]
fn playlist_keeps_input_order_not_bandwidth_order() {
    let renditions = vec![
        rendition("low", 640, 360, "250k"),
        rendition("high", 1920, 1080, "2000k"),
        rendition("mid", 1280, 720, "1000k"),
    ];
    let text = VideoProcessingService::generate_master_playlist(&renditions);
    assert!(text.starts_with("#EXTM3U\n#EXT-X-VERSION:3"));
    assert_eq!(text.matches("#EXT-X-STREAM-INF").count(), 3);
    let low = text.find("low.m3u8").unwrap();
    let high = text.find("high.m3u8").unwrap();
    let mid = text.find("mid.m3u8").unwrap();
    assert!(low < high && high < mid);
    assert!(text.ends_with("mid.m3u8\n\n"));
}

#[test]
fn bandwidth_writes_every_k_as_three_zeros() {
    let text = VideoProcessingService::generate_master_playlist(&vec![rendition("q", 2, 2, "1000k")]);
    assert!(text.contains("BANDWIDTH=1000000,"));
    let text = VideoProcessingService::generate_master_playlist(&vec![rendition("q", 2, 2, "1kk5")]);
    assert!(text.contains("BANDWIDTH=10000005,"));
    let text = VideoProcessingService::generate_master_playlist(&vec![rendition("q", 2, 2, "800")]);
    assert!(text.contains("BANDWIDTH=800,"));
    let text = VideoProcessingService::generate_master_playlist(&vec![rendition("q", 2, 2, "2M")]);
    assert!(text.contains("BANDWIDTH=2M,"));
    let text = VideoProcessingService::generate_master_playlist(&vec![rendition("q", 2, 2, "")]);
    assert!(text.contains("BANDWIDTH=,"));
}

#[test]
fn resolution_is_written_in_decimal() {
    let text = VideoProcessingService::generate_master_playlist(&vec![
        rendition("a", 0, 7, "1k"),
        rendition("b", -12, 2147483647, "1k"),
        rendition("c", i32::MIN, 10, "1k"),
    ]);
    assert!(text.contains("RESOLUTION=0x7\na.m3u8\n\n"));
    assert!(text.contains("RESOLUTION=-12x2147483647\nb.m3u8\n\n"));
    assert!(text.contains("RESOLUTION=-2147483648x10\nc.m3u8\n\n"));
}

#[test]
fn playlist_has_one_stream_line_per_rendition() {
    let renditions = vec![
        rendition("1080p", 1920, 1080, "2000k"),
        rendition("", 2, 2, "k"),
        rendition("mid quality", 1280, 720, "1000k"),
    ];
    let text = VideoProcessingService::generate_master_playlist(&renditions);
    let lines: Vec<&str> = text.split('\n').collect();
    assert_eq!(lines.len(), 4 + 3 * renditions.len());
    assert_eq!(lines[..3], ["#EXTM3U", "#EXT-X-VERSION:3", ""]);
    let tagged: Vec<usize> = (0..lines.len())
        .filter(|j| lines[*j].starts_with("#EXT-X-STREAM-INF:"))
        .collect();
    assert_eq!(tagged, vec![3, 6, 9]);
    for (i, r) in renditions.iter().enumerate() {
        assert_eq!(lines[4 + 3 * i], format!("{}.m3u8", r.quality));
        assert_eq!(lines[5 + 3 * i], "");
    }
    assert_eq!(lines[3], "#EXT-X-STREAM-INF:BANDWIDTH=2000000,RESOLUTION=1920x1080");
    assert_eq!(lines[6], "#EXT-X-STREAM-INF:BANDWIDTH=000,RESOLUTION=2x2");
}
