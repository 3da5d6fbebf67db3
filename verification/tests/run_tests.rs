use video_stream_be::codec::{ProcessOutput, ProcessResult};
use video_stream_be::ids::RecordId;
use video_stream_be::pipeline::{Outcome, Step};
use video_stream_be::planner::VideoProcessingService;
use video_stream_be::run::ProcessingRun;

const ID: u128 = 0x550e8400_e29b_41d4_a716_446655440000;
const ID_TEXT: &str = "550e8400-e29b-41d4-a716-446655440000";

fn ok() -> ProcessResult {
    ProcessResult::Exited(ProcessOutput {
        success: true,
        stdout: String::new(),
        stderr: String::new(),
    })
}

fn failed(stderr: &str) -> ProcessResult {
    ProcessResult::Exited(ProcessOutput {
        success: false,
        stdout: String::new(),
        stderr: stderr.to_string(),
    })
}

#[test]
fn run_places_mirror_the_asset_layout() {
    let run = VideoProcessingService::process_video(RecordId::new(ID), "my_clip.mp4", None);
    assert_eq!(run.video_id, RecordId::new(ID));
    assert_eq!(run.temp_dir, format!("/tmp/video_processing/{ID_TEXT}"));
    assert_eq!(run.local_input_path, format!("/tmp/video_processing/{ID_TEXT}/my_clip.mp4"));
    assert_eq!(run.storage_output_dir, format!("{ID_TEXT}/hls/"));
    assert_eq!(run.storage_thumbnail_path, format!("{ID_TEXT}/thumbnails/thumbnail.jpg"));
    assert_eq!(run.benchmark_run_id, None);
    assert_eq!(run.local_output_dir(), format!("/tmp/video_processing/{ID_TEXT}/hls"));
    assert_eq!(run.local_thumbnail_path(), format!("/tmp/video_processing/{ID_TEXT}/thumbnail.jpg"));
    assert_eq!(
        run.master_playlist_path(),
        format!("/tmp/video_processing/{ID_TEXT}/hls/playlist.m3u8")
    );
    assert_eq!(run.next_step(), Step::MarkProcessing);
}

#[test]
fn run_keeps_its_benchmark_run() {
    let run = ProcessingRun::new(RecordId::new(1), "a.mp4", Some(RecordId::new(2)));
    assert_eq!(run.benchmark_run_id, Some(RecordId::new(2)));
    assert_eq!(run.temp_dir, "/tmp/video_processing/00000000-0000-0000-0000-000000000001");
}

#[test]
fn successful_run_writes_all_three_derived_fields() {
    let mut run = ProcessingRun::new(RecordId::new(ID), "clip.mp4", None);
    let mut updates = Vec::new();
    let mut guard = 0;
    while run.next_step() != Step::Finished {
        let outcome = match run.next_step() {
            Step::ProbeDimensions => Outcome::Dimensions(1280, 720),
            Step::ProbeDuration => Outcome::Duration(93),
            Step::CommitMetadata => {
                updates.push(run.metadata_update());
                Outcome::Done
            }
            _ => Outcome::Done,
        };
        run.advance(outcome);
        guard += 1;
        assert!(guard < 20);
    }
    assert_eq!(updates.len(), 1);
    assert_eq!(updates[0].duration, Some(93));
    assert_eq!(
        updates[0].thumbnail_path.as_deref(),
        Some("550e8400-e29b-41d4-a716-446655440000/thumbnails/thumbnail.jpg")
    );
    assert_eq!(
        updates[0].hls_playlist_path.as_deref(),
        Some("550e8400-e29b-41d4-a716-446655440000/hls/playlist.m3u8")
    );
    assert!(run.progress.metadata_committed);
}

#[test]
fn encode_commands_follow_the_ladder_and_the_probe() {
    let mut run = ProcessingRun::new(RecordId::new(ID), "clip.mp4", None);
    for _ in 0..3 {
        run.advance(Outcome::Done);
    }
    run.advance(Outcome::Dimensions(640, 360));
    assert_eq!((run.source_width(), run.source_height()), (640, 360));
    let commands = run.encode_commands(&VideoProcessingService::ladder());
    assert_eq!(commands.len(), 4);
    for (command, quality) in commands.iter().zip(["1080p", "720p", "480p", "360p"]) {
        assert_eq!(command.program, "ffmpeg");
        assert_eq!(command.args[1], run.local_input_path);
        assert_eq!(command.args[11], "scale=640:360");
        assert_eq!(command.args[17], format!("{}/{}_%03d.ts", run.local_output_dir(), quality));
        assert_eq!(command.args[20], format!("{}/{}.m3u8", run.local_output_dir(), quality));
    }
    assert_eq!(commands[0].args[7], "2000k");
    assert_eq!(commands[0].args[9], "192k");
    assert_eq!(commands[3].args[7], "250k");
    assert_eq!(commands[3].args[9], "64k");
}

#[test]
fn encode_commands_fall_back_when_the_source_is_unknown() {
    let mut run = ProcessingRun::new(RecordId::new(ID), "clip.mp4", None);
    for _ in 0..3 {
        run.advance(Outcome::Done);
    }
    run.advance(Outcome::Failed);
    assert_eq!((run.source_width(), run.source_height()), (0, 0));
    let commands = run.encode_commands(&VideoProcessingService::ladder());
    let filters: Vec<&str> = commands.iter().map(|c| c.args[11].as_str()).collect();
    assert_eq!(filters, vec!["scale=1920:1080", "scale=1280:720", "scale=854:480", "scale=640:360"]);
}

#[test]
fn joined_encodes_give_renditions_and_playlist_in_ladder_order() {
    let ladder = VideoProcessingService::ladder();
    let results = vec![ok(), ok(), ok(), ok()];
    let streams = VideoProcessingService::generate_hls_streams(&ladder, 1280, 720, &results);
    let streams = streams.ok().unwrap();
    let sizes: Vec<(&str, i32, i32)> =
        streams.renditions.iter().map(|r| (r.quality.as_str(), r.width, r.height)).collect();
    assert_eq!(
        sizes,
        vec![("1080p", 1280, 720), ("720p", 1280, 720), ("480p", 852, 480), ("360p", 640, 360)]
    );
    assert!(streams.master_playlist.starts_with("#EXTM3U\n#EXT-X-VERSION:3\n\n"));
    assert_eq!(streams.master_playlist.matches("#EXT-X-STREAM-INF").count(), 4);
}

#[test]
fn one_failed_encode_fails_the_join_whatever_the_others_did() {
    let ladder = VideoProcessingService::ladder();
    for failing in 0..4 {
        let results: Vec<ProcessResult> =
            (0..4).map(|i| if i == failing { failed("broken") } else { ok() }).collect();
        let error = VideoProcessingService::generate_hls_streams(&ladder, 1920, 1080, &results);
        let error = error.err().unwrap();
        assert_eq!(error.quality, ladder[failing].quality);
        assert!(error.started);
        assert_eq!(error.stderr, "broken");
    }
}

#[test]
fn join_reports_the_first_failure_in_ladder_order() {
    let ladder = VideoProcessingService::ladder();
    let results = vec![ok(), failed("second"), ProcessResult::NotStarted, failed("fourth")];
    let error = VideoProcessingService::generate_hls_streams(&ladder, 1920, 1080, &results);
    let error = error.err().unwrap();
    assert_eq!(error.quality, "720p");
    assert_eq!(error.stderr, "second");
    let results = vec![ok(), ok()];
    let error = VideoProcessingService::generate_hls_streams(&ladder, 1920, 1080, &results);
    let error = error.err().unwrap();
    assert_eq!(error.quality, "480p");
    assert!(!error.started);
    assert_eq!(error.stderr, "");
    let results = vec![ProcessResult::NotStarted, ok(), ok(), ok()];
    let error = VideoProcessingService::generate_hls_streams(&ladder, 1920, 1080, &results);
    let error = error.err().unwrap();
    assert_eq!(error.quality, "1080p");
    assert!(!error.started);
}

#[test]
fn upload_names_are_prefix_and_file_name() {
    let files = vec!["720p.m3u8".to_string(), "720p_000.ts".to_string(), "playlist.m3u8".to_string()];
    let paths = VideoProcessingService::upload_hls_files_to_storage("abc/hls/", &files);
    assert_eq!(paths, vec!["abc/hls/720p.m3u8", "abc/hls/720p_000.ts", "abc/hls/playlist.m3u8"]);
    assert!(VideoProcessingService::upload_hls_files_to_storage("abc/hls/", &Vec::new()).is_empty());
}

#[test]
fn clearing_takes_all_three_fields_out() {
    let run = ProcessingRun::new(RecordId::new(ID), "clip.mp4", None);
    let update = run.metadata_clearing();
    assert_eq!(update.duration, None);
    assert_eq!(update.thumbnail_path, None);
    assert_eq!(update.hls_playlist_path, None);
}
