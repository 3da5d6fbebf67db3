use video_stream_be::models::VideoStatus;
use video_stream_be::pipeline::{Outcome, Progress, SourceSize, Step};

/// Performs steps as a fake that fails where told, and records what was
/// asked of it.
struct FakeWorld {
    fail_at: Vec<Step>,
    performed: Vec<Step>,
    removed_dirs: usize,
    status_writes: Vec<VideoStatus>,
    metadata_writes: usize,
    /// Whether the record of the fake store holds the derived fields.
    record_has_metadata: bool,
    record_status: VideoStatus,
}

impl FakeWorld {
    fn new(fail_at: &[Step]) -> Self {
        FakeWorld {
            fail_at: fail_at.to_vec(),
            performed: Vec::new(),
            removed_dirs: 0,
            status_writes: Vec::new(),
            metadata_writes: 0,
            record_has_metadata: false,
            record_status: VideoStatus::Uploading,
        }
    }

    fn perform(&mut self, step: Step) -> Outcome {
        self.performed.push(step);
        if step == Step::RemoveWorkDir {
            self.removed_dirs += 1;
        }
        if self.fail_at.contains(&step) {
            return Outcome::Failed;
        }
        match step {
            Step::MarkProcessing => self.write_status(VideoStatus::Processing),
            Step::MarkReady => self.write_status(VideoStatus::Ready),
            Step::MarkFailed => self.write_status(VideoStatus::Failed),
            Step::CommitMetadata => {
                self.metadata_writes += 1;
                self.record_has_metadata = true;
            }
            Step::ClearMetadata => self.record_has_metadata = false,
            _ => {}
        }
        match step {
            Step::ProbeDimensions => Outcome::Dimensions(1920, 1080),
            Step::ProbeDuration => Outcome::Duration(42),
            _ => Outcome::Done,
        }
    }
}

impl FakeWorld {
    fn write_status(&mut self, status: VideoStatus) {
        self.status_writes.push(status);
        self.record_status = status;
    }
}

fn run(fail_at: &[Step]) -> (Progress, FakeWorld) {
    let mut world = FakeWorld::new(fail_at);
    let mut progress = Progress::start();
    let mut guard = 0;
    while progress.step != Step::Finished {
        let outcome = world.perform(progress.step);
        progress.advance(outcome);
        guard += 1;
        assert!(guard <= 15, "a run takes at most fifteen steps");
    }
    // What the run believes of the record is what the store holds.
    assert_eq!(progress.metadata_committed, world.record_has_metadata);
    assert_eq!(progress.status, world.record_status);
    (progress, world)
}

const ALL_STEPS: [Step; 15] = [
    Step::MarkProcessing,
    Step::CreateWorkDir,
    Step::WriteInput,
    Step::ProbeDimensions,
    Step::ProbeDuration,
    Step::EncodeRenditions,
    Step::ExtractThumbnail,
    Step::WritePlaylist,
    Step::UploadRenditions,
    Step::UploadThumbnail,
    Step::CommitMetadata,
    Step::MarkReady,
    Step::ClearMetadata,
    Step::MarkFailed,
    Step::RemoveWorkDir,
];

#[test]
fn run_starts_with_nothing_done() {
    let progress = Progress::start();
    assert_eq!(progress.step, Step::MarkProcessing);
    assert!(!progress.failed);
    assert_eq!(progress.source, None);
    assert_eq!(progress.duration, None);
    assert_eq!(progress.status, VideoStatus::Uploading);
    assert!(!progress.metadata_committed);
}

#[test]
fn successful_run_performs_every_step_in_order() {
    let (progress, world) = run(&[]);
    assert_eq!(
        world.performed,
        vec![
            Step::MarkProcessing,
            Step::CreateWorkDir,
            Step::WriteInput,
            Step::ProbeDimensions,
            Step::ProbeDuration,
            Step::EncodeRenditions,
            Step::ExtractThumbnail,
            Step::WritePlaylist,
            Step::UploadRenditions,
            Step::UploadThumbnail,
            Step::CommitMetadata,
            Step::MarkReady,
            Step::RemoveWorkDir,
        ]
    );
    assert!(!progress.failed);
    assert_eq!(progress.status, VideoStatus::Ready);
    assert!(progress.metadata_committed);
    assert_eq!(progress.duration, Some(42));
    assert_eq!(progress.source, Some(SourceSize { width: 1920, height: 1080 }));
    assert_eq!(world.status_writes, vec![VideoStatus::Processing, VideoStatus::Ready]);
    assert_eq!(world.metadata_writes, 1);
}

#[test]
fn failed_encode_fails_the_run_and_sets_no_paths() {
    let (progress, world) = run(&[Step::EncodeRenditions]);
    assert!(progress.failed);
    assert_eq!(progress.status, VideoStatus::Failed);
    assert!(!progress.metadata_committed);
    assert_eq!(world.metadata_writes, 0);
    assert_eq!(world.status_writes, vec![VideoStatus::Processing, VideoStatus::Failed]);
    assert_eq!(
        world.performed,
        vec![
            Step::MarkProcessing,
            Step::CreateWorkDir,
            Step::WriteInput,
            Step::ProbeDimensions,
            Step::ProbeDuration,
            Step::EncodeRenditions,
            Step::MarkFailed,
            Step::RemoveWorkDir,
        ]
    );
}

#[test]
fn cleanup_is_attempted_exactly_once_on_every_path() {
    let (_, world) = run(&[]);
    assert_eq!(world.removed_dirs, 1);
    for step in ALL_STEPS.iter() {
        let (progress, world) = run(&[*step]);
        assert_eq!(world.removed_dirs, 1, "when {:?} fails", step);
        assert_eq!(world.performed.last(), Some(&Step::RemoveWorkDir));
        assert_eq!(progress.step, Step::Finished);
    }
    for first in ALL_STEPS.iter() {
        for second in ALL_STEPS.iter() {
            let (_, world) = run(&[*first, *second]);
            assert_eq!(world.removed_dirs, 1, "when {:?} and {:?} fail", first, second);
        }
    }
}

#[test]
fn failed_dimension_probe_does_not_fail_the_run() {
    let (progress, world) = run(&[Step::ProbeDimensions]);
    assert!(!progress.failed);
    assert_eq!(progress.source, None);
    assert_eq!(progress.status, VideoStatus::Ready);
    assert_eq!(world.performed.len(), 13);
}

#[test]
fn dimensions_that_are_not_positive_count_as_unknown() {
    let mut progress = Progress::start();
    progress.advance(Outcome::Done);
    progress.advance(Outcome::Done);
    progress.advance(Outcome::Done);
    assert_eq!(progress.step, Step::ProbeDimensions);
    let next = progress.advance(Outcome::Dimensions(0, 1080));
    assert_eq!(next, Step::ProbeDuration);
    assert_eq!(progress.source, None);
    assert!(!progress.failed);
}

#[test]
fn failed_duration_probe_is_fatal() {
    let (progress, world) = run(&[Step::ProbeDuration]);
    assert!(progress.failed);
    assert_eq!(progress.duration, None);
    assert_eq!(progress.status, VideoStatus::Failed);
    assert!(!world.performed.contains(&Step::EncodeRenditions));
    let mut progress = Progress::start();
    for _ in 0..4 {
        progress.advance(Outcome::Done);
    }
    assert_eq!(progress.step, Step::ProbeDuration);
    assert_eq!(progress.advance(Outcome::Done), Step::MarkFailed);
}

#[test]
fn every_fatal_step_leads_to_failed_and_cleanup() {
    let fatal = [
        Step::MarkProcessing,
        Step::CreateWorkDir,
        Step::WriteInput,
        Step::ProbeDuration,
        Step::EncodeRenditions,
        Step::ExtractThumbnail,
        Step::WritePlaylist,
        Step::UploadRenditions,
        Step::UploadThumbnail,
        Step::CommitMetadata,
        Step::MarkReady,
    ];
    for step in fatal.iter() {
        let (progress, world) = run(&[*step]);
        assert!(progress.failed, "{:?}", step);
        assert_eq!(progress.status, VideoStatus::Failed, "{:?}", step);
        let n = world.performed.len();
        if *step == Step::MarkReady {
            assert_eq!(world.performed[n - 4], *step);
            assert_eq!(world.performed[n - 3], Step::ClearMetadata);
        } else {
            assert_eq!(world.performed[n - 3], *step);
            assert!(!world.performed.contains(&Step::ClearMetadata));
        }
        assert_eq!(world.performed[n - 2], Step::MarkFailed);
        assert_eq!(world.performed[n - 1], Step::RemoveWorkDir);
        assert!(!progress.metadata_committed, "{:?}", step);
        assert!(!world.record_has_metadata, "{:?}", step);
    }
}

#[test]
fn failed_ready_write_clears_the_derived_fields() {
    let (progress, world) = run(&[Step::MarkReady]);
    assert!(progress.failed);
    assert_eq!(progress.status, VideoStatus::Failed);
    assert!(!progress.metadata_committed);
    assert_eq!(world.metadata_writes, 1);
    assert!(!world.record_has_metadata);
    assert_eq!(world.record_status, VideoStatus::Failed);
    assert_eq!(world.performed.len(), 15);
    assert_eq!(
        world.performed[11..],
        [Step::MarkReady, Step::ClearMetadata, Step::MarkFailed, Step::RemoveWorkDir]
    );
}

#[test]
fn refused_clearing_leaves_the_record_processing() {
    let (progress, world) = run(&[Step::MarkReady, Step::ClearMetadata]);
    assert!(progress.failed);
    assert!(progress.metadata_committed);
    assert_eq!(progress.status, VideoStatus::Processing);
    assert!(!world.performed.contains(&Step::MarkFailed));
    assert_eq!(world.performed[11..], [Step::MarkReady, Step::ClearMetadata, Step::RemoveWorkDir]);
    assert_eq!(world.removed_dirs, 1);
}

#[test]
fn record_is_ready_with_all_fields_or_has_none() {
    for first in ALL_STEPS.iter() {
        for second in ALL_STEPS.iter() {
            let (progress, world) = run(&[*first, *second]);
            let refused = world.performed.contains(&Step::ClearMetadata)
                && (*first == Step::ClearMetadata || *second == Step::ClearMetadata);
            if world.record_status == VideoStatus::Ready {
                assert!(world.record_has_metadata);
                assert_eq!(progress.duration, Some(42));
            } else if refused {
                assert!(world.record_has_metadata);
                assert_eq!(world.record_status, VideoStatus::Processing);
            } else {
                assert!(!world.record_has_metadata, "{:?} {:?}", first, second);
            }
            if world.record_status == VideoStatus::Failed {
                assert!(!world.record_has_metadata);
            }
        }
    }
}

#[test]
fn refused_failed_write_is_not_retried() {
    let (progress, world) = run(&[Step::ExtractThumbnail, Step::MarkFailed]);
    assert!(progress.failed);
    assert_eq!(progress.status, VideoStatus::Processing);
    assert_eq!(world.performed.iter().filter(|s| **s == Step::MarkFailed).count(), 1);
    assert_eq!(world.removed_dirs, 1);
}

#[test]
fn failed_cleanup_never_changes_the_status() {
    let (progress, _) = run(&[Step::RemoveWorkDir]);
    assert!(!progress.failed);
    assert_eq!(progress.status, VideoStatus::Ready);
    let (progress, _) = run(&[Step::UploadRenditions, Step::RemoveWorkDir]);
    assert!(progress.failed);
    assert_eq!(progress.status, VideoStatus::Failed);
}

#[test]
fn finished_run_ignores_further_outcomes() {
    let (mut progress, _) = run(&[]);
    let before = progress;
    assert_eq!(progress.advance(Outcome::Failed), Step::Finished);
    assert_eq!(progress, before);
}

#[test]
fn step_names_are_the_stable_identifiers() {
    let names: Vec<&str> = ALL_STEPS.iter().map(|s| s.step_name()).collect();
    assert_eq!(
        names,
        vec![
            "update_video_status_processing",
            "create_temp_dir",
            "write_input_file",
            "get_video_dimensions",
            "get_video_duration",
            "generate_hls_streams",
            "generate_thumbnail",
            "generate_master_playlist",
            "upload_hls_files",
            "upload_thumbnail",
            "update_video_metadata",
            "update_video_status_ready",
            "clear_video_metadata",
            "processing_failed",
            "cleanup_temp_dir",
        ]
    );
    assert_eq!(Step::Finished.step_name(), "processing_complete");
}

#[test]
fn caller_waits_for_the_steps_before_the_handoff() {
    for step in ALL_STEPS.iter() {
        let expected =
            matches!(step, Step::MarkProcessing | Step::CreateWorkDir | Step::WriteInput);
        assert_eq!(step.is_before_handoff(), expected, "{:?}", step);
    }
    assert!(!Step::Finished.is_before_handoff());
}
