//! The processing run of one video as a state machine: which step comes
//! next, given how the last one ended. The caller performs each step and
//! reports its outcome; nothing here touches a file, a process or a store.

use crate::models::VideoStatus;
use vstd::prelude::*;

verus! {

/// A unit of work of a run, in the order in which a run without failure
/// performs them.
#[derive(Debug, Clone, Copy, PartialEq, Eq, Structural)]
pub enum Step {
    /// Set the status of the video to `Processing`.
    MarkProcessing,
    /// Create the working directory of the run.
    CreateWorkDir,
    /// Write the uploaded bytes to the local input file.
    WriteInput,
    /// Probe the dimensions of the source.
    ProbeDimensions,
    /// Probe the duration of the source.
    ProbeDuration,
    /// Encode every rendition of the ladder and wait for all of them.
    EncodeRenditions,
    /// Extract the thumbnail.
    ExtractThumbnail,
    /// Write the master playlist beside the rendition playlists.
    WritePlaylist,
    /// Upload every file of the local output directory.
    UploadRenditions,
    /// Upload the thumbnail.
    UploadThumbnail,
    /// Write duration, thumbnail path and playlist path in one update.
    CommitMetadata,
    /// Set the status of the video to `Ready`.
    MarkReady,
    /// Take the derived fields out of the record again, in one update:
    /// the step after a `Ready` write that failed.
    ClearMetadata,
    /// Set the status of the video to `Failed`.
    MarkFailed,
    /// Delete the working directory.
    RemoveWorkDir,
    /// Nothing is left to do.
    Finished,
}

/// How a step ended.
#[derive(Debug, Clone, Copy, PartialEq, Eq, Structural)]
pub enum Outcome {
    /// The step did what it was meant to do.
    Done,
    /// The step failed.
    Failed,
    /// The dimension probe found this width and height.
    Dimensions(i32, i32),
    /// The duration probe found this many whole seconds.
    Duration(i32),
}

/// Width and height of a source, both positive where a probe found them.
#[derive(Debug, Clone, Copy, PartialEq, Eq, Structural)]
pub struct SourceSize {
    pub width: i32,
    pub height: i32,
}

/// What a run knows and has written so far.
#[derive(Debug, Clone, Copy, PartialEq, Eq, Structural)]
pub struct Progress {
    /// The step to perform next.
    pub step: Step,
    /// Whether a step has failed that the run cannot go on without.
    pub failed: bool,
    /// Width and height of the source, where the probe found them.
    pub source: Option<SourceSize>,
    /// Duration of the source in seconds, once probed.
    pub duration: Option<i32>,
    /// The status that the record holds, as far as the store confirmed the
    /// writes of this run.
    pub status: VideoStatus,
    /// Whether duration, thumbnail path and playlist path have been
    /// written to the record.
    pub metadata_committed: bool,
}

impl Step {
    /// The position of the step in the order of a run.
    pub open spec fn rank(self) -> int {
        match self {
            Step::MarkProcessing => 0,
            Step::CreateWorkDir => 1,
            Step::WriteInput => 2,
            Step::ProbeDimensions => 3,
            Step::ProbeDuration => 4,
            Step::EncodeRenditions => 5,
            Step::ExtractThumbnail => 6,
            Step::WritePlaylist => 7,
            Step::UploadRenditions => 8,
            Step::UploadThumbnail => 9,
            Step::CommitMetadata => 10,
            Step::MarkReady => 11,
            Step::ClearMetadata => 12,
            Step::MarkFailed => 13,
            Step::RemoveWorkDir => 14,
            Step::Finished => 15,
        }
    }

    /// The step that follows this one where this one succeeds.
    pub open spec fn successor(self) -> Step {
        match self {
            Step::MarkProcessing => Step::CreateWorkDir,
            Step::CreateWorkDir => Step::WriteInput,
            Step::WriteInput => Step::ProbeDimensions,
            Step::ProbeDimensions => Step::ProbeDuration,
            Step::ProbeDuration => Step::EncodeRenditions,
            Step::EncodeRenditions => Step::ExtractThumbnail,
            Step::ExtractThumbnail => Step::WritePlaylist,
            Step::WritePlaylist => Step::UploadRenditions,
            Step::UploadRenditions => Step::UploadThumbnail,
            Step::UploadThumbnail => Step::CommitMetadata,
            Step::CommitMetadata => Step::MarkReady,
            Step::MarkReady => Step::RemoveWorkDir,
            Step::ClearMetadata => Step::MarkFailed,
            Step::MarkFailed => Step::RemoveWorkDir,
            Step::RemoveWorkDir => Step::Finished,
            Step::Finished => Step::Finished,
        }
    }

    /// Whether the run fails when this step fails. A failed dimension probe
    /// leaves the source unknown; a failed clearing, a failed write of
    /// `Failed` and a failed cleanup are logged. They belong to a run that
    /// has failed already, or change nothing of how it ends.
    pub open spec fn is_fatal(self) -> bool {
        match self {
            Step::ProbeDimensions => false,
            Step::ClearMetadata => false,
            Step::MarkFailed => false,
            Step::RemoveWorkDir => false,
            Step::Finished => false,
            _ => true,
        }
    }

    /// The name under which the step is reported to the metrics.
    pub open spec fn name(self) -> Seq<char> {
        match self {
            Step::MarkProcessing => "update_video_status_processing"@,
            Step::CreateWorkDir => "create_temp_dir"@,
            Step::WriteInput => "write_input_file"@,
            Step::ProbeDimensions => "get_video_dimensions"@,
            Step::ProbeDuration => "get_video_duration"@,
            Step::EncodeRenditions => "generate_hls_streams"@,
            Step::ExtractThumbnail => "generate_thumbnail"@,
            Step::WritePlaylist => "generate_master_playlist"@,
            Step::UploadRenditions => "upload_hls_files"@,
            Step::UploadThumbnail => "upload_thumbnail"@,
            Step::CommitMetadata => "update_video_metadata"@,
            Step::MarkReady => "update_video_status_ready"@,
            Step::ClearMetadata => "clear_video_metadata"@,
            Step::MarkFailed => "processing_failed"@,
            Step::RemoveWorkDir => "cleanup_temp_dir"@,
            Step::Finished => "processing_complete"@,
        }
    }

    /// Whether the caller of a run waits for this step: the record is
    /// marked, the working directory made and the input handed over before
    /// the run goes on by itself.
    pub open spec fn before_handoff(self) -> bool {
        self == Step::MarkProcessing || self == Step::CreateWorkDir || self == Step::WriteInput
    }

    /// Whether the caller of a run waits for this step.
    pub fn is_before_handoff(&self) -> (r: bool)
        ensures
            r == self.before_handoff(),
    {
        match self {
            Step::MarkProcessing => true,
            Step::CreateWorkDir => true,
            Step::WriteInput => true,
            _ => false,
        }
    }

    /// The name under which the step is reported to the metrics.
    pub fn step_name(&self) -> (name: &'static str)
        ensures
            name@ == self.name(),
    {
        match self {
            Step::MarkProcessing => "update_video_status_processing",
            Step::CreateWorkDir => "create_temp_dir",
            Step::WriteInput => "write_input_file",
            Step::ProbeDimensions => "get_video_dimensions",
            Step::ProbeDuration => "get_video_duration",
            Step::EncodeRenditions => "generate_hls_streams",
            Step::ExtractThumbnail => "generate_thumbnail",
            Step::WritePlaylist => "generate_master_playlist",
            Step::UploadRenditions => "upload_hls_files",
            Step::UploadThumbnail => "upload_thumbnail",
            Step::CommitMetadata => "update_video_metadata",
            Step::MarkReady => "update_video_status_ready",
            Step::ClearMetadata => "clear_video_metadata",
            Step::MarkFailed => "processing_failed",
            Step::RemoveWorkDir => "cleanup_temp_dir",
            Step::Finished => "processing_complete",
        }
    }
}

impl Outcome {
    /// Whether the step that ended so did its work. The duration probe has
    /// done its work only where it found a duration.
    pub open spec fn succeeded_at(self, step: Step) -> bool {
        match step {
            Step::ProbeDuration => self is Duration,
            Step::ProbeDimensions => self is Dimensions && self->Dimensions_0 > 0
                && self->Dimensions_1 > 0,
            _ => !(self is Failed),
        }
    }
}

impl Progress {
    /// A run that has done nothing yet, for a video that was just uploaded.
    pub open spec fn initial() -> Progress {
        Progress {
            step: Step::MarkProcessing,
            failed: false,
            source: None,
            duration: None,
            status: VideoStatus::Uploading,
            metadata_committed: false,
        }
    }

    /// The step that follows a failure that the run cannot go on without:
    /// the write of `Failed`, and before it, where the derived fields have
    /// been written, their clearing.
    pub open spec fn after_failure(self) -> Step {
        if self.metadata_committed {
            Step::ClearMetadata
        } else {
            Step::MarkFailed
        }
    }

    /// The progress after the step `self.step` ended with `outcome`. A
    /// record is `Failed` only without its derived fields: where they
    /// cannot be cleared, the status is left as it is.
    pub open spec fn next(self, outcome: Outcome) -> Progress {
        let ok = outcome.succeeded_at(self.step);
        if self.step == Step::Finished {
            self
        } else if !ok && self.step.is_fatal() {
            Progress { step: self.after_failure(), failed: true, ..self }
        } else {
            let step = self.step.successor();
            match self.step {
                Step::MarkProcessing => Progress { step, status: VideoStatus::Processing, ..self },
                Step::ProbeDimensions => Progress {
                    step,
                    source: if ok {
                        Some(
                            SourceSize {
                                width: outcome->Dimensions_0,
                                height: outcome->Dimensions_1,
                            },
                        )
                    } else {
                        None
                    },
                    ..self
                },
                Step::ProbeDuration => Progress { step, duration: Some(outcome->Duration_0), ..self },
                Step::CommitMetadata => Progress { step, metadata_committed: true, ..self },
                Step::MarkReady => Progress { step, status: VideoStatus::Ready, ..self },
                Step::ClearMetadata => if ok {
                    Progress { step, metadata_committed: false, ..self }
                } else {
                    Progress { step: Step::RemoveWorkDir, ..self }
                },
                Step::MarkFailed => Progress {
                    step,
                    status: if ok {
                        VideoStatus::Failed
                    } else {
                        self.status
                    },
                    ..self
                },
                _ => Progress { step, ..self },
            }
        }
    }

    /// Whether nothing is left to do.
    pub open spec fn is_finished(self) -> bool {
        self.step == Step::Finished
    }

    /// What holds of every progress that a run passes through. Among it:
    /// a record that is `Ready` has its derived fields, and one that is
    /// `Failed` has none of them.
    pub open spec fn consistent(self) -> bool {
        &&& self.failed ==> self.step.rank() >= Step::ClearMetadata.rank()
        &&& !self.failed ==> self.step != Step::MarkFailed && self.step != Step::ClearMetadata
        &&& self.metadata_committed ==> self.step.rank() >= Step::MarkReady.rank()
        &&& !self.failed && self.step.rank() >= Step::MarkReady.rank()
            ==> self.metadata_committed
        &&& self.metadata_committed ==> self.duration is Some
        &&& !self.failed && self.step.rank() > Step::ProbeDuration.rank() ==> self.duration is Some
        &&& self.status == VideoStatus::Ready ==> self.metadata_committed
            && !self.failed && self.step.rank() >= Step::RemoveWorkDir.rank()
        &&& !self.failed && self.step.rank() >= Step::RemoveWorkDir.rank() ==> self.status
            == VideoStatus::Ready
        &&& self.status == VideoStatus::Uploading ==> self.step.rank()
            == Step::MarkProcessing.rank() || self.failed
        &&& !self.failed && self.step.rank() == Step::MarkProcessing.rank() ==> self.status
            == VideoStatus::Uploading
        &&& !self.failed && Step::CreateWorkDir.rank() <= self.step.rank()
            <= Step::MarkReady.rank() ==> self.status == VideoStatus::Processing
        &&& self.status == VideoStatus::Failed ==> self.failed && !self.metadata_committed
            && self.step.rank() >= Step::RemoveWorkDir.rank()
        &&& self.step == Step::ClearMetadata ==> self.metadata_committed
        &&& self.step == Step::MarkFailed ==> !self.metadata_committed
        &&& self.failed && self.metadata_committed ==> self.status == VideoStatus::Processing
        &&& self.source matches Some(size) ==> size.width > 0 && size.height > 0
    }

    /// The progress of a run that has done nothing yet.
    pub fn start() -> (p: Progress)
        ensures
            p == Progress::initial(),
            p.consistent(),
    {
        Progress {
            step: Step::MarkProcessing,
            failed: false,
            source: None,
            duration: None,
            status: VideoStatus::Uploading,
            metadata_committed: false,
        }
    }

    /// Takes in how the step `self.step` ended and says what to do next.
    pub fn advance(&mut self, outcome: Outcome) -> (step: Step)
        ensures
            *final(self) == old(self).next(outcome),
            step == final(self).step,
            old(self).consistent() ==> final(self).consistent(),
    {
        let ok: bool = match self.step {
            Step::ProbeDuration => match outcome {
                Outcome::Duration(_) => true,
                _ => false,
            },
            Step::ProbeDimensions => match outcome {
                Outcome::Dimensions(w, h) => w > 0 && h > 0,
                _ => false,
            },
            _ => match outcome {
                Outcome::Failed => false,
                _ => true,
            },
        };
        match self.step {
            Step::Finished => {},
            Step::MarkProcessing => {
                if ok {
                    self.status = VideoStatus::Processing;
                    self.step = Step::CreateWorkDir;
                } else {
                    self.fail();
                }
            },
            Step::CreateWorkDir => {
                if ok {
                    self.step = Step::WriteInput;
                } else {
                    self.fail();
                }
            },
            Step::WriteInput => {
                if ok {
                    self.step = Step::ProbeDimensions;
                } else {
                    self.fail();
                }
            },
            Step::ProbeDimensions => {
                self.source = match outcome {
                    Outcome::Dimensions(w, h) => if ok {
                        Some(SourceSize { width: w, height: h })
                    } else {
                        None
                    },
                    _ => None,
                };
                self.step = Step::ProbeDuration;
            },
            Step::ProbeDuration => {
                match outcome {
                    Outcome::Duration(seconds) => {
                        self.duration = Some(seconds);
                        self.step = Step::EncodeRenditions;
                    },
                    _ => {
                        self.fail();
                    },
                }
            },
            Step::EncodeRenditions => {
                if ok {
                    self.step = Step::ExtractThumbnail;
                } else {
                    self.fail();
                }
            },
            Step::ExtractThumbnail => {
                if ok {
                    self.step = Step::WritePlaylist;
                } else {
                    self.fail();
                }
            },
            Step::WritePlaylist => {
                if ok {
                    self.step = Step::UploadRenditions;
                } else {
                    self.fail();
                }
            },
            Step::UploadRenditions => {
                if ok {
                    self.step = Step::UploadThumbnail;
                } else {
                    self.fail();
                }
            },
            Step::UploadThumbnail => {
                if ok {
                    self.step = Step::CommitMetadata;
                } else {
                    self.fail();
                }
            },
            Step::CommitMetadata => {
                if ok {
                    self.metadata_committed = true;
                    self.step = Step::MarkReady;
                } else {
                    self.fail();
                }
            },
            Step::MarkReady => {
                if ok {
                    self.status = VideoStatus::Ready;
                    self.step = Step::RemoveWorkDir;
                } else {
                    self.fail();
                }
            },
            Step::ClearMetadata => {
                if ok {
                    self.metadata_committed = false;
                    self.step = Step::MarkFailed;
                } else {
                    self.step = Step::RemoveWorkDir;
                }
            },
            Step::MarkFailed => {
                if ok {
                    self.status = VideoStatus::Failed;
                }
                self.step = Step::RemoveWorkDir;
            },
            Step::RemoveWorkDir => {
                self.step = Step::Finished;
            },
        }
        self.step
    }

    fn fail(&mut self)
        ensures
            *final(self) == (Progress { step: old(self).after_failure(), failed: true, ..*old(self) }),
    {
        self.failed = true;
        self.step = if self.metadata_committed {
            Step::ClearMetadata
        } else {
            Step::MarkFailed
        };
    }
}

/// The progress after the outcomes of the first steps of a run, in order.
pub open spec fn after(start: Progress, outcomes: Seq<Outcome>) -> Progress
    decreases outcomes.len(),
{
    if outcomes.len() == 0 {
        start
    } else {
        after(start, outcomes.drop_last()).next(outcomes.last())
    }
}

/// The step that ended with `outcomes[i]`.
pub open spec fn step_at(start: Progress, outcomes: Seq<Outcome>, i: int) -> Step {
    after(start, outcomes.take(i)).step
}

/// Whether `outcomes` are the outcomes of a whole run: the run is finished
/// after them and not before.
pub open spec fn is_complete_run(start: Progress, outcomes: Seq<Outcome>) -> bool {
    &&& after(start, outcomes).is_finished()
    &&& forall|i: int| 0 <= i < outcomes.len() ==> #[trigger] step_at(start, outcomes, i)
        != Step::Finished
}

/// One more outcome is one more transition.
pub proof fn lemma_after_take(start: Progress, outcomes: Seq<Outcome>, i: int)
    requires
        0 <= i < outcomes.len(),
    ensures
        after(start, outcomes.take(i + 1)) == after(start, outcomes.take(i)).next(outcomes[i]),
        step_at(start, outcomes, i + 1) == after(start, outcomes.take(i)).next(outcomes[i]).step,
{
    assert(outcomes.take(i + 1).drop_last() == outcomes.take(i));
    assert(outcomes.take(i + 1).last() == outcomes[i]);
}

/// Every transition keeps a progress consistent, and moves an unfinished
/// run to a step further down the order.
pub proof fn lemma_next_keeps_order(p: Progress, outcome: Outcome)
    requires
        p.consistent(),
    ensures
        p.next(outcome).consistent(),
        !p.is_finished() ==> p.next(outcome).step.rank() > p.step.rank(),
        p.is_finished() ==> p.next(outcome) == p,
        p.next(outcome).is_finished() ==> p.step == Step::RemoveWorkDir || p.is_finished(),
        p.failed ==> p.next(outcome).failed,
        p.next(outcome).metadata_committed && !p.metadata_committed ==> p.step
            == Step::CommitMetadata && outcome.succeeded_at(p.step),
        !p.next(outcome).metadata_committed && p.metadata_committed ==> p.step
            == Step::ClearMetadata && outcome.succeeded_at(p.step),
        p.next(outcome).step == Step::RemoveWorkDir ==> (p.step == Step::MarkReady
            && outcome.succeeded_at(p.step)) || p.step == Step::MarkFailed || (p.step
            == Step::ClearMetadata && !outcome.succeeded_at(p.step)),
{
}

/// A run that starts consistent stays consistent.
pub proof fn lemma_run_consistent(start: Progress, outcomes: Seq<Outcome>)
    requires
        start.consistent(),
    ensures
        after(start, outcomes).consistent(),
    decreases outcomes.len(),
{
    if outcomes.len() > 0 {
        lemma_run_consistent(start, outcomes.drop_last());
        lemma_next_keeps_order(after(start, outcomes.drop_last()), outcomes.last());
    }
}

/// Along a run the steps go down the order: a later step has a higher rank
/// than an earlier one that was not `Finished`.
pub proof fn lemma_steps_in_order(start: Progress, outcomes: Seq<Outcome>, i: int, j: int)
    requires
        start.consistent(),
        0 <= i < j <= outcomes.len(),
        step_at(start, outcomes, i) != Step::Finished,
    ensures
        step_at(start, outcomes, i).rank() < step_at(start, outcomes, j).rank(),
    decreases j - i,
{
    lemma_run_consistent(start, outcomes.take(i));
    lemma_after_take(start, outcomes, i);
    lemma_next_keeps_order(after(start, outcomes.take(i)), outcomes[i]);
    if i + 1 < j {
        if step_at(start, outcomes, i + 1) == Step::Finished {
            lemma_finished_stays(start, outcomes, i + 1, j);
        } else {
            lemma_steps_in_order(start, outcomes, i + 1, j);
        }
    }
}

/// Once finished, a run stays as it is.
pub proof fn lemma_finished_stays(start: Progress, outcomes: Seq<Outcome>, i: int, j: int)
    requires
        0 <= i <= j <= outcomes.len(),
        step_at(start, outcomes, i) == Step::Finished,
    ensures
        after(start, outcomes.take(j)) == after(start, outcomes.take(i)),
    decreases j - i,
{
    if i < j {
        lemma_finished_stays(start, outcomes, i, j - 1);
        lemma_after_take(start, outcomes, j - 1);
    }
}

/// A run is over after at most fifteen outcomes.
pub proof fn lemma_run_finishes(outcomes: Seq<Outcome>)
    requires
        outcomes.len() >= 15,
    ensures
        after(Progress::initial(), outcomes).is_finished(),
{
    let start = Progress::initial();
    assert(outcomes.take(outcomes.len() as int) == outcomes);
    lemma_rank_grows(start, outcomes, outcomes.len() as int);
}

/// After `n` outcomes a run is finished or at least `n` steps down the
/// order.
pub proof fn lemma_rank_grows(start: Progress, outcomes: Seq<Outcome>, n: int)
    requires
        start.consistent(),
        0 <= n <= outcomes.len(),
    ensures
        step_at(start, outcomes, n) == Step::Finished || step_at(start, outcomes, n).rank()
            >= start.step.rank() + n,
    decreases n,
{
    if n == 0 {
        assert(outcomes.take(0) == Seq::<Outcome>::empty());
    } else {
        lemma_rank_grows(start, outcomes, n - 1);
        lemma_run_consistent(start, outcomes.take(n - 1));
        lemma_after_take(start, outcomes, n - 1);
        lemma_next_keeps_order(after(start, outcomes.take(n - 1)), outcomes[n - 1]);
    }
}

/// In every whole run the working directory is removed exactly once, as
/// the last step, whether the run succeeded or failed.
pub proof fn lemma_cleanup_exactly_once(outcomes: Seq<Outcome>)
    requires
        is_complete_run(Progress::initial(), outcomes),
    ensures
        outcomes.len() >= 1,
        step_at(Progress::initial(), outcomes, outcomes.len() - 1) == Step::RemoveWorkDir,
        forall|i: int|
            0 <= i < outcomes.len() - 1 ==> #[trigger] step_at(Progress::initial(), outcomes, i)
                != Step::RemoveWorkDir,
{
    let start = Progress::initial();
    let n = outcomes.len() as int;
    assert(outcomes.take(n) == outcomes);
    if n == 0 {
        assert(after(start, outcomes) == start);
    }
    lemma_run_consistent(start, outcomes.take(n - 1));
    lemma_after_take(start, outcomes, n - 1);
    lemma_next_keeps_order(after(start, outcomes.take(n - 1)), outcomes[n - 1]);
    assert(step_at(start, outcomes, n - 1) != Step::Finished);
    assert forall|i: int| 0 <= i < n - 1 implies #[trigger] step_at(start, outcomes, i)
        != Step::RemoveWorkDir by {
        assert(step_at(start, outcomes, i) != Step::Finished);
        lemma_steps_in_order(start, outcomes, i, n - 1);
    }
}

/// A failed run stays failed and never writes the metadata afterwards: it
/// has them then only where it had them when it failed.
pub proof fn lemma_failure_is_final(start: Progress, outcomes: Seq<Outcome>, i: int, j: int)
    requires
        start.consistent(),
        0 <= i <= j <= outcomes.len(),
        after(start, outcomes.take(i)).failed,
    ensures
        after(start, outcomes.take(j)).failed,
        after(start, outcomes.take(j)).metadata_committed ==> after(
            start,
            outcomes.take(i),
        ).metadata_committed,
        after(start, outcomes.take(j)).status != VideoStatus::Ready,
    decreases j - i,
{
    lemma_run_consistent(start, outcomes.take(j));
    if i < j {
        lemma_failure_is_final(start, outcomes, i, j - 1);
        lemma_run_consistent(start, outcomes.take(j - 1));
        lemma_after_take(start, outcomes, j - 1);
        lemma_next_keeps_order(after(start, outcomes.take(j - 1)), outcomes[j - 1]);
    }
}

/// A run in which a step fails that the run cannot go on without ends
/// failed, and the record is never `Ready`. The derived fields are not in
/// the record then: they were never written, or, where it was the write of
/// `Ready` that failed, they are cleared in the next step. They stay only
/// where the store refuses that clearing, and then the record is not marked
/// `Failed` either: a `Failed` record has no playlist path.
pub proof fn lemma_failed_step_fails_run(outcomes: Seq<Outcome>, i: int)
    requires
        is_complete_run(Progress::initial(), outcomes),
        0 <= i < outcomes.len(),
        step_at(Progress::initial(), outcomes, i).is_fatal(),
        !outcomes[i].succeeded_at(step_at(Progress::initial(), outcomes, i)),
    ensures
        i + 1 < outcomes.len(),
        step_at(Progress::initial(), outcomes, i + 1) == if step_at(
            Progress::initial(),
            outcomes,
            i,
        ) == Step::MarkReady {
            Step::ClearMetadata
        } else {
            Step::MarkFailed
        },
        after(Progress::initial(), outcomes).failed,
        after(Progress::initial(), outcomes).status != VideoStatus::Ready,
        after(Progress::initial(), outcomes).status == VideoStatus::Failed ==> !after(
            Progress::initial(),
            outcomes,
        ).metadata_committed,
        after(Progress::initial(), outcomes).metadata_committed ==> step_at(
            Progress::initial(),
            outcomes,
            i + 1,
        ) == Step::ClearMetadata && !outcomes[i + 1].succeeded_at(Step::ClearMetadata),
{
    let start = Progress::initial();
    let n = outcomes.len() as int;
    assert(outcomes.take(n) == outcomes);
    lemma_run_consistent(start, outcomes.take(i));
    lemma_run_consistent(start, outcomes);
    lemma_after_take(start, outcomes, i);
    let failed = after(start, outcomes.take(i + 1));
    assert(failed.failed);
    assert(i + 1 < n) by {
        if i + 1 == n {
            assert(outcomes.take(i + 1) == outcomes);
        }
    }
    lemma_failure_is_final(start, outcomes, i + 1, n);
    if failed.step == Step::ClearMetadata {
        lemma_after_take(start, outcomes, i + 1);
        lemma_failure_is_final(start, outcomes, i + 2, n);
    }
}

/// Once a run is over, the record has all three derived fields and is
/// `Ready`, or it has none of them. The one exception is a run in which the
/// write of `Ready` failed and the store then refused to clear the fields:
/// that record keeps them, and stays `Processing`.
pub proof fn lemma_all_or_nothing(outcomes: Seq<Outcome>)
    requires
        is_complete_run(Progress::initial(), outcomes),
    ensures
        after(Progress::initial(), outcomes).status == VideoStatus::Ready ==> after(
            Progress::initial(),
            outcomes,
        ).metadata_committed && after(Progress::initial(), outcomes).duration is Some,
        after(Progress::initial(), outcomes).status == VideoStatus::Failed ==> !after(
            Progress::initial(),
            outcomes,
        ).metadata_committed,
        after(Progress::initial(), outcomes).metadata_committed && after(
            Progress::initial(),
            outcomes,
        ).status != VideoStatus::Ready ==> {
            &&& outcomes.len() >= 2
            &&& step_at(Progress::initial(), outcomes, outcomes.len() - 2) == Step::ClearMetadata
            &&& !outcomes[outcomes.len() - 2].succeeded_at(Step::ClearMetadata)
            &&& after(Progress::initial(), outcomes).status == VideoStatus::Processing
        },
{
    let start = Progress::initial();
    let n = outcomes.len() as int;
    assert(outcomes.take(n) == outcomes);
    lemma_run_consistent(start, outcomes);
    lemma_cleanup_exactly_once(outcomes);
    lemma_after_take(start, outcomes, n - 1);
    lemma_run_consistent(start, outcomes.take(n - 1));
    if n == 1 {
        assert(outcomes.take(0) == Seq::<Outcome>::empty());
    } else {
        lemma_run_consistent(start, outcomes.take(n - 2));
        lemma_after_take(start, outcomes, n - 2);
        lemma_next_keeps_order(after(start, outcomes.take(n - 2)), outcomes[n - 2]);
    }
}

/// A run in which the encoding of the renditions fails ends failed, however
/// many renditions were encoded: the status `Failed` is written next, the
/// metadata are never written, and the record is never `Ready`. The record
/// ends as `Failed` unless the store refused that write, in which case it
/// stays `Processing`.
pub proof fn lemma_failed_encode_fails_run(outcomes: Seq<Outcome>, i: int)
    requires
        is_complete_run(Progress::initial(), outcomes),
        0 <= i < outcomes.len(),
        step_at(Progress::initial(), outcomes, i) == Step::EncodeRenditions,
        outcomes[i] is Failed,
    ensures
        outcomes.len() == i + 3,
        step_at(Progress::initial(), outcomes, i + 1) == Step::MarkFailed,
        step_at(Progress::initial(), outcomes, i + 2) == Step::RemoveWorkDir,
        after(Progress::initial(), outcomes).failed,
        !after(Progress::initial(), outcomes).metadata_committed,
        forall|j: int|
            0 <= j < outcomes.len() ==> #[trigger] step_at(Progress::initial(), outcomes, j)
                != Step::CommitMetadata && step_at(Progress::initial(), outcomes, j)
                != Step::MarkReady,
        after(Progress::initial(), outcomes).status == if outcomes[i + 1] is Failed {
            VideoStatus::Processing
        } else {
            VideoStatus::Failed
        },
{
    let start = Progress::initial();
    let n = outcomes.len() as int;
    assert(outcomes.take(n) == outcomes);
    let before = after(start, outcomes.take(i));
    lemma_run_consistent(start, outcomes.take(i));
    lemma_after_take(start, outcomes, i);
    let failed = after(start, outcomes.take(i + 1));
    assert(!before.metadata_committed);
    assert(failed.step == Step::MarkFailed && failed.failed && !failed.metadata_committed);
    assert(failed.status == VideoStatus::Processing);
    assert(i + 1 < n) by {
        if i + 1 == n {
            assert(outcomes.take(i + 1) == outcomes);
        }
    }
    lemma_after_take(start, outcomes, i + 1);
    let cleaning = after(start, outcomes.take(i + 2));
    assert(cleaning.step == Step::RemoveWorkDir);
    assert(i + 2 < n) by {
        if i + 2 == n {
            assert(outcomes.take(i + 2) == outcomes);
        }
    }
    lemma_after_take(start, outcomes, i + 2);
    assert(step_at(start, outcomes, i + 3) == Step::Finished);
    assert(n == i + 3) by {
        if i + 3 < n {
            assert(step_at(start, outcomes, i + 3) != Step::Finished);
        }
    }
    assert forall|j: int| 0 <= j < n implies #[trigger] step_at(start, outcomes, j)
        != Step::CommitMetadata && step_at(start, outcomes, j) != Step::MarkReady by {
        if j < i {
            assert(step_at(start, outcomes, j) != Step::Finished);
            lemma_steps_in_order(start, outcomes, j, i);
        }
    }
}

/// A run that ends without failure has performed every step once, in
/// order, but for the two that only a failed run performs: the three
/// derived fields were written together in the one
/// metadata update, at a time when the duration was known, the status
/// `Ready` was written right after it, and the record is `Ready` with its
/// metadata in place.
pub proof fn lemma_successful_run(outcomes: Seq<Outcome>)
    requires
        is_complete_run(Progress::initial(), outcomes),
        !after(Progress::initial(), outcomes).failed,
    ensures
        outcomes.len() == 13,
        forall|i: int|
            0 <= i < 12 ==> (#[trigger] step_at(Progress::initial(), outcomes, i)).rank() == i,
        step_at(Progress::initial(), outcomes, 12) == Step::RemoveWorkDir,
        forall|i: int|
            0 <= i <= 13 ==> (#[trigger] after(
                Progress::initial(),
                outcomes.take(i),
            )).metadata_committed == (i > 10),
        after(Progress::initial(), outcomes.take(10)).duration is Some,
        after(Progress::initial(), outcomes).duration == after(
            Progress::initial(),
            outcomes.take(10),
        ).duration,
        after(Progress::initial(), outcomes).status == VideoStatus::Ready,
        after(Progress::initial(), outcomes).metadata_committed,
{
    let start = Progress::initial();
    let n = outcomes.len() as int;
    assert(outcomes.take(n) == outcomes);
    assert(outcomes.take(0) == Seq::<Outcome>::empty());
    assert forall|i: int| 0 <= i <= n implies !(#[trigger] after(start, outcomes.take(i))).failed by {
        if after(start, outcomes.take(i)).failed {
            lemma_failure_is_final(start, outcomes, i, n);
        }
    }
    if n < 13 {
        lemma_successful_prefix(start, outcomes, n);
    }
    lemma_successful_prefix(start, outcomes, 13);
    if n > 13 {
        assert(step_at(start, outcomes, 13) != Step::Finished);
    }
    assert forall|i: int| 0 <= i < 12 implies (#[trigger] step_at(start, outcomes, i)).rank()
        == i by {
        lemma_successful_prefix(start, outcomes, i);
    }
    lemma_successful_prefix(start, outcomes, 12);
    assert forall|i: int| 0 <= i <= 13 implies (#[trigger] after(
        start,
        outcomes.take(i),
    )).metadata_committed == (i > 10) by {
        lemma_successful_prefix(start, outcomes, i);
        lemma_run_consistent(start, outcomes.take(i));
    }
    lemma_successful_prefix(start, outcomes, 10);
    lemma_run_consistent(start, outcomes.take(10));
    lemma_run_consistent(start, outcomes);
    lemma_duration_kept(start, outcomes, 10, 13);
}

/// Where no step has failed, the run stands after `k` outcomes at the step
/// of rank `k`, or, from the twelfth outcome on, past the two steps that
/// only a failed run performs.
pub proof fn lemma_successful_prefix(start: Progress, outcomes: Seq<Outcome>, k: int)
    requires
        start == Progress::initial(),
        0 <= k <= outcomes.len(),
        k <= 13,
        forall|i: int| 0 <= i <= outcomes.len() ==> !(#[trigger] after(start, outcomes.take(i))).failed,
    ensures
        step_at(start, outcomes, k).rank() == if k < 12 {
            k
        } else {
            k + 2
        },
    decreases k,
{
    if k == 0 {
        assert(outcomes.take(0) == Seq::<Outcome>::empty());
    } else {
        lemma_successful_prefix(start, outcomes, k - 1);
        lemma_after_take(start, outcomes, k - 1);
        assert(!after(start, outcomes.take(k - 1)).failed);
        assert(!after(start, outcomes.take(k)).failed);
    }
}

/// Once the duration is known it does not change.
pub proof fn lemma_duration_kept(start: Progress, outcomes: Seq<Outcome>, i: int, j: int)
    requires
        start.consistent(),
        0 <= i <= j <= outcomes.len(),
        step_at(start, outcomes, i).rank() > Step::ProbeDuration.rank(),
    ensures
        after(start, outcomes.take(j)).duration == after(start, outcomes.take(i)).duration,
        step_at(start, outcomes, j).rank() > Step::ProbeDuration.rank(),
    decreases j - i,
{
    if i < j {
        lemma_duration_kept(start, outcomes, i, j - 1);
        lemma_run_consistent(start, outcomes.take(j - 1));
        lemma_after_take(start, outcomes, j - 1);
        lemma_next_keeps_order(after(start, outcomes.take(j - 1)), outcomes[j - 1]);
    }
}

} // verus!
