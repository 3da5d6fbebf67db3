//! One processing run: where it works, what it hands to the encoder, what
//! it uploads and what it writes to the record at the end.

use crate::codec::{
    command_is, encode_args, error_stream, process_failure, CommandLine, EncodeError,
    ProcessResult,
};
use crate::ids::RecordId;
use crate::pipeline::{Outcome, Progress, SourceSize, Step};
use crate::planner::{resolves, RenditionProfile, ResolvedRendition, VideoProcessingService};
use crate::playlist::master_playlist;
use crate::storage::{remote_hls_path, remote_thumbnail_path};
use crate::text::{push_text, text_of};
use vstd::prelude::*;

verus! {

/// The places and the progress of the run of one video.
pub struct ProcessingRun {
    pub video_id: RecordId,
    /// The working directory, which belongs to this run alone.
    pub temp_dir: String,
    /// The uploaded file inside the working directory.
    pub local_input_path: String,
    /// The prefix in storage of the playlists and segments.
    pub storage_output_dir: String,
    /// The object name in storage of the thumbnail.
    pub storage_thumbnail_path: String,
    /// The benchmark run under which the steps are reported.
    pub benchmark_run_id: Option<RecordId>,
    pub progress: Progress,
}

/// The one update that writes the derived fields of a record.
pub struct MetadataUpdate {
    pub duration: Option<i32>,
    pub thumbnail_path: Option<String>,
    pub hls_playlist_path: Option<String>,
}

/// The renditions that were encoded and the master playlist over them.
pub struct HlsStreams {
    pub renditions: Vec<ResolvedRendition>,
    pub master_playlist: String,
}

/// `/tmp/video_processing/{id}`.
pub open spec fn working_dir(video_id: RecordId) -> Seq<char> {
    "/tmp/video_processing/"@ + video_id.text()
}

/// The width to plan with: 0 where the source is unknown.
pub open spec fn planning_width(source: Option<SourceSize>) -> int {
    match source {
        Some(size) => size.width as int,
        None => 0,
    }
}

/// The height to plan with: 0 where the source is unknown.
pub open spec fn planning_height(source: Option<SourceSize>) -> int {
    match source {
        Some(size) => size.height as int,
        None => 0,
    }
}

/// Whether the encode of rendition `i` has a result and succeeded.
pub open spec fn encoded(results: Seq<ProcessResult>, i: int) -> bool {
    0 <= i < results.len() && process_failure(results[i]) is None
}

/// Whether `command` encodes `profile` of a source `sw x sh` from
/// `input_path` into `output_dir`.
pub open spec fn encodes(
    command: CommandLine,
    profile: RenditionProfile,
    input_path: Seq<char>,
    output_dir: Seq<char>,
    sw: int,
    sh: int,
) -> bool {
    command_is(
        command,
        "ffmpeg"@,
        encode_args(
            input_path,
            output_dir,
            profile.quality@,
            crate::planner::target_width(
                sw,
                sh,
                profile.max_width as int,
                profile.max_height as int,
            ),
            crate::planner::target_height(
                sw,
                sh,
                profile.max_width as int,
                profile.max_height as int,
            ),
            profile.video_bitrate@,
            profile.audio_bitrate@,
        ),
    )
}

impl ProcessingRun {
    /// Whether the places of the run are those of its video and its
    /// progress is one that a run can be in.
    pub open spec fn wf(self) -> bool {
        &&& self.temp_dir@ == working_dir(self.video_id)
        &&& self.storage_output_dir@ == remote_hls_path(self.video_id)
        &&& self.storage_thumbnail_path@ == remote_thumbnail_path(self.video_id)
        &&& self.progress.consistent()
    }

    /// `{temp_dir}/hls`.
    pub open spec fn output_dir(self) -> Seq<char> {
        self.temp_dir@ + "/hls"@
    }

    /// The run of the video `video_id` whose upload is named `filename`,
    /// with nothing done yet.
    pub fn new(video_id: RecordId, filename: &str, benchmark_run_id: Option<RecordId>) -> (run:
        ProcessingRun)
        ensures
            run.wf(),
            run.video_id == video_id,
            run.benchmark_run_id == benchmark_run_id,
            run.local_input_path@ == working_dir(video_id) + "/"@ + filename@,
            run.progress == Progress::initial(),
    {
        let id = video_id.to_string();
        let mut temp_dir: Vec<char> = Vec::new();
        push_text(&mut temp_dir, "/tmp/video_processing/");
        push_text(&mut temp_dir, id.as_str());
        let mut input: Vec<char> = Vec::new();
        push_text(&mut input, "/tmp/video_processing/");
        push_text(&mut input, id.as_str());
        push_text(&mut input, "/");
        push_text(&mut input, filename);
        let mut output: Vec<char> = Vec::new();
        push_text(&mut output, id.as_str());
        push_text(&mut output, "/hls/");
        let mut thumbnail: Vec<char> = Vec::new();
        push_text(&mut thumbnail, id.as_str());
        push_text(&mut thumbnail, "/thumbnails/thumbnail.jpg");
        ProcessingRun {
            video_id,
            temp_dir: text_of(&temp_dir),
            local_input_path: text_of(&input),
            storage_output_dir: text_of(&output),
            storage_thumbnail_path: text_of(&thumbnail),
            benchmark_run_id,
            progress: Progress::start(),
        }
    }

    /// The local directory of the playlists and segments.
    pub fn local_output_dir(&self) -> (path: String)
        ensures
            path@ == self.output_dir(),
    {
        let mut out: Vec<char> = Vec::new();
        push_text(&mut out, self.temp_dir.as_str());
        push_text(&mut out, "/hls");
        text_of(&out)
    }

    /// The local file of the thumbnail.
    pub fn local_thumbnail_path(&self) -> (path: String)
        ensures
            path@ == self.temp_dir@ + "/thumbnail.jpg"@,
    {
        let mut out: Vec<char> = Vec::new();
        push_text(&mut out, self.temp_dir.as_str());
        push_text(&mut out, "/thumbnail.jpg");
        text_of(&out)
    }

    /// The local file of the master playlist.
    pub fn master_playlist_path(&self) -> (path: String)
        ensures
            path@ == self.output_dir() + "/playlist.m3u8"@,
    {
        let mut out: Vec<char> = Vec::new();
        push_text(&mut out, self.temp_dir.as_str());
        push_text(&mut out, "/hls");
        push_text(&mut out, "/playlist.m3u8");
        text_of(&out)
    }

    /// The step to perform next.
    pub fn next_step(&self) -> (step: Step)
        ensures
            step == self.progress.step,
    {
        self.progress.step
    }

    /// Takes in how the current step ended and says what to do next.
    pub fn advance(&mut self, outcome: Outcome) -> (step: Step)
        ensures
            old(self).wf() ==> final(self).wf(),
            final(self).progress == old(self).progress.next(outcome),
            step == final(self).progress.step,
            final(self).video_id == old(self).video_id,
            final(self).temp_dir == old(self).temp_dir,
            final(self).local_input_path == old(self).local_input_path,
            final(self).storage_output_dir == old(self).storage_output_dir,
            final(self).storage_thumbnail_path == old(self).storage_thumbnail_path,
            final(self).benchmark_run_id == old(self).benchmark_run_id,
    {
        self.progress.advance(outcome)
    }

    /// The width of the source, 0 where it is unknown.
    pub fn source_width(&self) -> (width: i32)
        ensures
            width == planning_width(self.progress.source),
    {
        match self.progress.source {
            Some(size) => size.width,
            None => 0,
        }
    }

    /// The height of the source, 0 where it is unknown.
    pub fn source_height(&self) -> (height: i32)
        ensures
            height == planning_height(self.progress.source),
    {
        match self.progress.source {
            Some(size) => size.height,
            None => 0,
        }
    }

    /// The encoder commands of the run, one for each profile of `ladder`
    /// and in its order, each for the dimensions that the profile resolves
    /// to for the source as far as it is known.
    pub fn encode_commands(&self, ladder: &Vec<RenditionProfile>) -> (commands: Vec<CommandLine>)
        ensures
            commands@.len() == ladder@.len(),
            forall|i: int|
                0 <= i < ladder@.len() ==> encodes(
                    #[trigger] commands@[i],
                    ladder@[i],
                    self.local_input_path@,
                    self.output_dir(),
                    planning_width(self.progress.source),
                    planning_height(self.progress.source),
                ),
    {
        let output_dir = self.local_output_dir();
        let sw = self.source_width();
        let sh = self.source_height();
        let mut commands: Vec<CommandLine> = Vec::new();
        let mut i: usize = 0;
        while i < ladder.len()
            invariant
                i <= ladder.len(),
                commands@.len() == i,
                output_dir@ == self.output_dir(),
                sw == planning_width(self.progress.source),
                sh == planning_height(self.progress.source),
                forall|j: int|
                    0 <= j < i ==> encodes(
                        #[trigger] commands@[j],
                        ladder@[j],
                        self.local_input_path@,
                        self.output_dir(),
                        sw as int,
                        sh as int,
                    ),
            decreases ladder.len() - i,
        {
            let profile = &ladder[i];
            let (width, height) = VideoProcessingService::calculate_scaled_dimensions(
                sw,
                sh,
                profile.max_width,
                profile.max_height,
            );
            commands.push(
                VideoProcessingService::encode_command(
                    self.local_input_path.as_str(),
                    output_dir.as_str(),
                    profile.quality.as_str(),
                    width,
                    height,
                    profile.video_bitrate.as_str(),
                    profile.audio_bitrate.as_str(),
                ),
            );
            i += 1;
        }
        commands
    }

    /// The update that writes duration, thumbnail path and playlist path
    /// together: the duration as far as it was probed, and both paths in
    /// any case.
    pub fn metadata_update(&self) -> (update: MetadataUpdate)
        ensures
            update.duration == self.progress.duration,
            update.thumbnail_path matches Some(path) && path@ == self.storage_thumbnail_path@,
            update.hls_playlist_path matches Some(path) && path@ == self.storage_output_dir@
                + "playlist.m3u8"@,
    {
        let mut playlist: Vec<char> = Vec::new();
        push_text(&mut playlist, self.storage_output_dir.as_str());
        push_text(&mut playlist, "playlist.m3u8");
        MetadataUpdate {
            duration: self.progress.duration,
            thumbnail_path: Some(self.storage_thumbnail_path.clone()),
            hls_playlist_path: Some(text_of(&playlist)),
        }
    }

    /// The update that takes duration, thumbnail path and playlist path
    /// out of the record again, all three together.
    pub fn metadata_clearing(&self) -> (update: MetadataUpdate)
        ensures
            update.duration is None,
            update.thumbnail_path is None,
            update.hls_playlist_path is None,
    {
        MetadataUpdate { duration: None, thumbnail_path: None, hls_playlist_path: None }
    }
}

/// In a run that is about to write its metadata, the duration is known: the
/// update then sets all three derived fields.
pub proof fn lemma_commit_sets_all_fields(run: ProcessingRun)
    requires
        run.wf(),
        run.progress.step == Step::CommitMetadata,
    ensures
        run.progress.duration is Some,
        !run.progress.metadata_committed,
{
}

impl VideoProcessingService {
    /// The run of the video `video_id`, whose upload is named `filename`:
    /// its places, and nothing done yet.
    pub fn process_video(
        video_id: RecordId,
        filename: &str,
        benchmark_run_id: Option<RecordId>,
    ) -> (run: ProcessingRun)
        ensures
            run.wf(),
            run.video_id == video_id,
            run.benchmark_run_id == benchmark_run_id,
            run.local_input_path@ == working_dir(video_id) + "/"@ + filename@,
            run.progress == Progress::initial(),
    {
        ProcessingRun::new(video_id, filename, benchmark_run_id)
    }

    /// Joins the encodes of a ladder: `results[i]` is how the encode of
    /// `ladder[i]` ended. Where every rendition was encoded, the renditions
    /// come back in ladder order with the master playlist over them. Where
    /// one was not, the error names the first of them in ladder order; a
    /// rendition without a result counts as one whose encoder did not
    /// start.
    pub fn generate_hls_streams(
        ladder: &Vec<RenditionProfile>,
        source_width: i32,
        source_height: i32,
        results: &Vec<ProcessResult>,
    ) -> (r: Result<HlsStreams, EncodeError>)
        ensures
            match r {
                Ok(streams) => {
                    &&& forall|i: int| 0 <= i < ladder@.len() ==> encoded(results@, i)
                    &&& streams.renditions@.len() == ladder@.len()
                    &&& forall|i: int|
                        0 <= i < ladder@.len() ==> resolves(
                            #[trigger] streams.renditions@[i],
                            ladder@[i],
                            source_width as int,
                            source_height as int,
                        )
                    &&& streams.master_playlist@ == master_playlist(streams.renditions@)
                },
                Err(e) => exists|i: int|
                    {
                        &&& 0 <= i < ladder@.len()
                        &&& !encoded(results@, i)
                        &&& forall|j: int| 0 <= j < i ==> encoded(results@, j)
                        &&& e.quality@ == (#[trigger] ladder@[i]).quality@
                        &&& e.started == (i < results@.len() && results@[i] is Exited)
                        &&& e.stderr@ == if i < results@.len() {
                            error_stream(results@[i])
                        } else {
                            Seq::empty()
                        }
                    },
            },
    {
        let mut i: usize = 0;
        while i < ladder.len()
            invariant
                i <= ladder.len(),
                forall|j: int| 0 <= j < i ==> encoded(results@, j),
            decreases ladder.len() - i,
        {
            if i >= results.len() {
                return Err(
                    EncodeError {
                        quality: ladder[i].quality.clone(),
                        started: false,
                        stderr: String::new(),
                    },
                );
            }
            match VideoProcessingService::encode_outcome(ladder[i].quality.as_str(), &results[i]) {
                Ok(()) => {},
                Err(e) => {
                    assert(!encoded(results@, i as int));
                    return Err(e);
                },
            }
            i += 1;
        }
        let renditions = VideoProcessingService::plan_renditions(
            ladder,
            source_width,
            source_height,
        );
        let master_playlist = VideoProcessingService::generate_master_playlist(&renditions);
        Ok(HlsStreams { renditions, master_playlist })
    }

    /// The object names under which the files of the local output
    /// directory are uploaded: the storage prefix followed by the name of
    /// each file, in the order given.
    pub fn upload_hls_files_to_storage(storage_output_dir: &str, filenames: &Vec<String>) -> (paths:
        Vec<String>)
        ensures
            paths@.len() == filenames@.len(),
            forall|i: int|
                0 <= i < filenames@.len() ==> (#[trigger] paths@[i])@ == storage_output_dir@
                    + filenames@[i]@,
    {
        let mut paths: Vec<String> = Vec::new();
        let mut i: usize = 0;
        while i < filenames.len()
            invariant
                i <= filenames.len(),
                paths@.len() == i,
                forall|j: int|
                    0 <= j < i ==> (#[trigger] paths@[j])@ == storage_output_dir@ + filenames@[j]@,
            decreases filenames.len() - i,
        {
            let mut path: Vec<char> = Vec::new();
            push_text(&mut path, storage_output_dir);
            push_text(&mut path, filenames[i].as_str());
            paths.push(text_of(&path));
            i += 1;
        }
        paths
    }
}

} // verus!
