//! The two command-line tools of the pipeline: how each is invoked and how
//! what it printed and how it exited is read.

use crate::planner::VideoProcessingService;
use crate::text::{
    chars_of, decimal, first_segment, first_segment_end, parse_i32_range, parse_i32_text,
    push_owned, push_signed, push_string, push_text, slice_of, strip_bounds, text_of, texts,
    trimmed, Strip,
};
use vstd::prelude::*;

verus! {

/// A program and the arguments it is started with.
pub struct CommandLine {
    pub program: String,
    pub args: Vec<String>,
}

/// What a finished process left behind.
pub struct ProcessOutput {
    pub success: bool,
    pub stdout: String,
    pub stderr: String,
}

/// What came of running a command.
pub enum ProcessResult {
    /// The program could not be started at all.
    NotStarted,
    /// The program ran and exited.
    Exited(ProcessOutput),
}

/// Why a probe gave no answer.
#[derive(Clone, Copy, PartialEq, Eq, Structural, Debug)]
pub enum ProbeFailure {
    /// The probe tool could not be started.
    ToolMissing,
    /// The probe tool exited with a failure.
    ToolFailed,
    /// The output does not begin with a decimal width.
    InvalidWidth,
    /// The output holds no `x` after the width.
    MissingHeight,
    /// What follows the `x` is no decimal height.
    InvalidHeight,
    /// Width or height is not positive.
    NotPositive,
    /// The output is no duration.
    InvalidDuration,
}

/// A failed probe: the reason and, where the tool ran, what it wrote to its
/// error stream.
pub struct ProbeError {
    pub kind: ProbeFailure,
    pub stderr: String,
}

/// A failed encode of one rendition.
pub struct EncodeError {
    pub quality: String,
    /// Whether the encoder could be started.
    pub started: bool,
    pub stderr: String,
}

/// A failed thumbnail extraction.
pub struct ThumbnailError {
    /// Whether the encoder could be started.
    pub started: bool,
    pub stderr: String,
}

/// The encode tool cannot be used.
#[derive(Clone, Copy, PartialEq, Eq, Structural, Debug)]
pub enum ToolUnavailable {
    /// It could not be started.
    NotStarted,
    /// It started and reported a failure.
    Failed,
}

/// The filter that fits a frame into 320x180, keeping its aspect ratio and
/// padding the rest evenly on both sides.
pub open spec fn thumbnail_filter() -> Seq<char> {
    "scale=320:180:force_original_aspect_ratio=decrease,pad=320:180:(320-iw)/2:(180-ih)/2,setsar=1"@
}

/// Arguments of the probe for the dimensions of the first video stream.
pub open spec fn dimensions_args(input_path: Seq<char>) -> Seq<Seq<char>> {
    seq![
        "-v"@,
        "error"@,
        "-select_streams"@,
        "v:0"@,
        "-show_entries"@,
        "stream=width,height"@,
        "-of"@,
        "csv=s=x:p=0"@,
        input_path,
    ]
}

/// Arguments of the probe for the duration of the container.
pub open spec fn duration_args(input_path: Seq<char>) -> Seq<Seq<char>> {
    seq![
        "-v"@,
        "quiet"@,
        "-show_entries"@,
        "format=duration"@,
        "-of"@,
        "csv=p=0"@,
        input_path,
    ]
}

/// Arguments of the extraction of one frame, one second in, as a thumbnail.
pub open spec fn thumbnail_args(input_path: Seq<char>, thumbnail_path: Seq<char>) -> Seq<
    Seq<char>,
> {
    seq![
        "-i"@,
        input_path,
        "-ss"@,
        "00:00:01"@,
        "-vframes"@,
        "1"@,
        "-q:v"@,
        "2"@,
        "-vf"@,
        thumbnail_filter(),
        "-y"@,
        thumbnail_path,
    ]
}

/// The scale filter for a target size.
pub open spec fn scale_filter(width: int, height: int) -> Seq<char> {
    "scale="@ + decimal(width) + ":"@ + decimal(height)
}

/// The pattern of the segment files of a rendition.
pub open spec fn segment_pattern(output_dir: Seq<char>, quality: Seq<char>) -> Seq<char> {
    output_dir + "/"@ + quality + "_%03d.ts"@
}

/// The playlist file of a rendition.
pub open spec fn rendition_playlist(output_dir: Seq<char>, quality: Seq<char>) -> Seq<char> {
    output_dir + "/"@ + quality + ".m3u8"@
}

/// Arguments of the encode of one rendition into ten-second segments with
/// a video-on-demand playlist.
pub open spec fn encode_args(
    input_path: Seq<char>,
    output_dir: Seq<char>,
    quality: Seq<char>,
    width: int,
    height: int,
    video_bitrate: Seq<char>,
    audio_bitrate: Seq<char>,
) -> Seq<Seq<char>> {
    seq![
        "-i"@,
        input_path,
        "-c:v"@,
        "libx264"@,
        "-c:a"@,
        "aac"@,
        "-b:v"@,
        video_bitrate,
        "-b:a"@,
        audio_bitrate,
        "-vf"@,
        scale_filter(width, height),
        "-hls_time"@,
        "10"@,
        "-hls_playlist_type"@,
        "vod"@,
        "-hls_segment_filename"@,
        segment_pattern(output_dir, quality),
        "-f"@,
        "hls"@,
        rendition_playlist(output_dir, quality),
        "-y"@,
    ]
}

/// Whether `command` starts `program` with `args`.
pub open spec fn command_is(command: CommandLine, program: Seq<char>, args: Seq<Seq<char>>) -> bool {
    command.program@ == program && texts(command.args@) == args
}

impl VideoProcessingService {
    /// The probe that prints the dimensions of `input_path` as `WxH`.
    pub fn dimensions_command(input_path: &str) -> (command: CommandLine)
        ensures
            command_is(command, "ffprobe"@, dimensions_args(input_path@)),
    {
        let mut args: Vec<String> = Vec::new();
        assert(texts(args@) =~= Seq::<Seq<char>>::empty());
        push_owned(&mut args, "-v");
        push_owned(&mut args, "error");
        push_owned(&mut args, "-select_streams");
        push_owned(&mut args, "v:0");
        push_owned(&mut args, "-show_entries");
        push_owned(&mut args, "stream=width,height");
        push_owned(&mut args, "-of");
        push_owned(&mut args, "csv=s=x:p=0");
        push_owned(&mut args, input_path);
        assert(texts(args@) =~= dimensions_args(input_path@));
        CommandLine { program: "ffprobe".to_owned(), args }
    }

    /// The probe that prints the duration of `input_path` in seconds.
    pub fn duration_command(input_path: &str) -> (command: CommandLine)
        ensures
            command_is(command, "ffprobe"@, duration_args(input_path@)),
    {
        let mut args: Vec<String> = Vec::new();
        assert(texts(args@) =~= Seq::<Seq<char>>::empty());
        push_owned(&mut args, "-v");
        push_owned(&mut args, "quiet");
        push_owned(&mut args, "-show_entries");
        push_owned(&mut args, "format=duration");
        push_owned(&mut args, "-of");
        push_owned(&mut args, "csv=p=0");
        push_owned(&mut args, input_path);
        assert(texts(args@) =~= duration_args(input_path@));
        CommandLine { program: "ffprobe".to_owned(), args }
    }

    /// The command that writes the thumbnail of `input_path` to
    /// `thumbnail_path`.
    pub fn thumbnail_command(input_path: &str, thumbnail_path: &str) -> (command: CommandLine)
        ensures
            command_is(command, "ffmpeg"@, thumbnail_args(input_path@, thumbnail_path@)),
    {
        let mut args: Vec<String> = Vec::new();
        assert(texts(args@) =~= Seq::<Seq<char>>::empty());
        push_owned(&mut args, "-i");
        push_owned(&mut args, input_path);
        push_owned(&mut args, "-ss");
        push_owned(&mut args, "00:00:01");
        push_owned(&mut args, "-vframes");
        push_owned(&mut args, "1");
        push_owned(&mut args, "-q:v");
        push_owned(&mut args, "2");
        push_owned(&mut args, "-vf");
        push_owned(
            &mut args,
            "scale=320:180:force_original_aspect_ratio=decrease,pad=320:180:(320-iw)/2:(180-ih)/2,setsar=1",
        );
        push_owned(&mut args, "-y");
        push_owned(&mut args, thumbnail_path);
        assert(texts(args@) =~= thumbnail_args(input_path@, thumbnail_path@));
        CommandLine { program: "ffmpeg".to_owned(), args }
    }

    /// The command that encodes one rendition of `input_path` into
    /// `output_dir`.
    pub fn encode_command(
        input_path: &str,
        output_dir: &str,
        quality: &str,
        width: i32,
        height: i32,
        video_bitrate: &str,
        audio_bitrate: &str,
    ) -> (command: CommandLine)
        ensures
            command_is(
                command,
                "ffmpeg"@,
                encode_args(
                    input_path@,
                    output_dir@,
                    quality@,
                    width as int,
                    height as int,
                    video_bitrate@,
                    audio_bitrate@,
                ),
            ),
    {
        let mut filter: Vec<char> = Vec::new();
        push_text(&mut filter, "scale=");
        push_signed(&mut filter, width as i64);
        push_text(&mut filter, ":");
        push_signed(&mut filter, height as i64);
        let mut segments: Vec<char> = Vec::new();
        push_text(&mut segments, output_dir);
        push_text(&mut segments, "/");
        push_text(&mut segments, quality);
        push_text(&mut segments, "_%03d.ts");
        let mut playlist: Vec<char> = Vec::new();
        push_text(&mut playlist, output_dir);
        push_text(&mut playlist, "/");
        push_text(&mut playlist, quality);
        push_text(&mut playlist, ".m3u8");
        let mut args: Vec<String> = Vec::new();
        assert(texts(args@) =~= Seq::<Seq<char>>::empty());
        push_owned(&mut args, "-i");
        push_owned(&mut args, input_path);
        push_owned(&mut args, "-c:v");
        push_owned(&mut args, "libx264");
        push_owned(&mut args, "-c:a");
        push_owned(&mut args, "aac");
        push_owned(&mut args, "-b:v");
        push_owned(&mut args, video_bitrate);
        push_owned(&mut args, "-b:a");
        push_owned(&mut args, audio_bitrate);
        push_owned(&mut args, "-vf");
        push_string(&mut args, text_of(&filter));
        push_owned(&mut args, "-hls_time");
        push_owned(&mut args, "10");
        push_owned(&mut args, "-hls_playlist_type");
        push_owned(&mut args, "vod");
        push_owned(&mut args, "-hls_segment_filename");
        push_string(&mut args, text_of(&segments));
        push_owned(&mut args, "-f");
        push_owned(&mut args, "hls");
        push_string(&mut args, text_of(&playlist));
        push_owned(&mut args, "-y");
        assert(texts(args@) =~= encode_args(
            input_path@,
            output_dir@,
            quality@,
            width as int,
            height as int,
            video_bitrate@,
            audio_bitrate@,
        ));
        CommandLine { program: "ffmpeg".to_owned(), args }
    }

    /// The command that asks the encode tool for its version.
    pub fn availability_command() -> (command: CommandLine)
        ensures
            command_is(command, "ffmpeg"@, seq!["-version"@]),
    {
        let mut args: Vec<String> = Vec::new();
        assert(texts(args@) =~= Seq::<Seq<char>>::empty());
        push_owned(&mut args, "-version");
        CommandLine { program: "ffmpeg".to_owned(), args }
    }
}

/// What follows the first `sep` of `s`, if `s` holds one.
pub open spec fn after_first(s: Seq<char>, sep: char) -> Option<Seq<char>> {
    let head = first_segment(s, sep);
    if head.len() < s.len() {
        Some(s.subrange(head.len() as int + 1, s.len() as int))
    } else {
        None
    }
}

/// The dimensions that the output `WxH` of the probe states: surrounding
/// whitespace is ignored, width and height are decimal and positive, and
/// what follows a second `x` is not read.
pub open spec fn dimensions_text(stdout: Seq<char>) -> Result<(i32, i32), ProbeFailure> {
    let dims = trimmed(stdout);
    match parse_i32_text(first_segment(dims, 'x')) {
        None => Err(ProbeFailure::InvalidWidth),
        Some(width) => match after_first(dims, 'x') {
            None => Err(ProbeFailure::MissingHeight),
            Some(rest) => match parse_i32_text(first_segment(rest, 'x')) {
                None => Err(ProbeFailure::InvalidHeight),
                Some(height) => if width > 0 && height > 0 {
                    Ok((width, height))
                } else {
                    Err(ProbeFailure::NotPositive)
                },
            },
        },
    }
}

/// Why a process gave nothing to read, if it did not.
pub open spec fn process_failure(result: ProcessResult) -> Option<ProbeFailure> {
    match result {
        ProcessResult::NotStarted => Some(ProbeFailure::ToolMissing),
        ProcessResult::Exited(output) => if output.success {
            None
        } else {
            Some(ProbeFailure::ToolFailed)
        },
    }
}

/// What the process wrote to its error stream; nothing if it never ran.
pub open spec fn error_stream(result: ProcessResult) -> Seq<char> {
    match result {
        ProcessResult::NotStarted => Seq::empty(),
        ProcessResult::Exited(output) => output.stderr@,
    }
}

/// What the process wrote to its output stream; nothing if it never ran.
pub open spec fn output_stream(result: ProcessResult) -> Seq<char> {
    match result {
        ProcessResult::NotStarted => Seq::empty(),
        ProcessResult::Exited(output) => output.stdout@,
    }
}

/// The answer of the dimension probe.
pub open spec fn probed_dimensions(result: ProcessResult) -> Result<(i32, i32), ProbeFailure> {
    match process_failure(result) {
        Some(failure) => Err(failure),
        None => dimensions_text(output_stream(result)),
    }
}

/// The answer of the duration probe, given the whole seconds that its
/// output denotes, if it denotes a duration.
pub open spec fn probed_duration(result: ProcessResult, seconds: Option<i32>) -> Result<
    i32,
    ProbeFailure,
> {
    match process_failure(result) {
        Some(failure) => Err(failure),
        None => match seconds {
            Some(s) => Ok(s),
            None => Err(ProbeFailure::InvalidDuration),
        },
    }
}

impl ProcessResult {
    /// A copy of the error stream.
    pub fn stderr_text(&self) -> (r: String)
        ensures
            r@ == error_stream(*self),
    {
        match self {
            ProcessResult::NotStarted => String::new(),
            ProcessResult::Exited(output) => output.stderr.clone(),
        }
    }

    /// Whether the process ran and reported success.
    pub fn succeeded(&self) -> (r: bool)
        ensures
            r == (process_failure(*self) is None),
    {
        match self {
            ProcessResult::NotStarted => false,
            ProcessResult::Exited(output) => output.success,
        }
    }

    /// Whether the process was started.
    pub fn started(&self) -> (r: bool)
        ensures
            r == (self is Exited),
    {
        match self {
            ProcessResult::NotStarted => false,
            ProcessResult::Exited(_) => true,
        }
    }

    fn failure(&self) -> (r: Option<ProbeFailure>)
        ensures
            r == process_failure(*self),
    {
        match self {
            ProcessResult::NotStarted => Some(ProbeFailure::ToolMissing),
            ProcessResult::Exited(output) => if output.success {
                None
            } else {
                Some(ProbeFailure::ToolFailed)
            },
        }
    }
}

/// Reads `WxH` from the output of the dimension probe.
pub fn parse_dimensions(stdout: &str) -> (r: Result<(i32, i32), ProbeFailure>)
    ensures
        r == dimensions_text(stdout@),
{
    let all = chars_of(stdout);
    let (from, to) = strip_bounds(&all, Strip::Whitespace);
    let dims = slice_of(&all, from, to);
    let width_end = first_segment_end(&dims, 'x');
    let width = match parse_i32_range(&dims, 0, width_end) {
        None => { return Err(ProbeFailure::InvalidWidth); },
        Some(width) => width,
    };
    if width_end == dims.len() {
        return Err(ProbeFailure::MissingHeight);
    }
    let rest = slice_of(&dims, width_end + 1, dims.len());
    let height_end = first_segment_end(&rest, 'x');
    let height = match parse_i32_range(&rest, 0, height_end) {
        None => { return Err(ProbeFailure::InvalidHeight); },
        Some(height) => height,
    };
    if width > 0 && height > 0 {
        Ok((width, height))
    } else {
        Err(ProbeFailure::NotPositive)
    }
}

impl VideoProcessingService {
    /// Reads the answer of the dimension probe: the dimensions where the
    /// probe ran, succeeded and printed two positive integers as `WxH`,
    /// else the reason together with the error stream.
    pub fn get_video_dimensions(result: &ProcessResult) -> (r: Result<(i32, i32), ProbeError>)
        ensures
            match r {
                Ok(dims) => probed_dimensions(*result) == Ok::<(i32, i32), ProbeFailure>(dims),
                Err(e) => probed_dimensions(*result) == Err::<(i32, i32), ProbeFailure>(e.kind)
                    && e.stderr@ == error_stream(*result),
            },
    {
        let parsed = match result {
            ProcessResult::NotStarted => Err(ProbeFailure::ToolMissing),
            ProcessResult::Exited(output) => if output.success {
                parse_dimensions(output.stdout.as_str())
            } else {
                Err(ProbeFailure::ToolFailed)
            },
        };
        match parsed {
            Ok(dims) => Ok(dims),
            Err(kind) => Err(ProbeError { kind, stderr: result.stderr_text() }),
        }
    }

    /// The text of the duration probe that denotes the seconds: its output
    /// without surrounding whitespace.
    pub fn duration_text(result: &ProcessResult) -> (r: String)
        ensures
            r@ == trimmed(output_stream(*result)),
    {
        match result {
            ProcessResult::NotStarted => {
                let empty = crate::text::trim("");
                proof {
                    reveal_strlit("");
                }
                empty
            },
            ProcessResult::Exited(output) => crate::text::trim(output.stdout.as_str()),
        }
    }

    /// Reads the answer of the duration probe. `seconds` is the number that
    /// the duration text denotes, cut to whole seconds, or `None` where the
    /// text denotes no number.
    pub fn get_video_duration(result: &ProcessResult, seconds: Option<i32>) -> (r: Result<
        i32,
        ProbeError,
    >)
        ensures
            match r {
                Ok(s) => probed_duration(*result, seconds) == Ok::<i32, ProbeFailure>(s),
                Err(e) => probed_duration(*result, seconds) == Err::<i32, ProbeFailure>(e.kind)
                    && e.stderr@ == error_stream(*result),
            },
    {
        match result.failure() {
            Some(kind) => Err(ProbeError { kind, stderr: result.stderr_text() }),
            None => match seconds {
                Some(s) => Ok(s),
                None => Err(
                    ProbeError { kind: ProbeFailure::InvalidDuration, stderr: result.stderr_text() },
                ),
            },
        }
    }

    /// Reads how the encode of the rendition `quality` ended: an error for
    /// every run that did not start or did not report success.
    pub fn encode_outcome(quality: &str, result: &ProcessResult) -> (r: Result<(), EncodeError>)
        ensures
            r is Ok <==> process_failure(*result) is None,
            r matches Err(e) ==> e.quality@ == quality@ && e.started == (result is Exited)
                && e.stderr@ == error_stream(*result),
    {
        if result.succeeded() {
            Ok(())
        } else {
            Err(
                EncodeError {
                    quality: quality.to_owned(),
                    started: result.started(),
                    stderr: result.stderr_text(),
                },
            )
        }
    }

    /// Reads how the thumbnail extraction ended: an error for every run
    /// that did not start or did not report success.
    pub fn generate_thumbnail(result: &ProcessResult) -> (r: Result<(), ThumbnailError>)
        ensures
            r is Ok <==> process_failure(*result) is None,
            r matches Err(e) ==> e.started == (result is Exited) && e.stderr@ == error_stream(
                *result,
            ),
    {
        if result.succeeded() {
            Ok(())
        } else {
            Err(ThumbnailError { started: result.started(), stderr: result.stderr_text() })
        }
    }

    /// Reads the answer of the version query: the tool is available where
    /// it started and reported success.
    pub fn check_ffmpeg_availability(result: &ProcessResult) -> (r: Result<(), ToolUnavailable>)
        ensures
            r == match process_failure(*result) {
                None => Ok::<(), ToolUnavailable>(()),
                Some(ProbeFailure::ToolMissing) => Err(ToolUnavailable::NotStarted),
                Some(_) => Err(ToolUnavailable::Failed),
            },
    {
        match result {
            ProcessResult::NotStarted => Err(ToolUnavailable::NotStarted),
            ProcessResult::Exited(output) => if output.success {
                Ok(())
            } else {
                Err(ToolUnavailable::Failed)
            },
        }
    }
}

} // verus!
