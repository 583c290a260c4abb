//! The duration probe: the probe tool's command lines, and what its output
//! says of a media file.
//!
//! The probe tool is run twice for a file: once for the width, the height
//! and the display aspect ratio of the first video stream, one per line, and
//! once for the duration of the container.

use vstd::prelude::*;
use vstd::string::*;
use crate::options::VideoInfo;
use crate::text::{
    after_first_line, capped, chars_of, find_from, first_index_of, first_line, is_unsigned,
    parse_u32, push_text, slice_of, split_first_line, text_of, texts, trim, trimmed,
    unsigned_value,
};
use crate::timecode::{is_numeral, numeral_micros, parse_numeral, Seconds};

verus! {

/// How one run of an external tool ended.
#[derive(Debug)]
pub enum ToolRun {
    /// The tool could not be started.
    NotStarted { reason: String },
    /// The tool ran and exited. An output stream is `None` where it was not
    /// valid UTF-8.
    Finished { success: bool, stdout: Option<String>, stderr: Option<String> },
}

/// What about the probe tool's output was missing or malformed.
#[derive(Clone, Copy, Debug, PartialEq, Eq, Structural)]
pub enum ParseFailure {
    /// The output is not valid UTF-8.
    Encoding,
    MissingWidth,
    InvalidWidth,
    MissingHeight,
    InvalidHeight,
    MissingAspectRatio,
    /// The aspect ratio does not have exactly two fields.
    InvalidAspectRatio,
    InvalidAspectRatioWidth,
    InvalidAspectRatioHeight,
    InvalidDuration,
}

/// Why a probe gave no result.
#[derive(Debug)]
pub enum ProbeError {
    /// The probe tool could not be started; the reason is attached.
    ProbeUnavailable(String),
    /// The probe tool exited with a failure; what it wrote to standard error
    /// is attached.
    ProbeFailed(String),
    /// The probe tool's output was not as expected.
    ProbeParseError(ParseFailure),
}

/// A probe error with its texts as sequences of characters.
pub enum ProbeErrorView {
    ProbeUnavailable(Seq<char>),
    ProbeFailed(Seq<char>),
    ProbeParseError(ParseFailure),
}

impl View for ProbeError {
    type V = ProbeErrorView;

    open spec fn view(&self) -> ProbeErrorView {
        match self {
            ProbeError::ProbeUnavailable(reason) => ProbeErrorView::ProbeUnavailable(reason@),
            ProbeError::ProbeFailed(text) => ProbeErrorView::ProbeFailed(text@),
            ProbeError::ProbeParseError(failure) => ProbeErrorView::ProbeParseError(*failure),
        }
    }
}

/// Width, height and display aspect ratio of a video stream.
#[derive(Clone, Copy, Debug, PartialEq, Eq, Structural)]
pub struct StreamGeometry {
    pub width: u32,
    pub height: u32,
    pub aspect_ratio_width: u32,
    pub aspect_ratio_height: u32,
}

/// `s` is an unsigned integer text whose number fits in 32 bits.
pub open spec fn is_u32_text(s: Seq<char>) -> bool {
    is_unsigned(s) && unsigned_value(s) <= u32::MAX
}

/// The two fields of an aspect ratio, where the text has exactly two fields
/// separated by a colon.
pub open spec fn ratio_fields(s: Seq<char>) -> Option<(Seq<char>, Seq<char>)> {
    let i = first_index_of(s, ':');
    let rest = s.skip(i + 1);
    if i < s.len() && first_index_of(rest, ':') == rest.len() {
        Some((s.take(i), rest))
    } else {
        None
    }
}

/// What the first three lines of the probe tool's output say: the width,
/// the height, and the aspect ratio as `width:height`.
pub open spec fn geometry_of(text: Seq<char>) -> Result<StreamGeometry, ParseFailure> {
    let width = first_line(text);
    let below_width = after_first_line(text);
    let height = first_line(below_width);
    let below_height = after_first_line(below_width);
    let ratio = first_line(below_height);
    if text.len() == 0 {
        Err(ParseFailure::MissingWidth)
    } else if !is_u32_text(width) {
        Err(ParseFailure::InvalidWidth)
    } else if below_width.len() == 0 {
        Err(ParseFailure::MissingHeight)
    } else if !is_u32_text(height) {
        Err(ParseFailure::InvalidHeight)
    } else if below_height.len() == 0 {
        Err(ParseFailure::MissingAspectRatio)
    } else {
        match ratio_fields(ratio) {
            None => Err(ParseFailure::InvalidAspectRatio),
            Some((ratio_width, ratio_height)) => {
                if !is_u32_text(ratio_width) {
                    Err(ParseFailure::InvalidAspectRatioWidth)
                } else if !is_u32_text(ratio_height) {
                    Err(ParseFailure::InvalidAspectRatioHeight)
                } else {
                    Ok(
                        StreamGeometry {
                            width: unsigned_value(width) as u32,
                            height: unsigned_value(height) as u32,
                            aspect_ratio_width: unsigned_value(ratio_width) as u32,
                            aspect_ratio_height: unsigned_value(ratio_height) as u32,
                        },
                    )
                }
            },
        }
    }
}

/// The standard output of a probe run, or why the run gave none: the tool
/// did not start, or it failed, or its output is not valid UTF-8. What a
/// failed tool wrote to standard error is handed on; where that is not valid
/// UTF-8, `Unknown error` stands for it.
pub open spec fn probe_output(run: &ToolRun) -> Result<Seq<char>, ProbeErrorView> {
    match run {
        ToolRun::NotStarted { reason } => Err(ProbeErrorView::ProbeUnavailable(reason@)),
        ToolRun::Finished { success, stdout, stderr } => {
            if !*success {
                Err(
                    ProbeErrorView::ProbeFailed(
                        match stderr {
                            Some(text) => text@,
                            None => "Unknown error"@,
                        },
                    ),
                )
            } else {
                match stdout {
                    Some(text) => Ok(text@),
                    None => Err(ProbeErrorView::ProbeParseError(ParseFailure::Encoding)),
                }
            }
        },
    }
}

/// What a run of the probe tool for the stream's geometry says.
pub open spec fn stream_geometry_result(run: &ToolRun) -> Result<StreamGeometry, ProbeErrorView> {
    match probe_output(run) {
        Err(error) => Err(error),
        Ok(text) => match geometry_of(text) {
            Ok(geometry) => Ok(geometry),
            Err(failure) => Err(ProbeErrorView::ProbeParseError(failure)),
        },
    }
}

/// What a run of the probe tool for the duration in its display form says:
/// the output without the white space around it.
pub open spec fn duration_display_result(run: &ToolRun) -> Result<Seq<char>, ProbeErrorView> {
    match probe_output(run) {
        Err(error) => Err(error),
        Ok(text) => Ok(trimmed(text)),
    }
}

/// What a run of the probe tool for the duration in seconds says, in
/// microseconds: the output without the white space around it is a numeral
/// of seconds.
pub open spec fn duration_result(run: &ToolRun) -> Result<nat, ProbeErrorView> {
    match probe_output(run) {
        Err(error) => Err(error),
        Ok(text) => if is_numeral(trimmed(text)) {
            Ok(capped(numeral_micros(trimmed(text)), u64::MAX as nat))
        } else {
            Err(ProbeErrorView::ProbeParseError(ParseFailure::InvalidDuration))
        },
    }
}

/// The argument that asks a tool for its version and nothing else.
pub const VERSION_QUERY: &'static str = "-version";

/// The tool started and exited with success.
pub open spec fn ran_with_success(run: &ToolRun) -> bool {
    match run {
        ToolRun::NotStarted { .. } => false,
        ToolRun::Finished { success, .. } => *success,
    }
}

/// Whether a tool can be used, from a run of it with the version query: it
/// can where it started and exited with success.
pub fn is_command_available(run: &ToolRun) -> (available: bool)
    ensures
        available == ran_with_success(run),
{
    match run {
        ToolRun::NotStarted { .. } => false,
        ToolRun::Finished { success, .. } => *success,
    }
}

/// The probe tool's arguments that ask for width, height and display aspect
/// ratio of the first video stream, one value per line.
pub open spec fn stream_probe_arguments(video_path: Seq<char>) -> Seq<Seq<char>> {
    seq![
        "-v"@,
        "error"@,
        "-select_streams"@,
        "v:0"@,
        "-show_entries"@,
        "stream=width,height,display_aspect_ratio"@,
        "-of"@,
        "default=noprint_wrappers=1:nokey=1"@,
        video_path,
    ]
}

/// The probe tool's arguments that ask for the duration of the container:
/// in seconds, or with `sexagesimal` as `H:MM:SS.ffffff`.
pub open spec fn duration_probe_arguments(video_path: Seq<char>, sexagesimal: bool) -> Seq<
    Seq<char>,
> {
    if sexagesimal {
        seq![
            "-v"@,
            "error"@,
            "-show_entries"@,
            "format=duration"@,
            "-of"@,
            "default=noprint_wrappers=1:nokey=1"@,
            "-sexagesimal"@,
            video_path,
        ]
    } else {
        seq![
            "-v"@,
            "error"@,
            "-show_entries"@,
            "format=duration"@,
            "-of"@,
            "default=noprint_wrappers=1:nokey=1"@,
            video_path,
        ]
    }
}

/// The probe tool's arguments for the geometry of a file's first video
/// stream.
pub fn stream_info_arguments(video_path: &str) -> (arguments: Vec<String>)
    ensures
        texts(arguments@) == stream_probe_arguments(video_path@),
{
    let mut arguments: Vec<String> = Vec::new();
    push_text(&mut arguments, "-v");
    push_text(&mut arguments, "error");
    push_text(&mut arguments, "-select_streams");
    push_text(&mut arguments, "v:0");
    push_text(&mut arguments, "-show_entries");
    push_text(&mut arguments, "stream=width,height,display_aspect_ratio");
    push_text(&mut arguments, "-of");
    push_text(&mut arguments, "default=noprint_wrappers=1:nokey=1");
    push_text(&mut arguments, video_path);
    arguments
}

/// The probe tool's arguments for the duration of a file.
pub fn duration_arguments(video_path: &str, sexagesimal: bool) -> (arguments: Vec<String>)
    ensures
        texts(arguments@) == duration_probe_arguments(video_path@, sexagesimal),
{
    let mut arguments: Vec<String> = Vec::new();
    push_text(&mut arguments, "-v");
    push_text(&mut arguments, "error");
    push_text(&mut arguments, "-show_entries");
    push_text(&mut arguments, "format=duration");
    push_text(&mut arguments, "-of");
    push_text(&mut arguments, "default=noprint_wrappers=1:nokey=1");
    if sexagesimal {
        push_text(&mut arguments, "-sexagesimal");
    }
    push_text(&mut arguments, video_path);
    arguments
}

/// The standard output of a probe run, or the error that the run stands
/// for.
fn output_of(run: &ToolRun) -> (result: Result<Vec<char>, ProbeError>)
    ensures
        match (result, probe_output(run)) {
            (Ok(text), Ok(expected)) => text@ == expected,
            (Err(error), Err(expected)) => error@ == expected,
            _ => false,
        },
{
    match run {
        ToolRun::NotStarted { reason } => Err(ProbeError::ProbeUnavailable(reason.clone())),
        ToolRun::Finished { success, stdout, stderr } => {
            if !*success {
                match stderr {
                    Some(text) => Err(ProbeError::ProbeFailed(text.clone())),
                    None => Err(ProbeError::ProbeFailed(String::from_str("Unknown error"))),
                }
            } else {
                match stdout {
                    Some(text) => Ok(chars_of(text.as_str())),
                    None => Err(ProbeError::ProbeParseError(ParseFailure::Encoding)),
                }
            }
        },
    }
}

/// Reads width, height and aspect ratio from the first three lines of the
/// probe tool's output.
pub fn parse_geometry(text: &Vec<char>) -> (result: Result<StreamGeometry, ParseFailure>)
    ensures
        result == geometry_of(text@),
{
    if text.len() == 0 {
        return Err(ParseFailure::MissingWidth);
    }
    let (width_text, below_width) = split_first_line(text);
    let width = match parse_u32(&width_text) {
        Some(v) => v,
        None => {
            return Err(ParseFailure::InvalidWidth);
        },
    };
    if below_width.len() == 0 {
        return Err(ParseFailure::MissingHeight);
    }
    let (height_text, below_height) = split_first_line(&below_width);
    let height = match parse_u32(&height_text) {
        Some(v) => v,
        None => {
            return Err(ParseFailure::InvalidHeight);
        },
    };
    if below_height.len() == 0 {
        return Err(ParseFailure::MissingAspectRatio);
    }
    let (ratio, _) = split_first_line(&below_height);
    let n = ratio.len();
    let i = find_from(&ratio, 0, ':');
    assert(ratio@.skip(0) =~= ratio@);
    if i == n {
        return Err(ParseFailure::InvalidAspectRatio);
    }
    let j = find_from(&ratio, i + 1, ':');
    if j != n {
        return Err(ParseFailure::InvalidAspectRatio);
    }
    let ratio_width_text = slice_of(&ratio, 0, i);
    let ratio_height_text = slice_of(&ratio, i + 1, n);
    let aspect_ratio_width = match parse_u32(&ratio_width_text) {
        Some(v) => v,
        None => {
            return Err(ParseFailure::InvalidAspectRatioWidth);
        },
    };
    let aspect_ratio_height = match parse_u32(&ratio_height_text) {
        Some(v) => v,
        None => {
            return Err(ParseFailure::InvalidAspectRatioHeight);
        },
    };
    Ok(StreamGeometry { width, height, aspect_ratio_width, aspect_ratio_height })
}

/// Width, height and aspect ratio of a file's first video stream, from the
/// run of the probe tool that asked for them.
pub fn get_stream_geometry(run: &ToolRun) -> (result: Result<StreamGeometry, ProbeError>)
    ensures
        match (result, stream_geometry_result(run)) {
            (Ok(geometry), Ok(expected)) => geometry == expected,
            (Err(error), Err(expected)) => error@ == expected,
            _ => false,
        },
{
    let text = match output_of(run) {
        Ok(text) => text,
        Err(error) => {
            return Err(error);
        },
    };
    match parse_geometry(&text) {
        Ok(geometry) => Ok(geometry),
        Err(failure) => Err(ProbeError::ProbeParseError(failure)),
    }
}

/// What the probe tool reports of a file, from its two runs: `streams` asked
/// for the geometry of the first video stream, `duration` for the duration
/// in its display form. An error of the first run comes before one of the
/// second.
pub fn get_video_info(streams: &ToolRun, duration: &ToolRun) -> (result: Result<
    VideoInfo,
    ProbeError,
>)
    ensures
        match result {
            Ok(info) => {
                &&& stream_geometry_result(streams) == Ok::<StreamGeometry, ProbeErrorView>(
                    StreamGeometry {
                        width: info.width,
                        height: info.height,
                        aspect_ratio_width: info.aspect_ratio_width,
                        aspect_ratio_height: info.aspect_ratio_height,
                    },
                )
                &&& duration_display_result(duration) == Ok::<Seq<char>, ProbeErrorView>(
                    info.duration@,
                )
            },
            Err(error) => match stream_geometry_result(streams) {
                Err(expected) => error@ == expected,
                Ok(_) => duration_display_result(duration) == Err::<Seq<char>, ProbeErrorView>(
                    error@,
                ),
            },
        },
{
    let geometry = match get_stream_geometry(streams) {
        Ok(geometry) => geometry,
        Err(error) => {
            return Err(error);
        },
    };
    let text = match output_of(duration) {
        Ok(text) => text,
        Err(error) => {
            return Err(error);
        },
    };
    let display = trim(&text);
    Ok(
        VideoInfo {
            width: geometry.width,
            height: geometry.height,
            duration: text_of(&display),
            aspect_ratio_width: geometry.aspect_ratio_width,
            aspect_ratio_height: geometry.aspect_ratio_height,
        },
    )
}

/// The duration of a file, from the run of the probe tool that asked for it
/// in seconds. The result is exact to the microsecond.
pub fn get_video_length_in_seconds(run: &ToolRun) -> (result: Result<Seconds, ProbeError>)
    ensures
        match (result, duration_result(run)) {
            (Ok(length), Ok(expected)) => length.micros == expected,
            (Err(error), Err(expected)) => error@ == expected,
            _ => false,
        },
{
    let text = match output_of(run) {
        Ok(text) => text,
        Err(error) => {
            return Err(error);
        },
    };
    let numeral = trim(&text);
    match parse_numeral(&numeral) {
        Some(micros) => Ok(Seconds { micros }),
        None => Err(ProbeError::ProbeParseError(ParseFailure::InvalidDuration)),
    }
}

/// What is said of a malformed output.
pub open spec fn parse_failure_message(failure: ParseFailure) -> Seq<char> {
    match failure {
        ParseFailure::Encoding => "Output is not valid UTF-8"@,
        ParseFailure::MissingWidth => "Missing width"@,
        ParseFailure::InvalidWidth => "Failed to parse width"@,
        ParseFailure::MissingHeight => "Missing height"@,
        ParseFailure::InvalidHeight => "Failed to parse height"@,
        ParseFailure::MissingAspectRatio => "Missing aspect ratio"@,
        ParseFailure::InvalidAspectRatio => "Invalid aspect ratio format"@,
        ParseFailure::InvalidAspectRatioWidth => "Failed to parse aspect ratio width"@,
        ParseFailure::InvalidAspectRatioHeight => "Failed to parse aspect ratio height"@,
        ParseFailure::InvalidDuration => "Failed to parse duration"@,
    }
}

/// What is said of a probe error.
pub open spec fn probe_error_message(error: ProbeErrorView) -> Seq<char> {
    match error {
        ProbeErrorView::ProbeUnavailable(reason) => "Failed to execute ffprobe: "@ + reason,
        ProbeErrorView::ProbeFailed(text) => "ffprobe failed with error: "@ + text,
        ProbeErrorView::ProbeParseError(failure) => parse_failure_message(failure),
    }
}

impl ParseFailure {
    /// The failure in words.
    pub fn message(&self) -> (text: &'static str)
        ensures
            text@ == parse_failure_message(*self),
    {
        match self {
            ParseFailure::Encoding => "Output is not valid UTF-8",
            ParseFailure::MissingWidth => "Missing width",
            ParseFailure::InvalidWidth => "Failed to parse width",
            ParseFailure::MissingHeight => "Missing height",
            ParseFailure::InvalidHeight => "Failed to parse height",
            ParseFailure::MissingAspectRatio => "Missing aspect ratio",
            ParseFailure::InvalidAspectRatio => "Invalid aspect ratio format",
            ParseFailure::InvalidAspectRatioWidth => "Failed to parse aspect ratio width",
            ParseFailure::InvalidAspectRatioHeight => "Failed to parse aspect ratio height",
            ParseFailure::InvalidDuration => "Failed to parse duration",
        }
    }
}

impl ProbeError {
    /// The error in words, for the caller to show.
    pub fn message(&self) -> (text: String)
        ensures
            text@ == probe_error_message(self@),
    {
        match self {
            ProbeError::ProbeUnavailable(reason) => {
                let mut text = String::from_str("Failed to execute ffprobe: ");
                text.append(reason.as_str());
                text
            },
            ProbeError::ProbeFailed(output) => {
                let mut text = String::from_str("ffprobe failed with error: ");
                text.append(output.as_str());
                text
            },
            ProbeError::ProbeParseError(failure) => String::from_str(failure.message()),
        }
    }
}

} // verus!
