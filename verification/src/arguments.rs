//! The argument builder: from an edit job to the transcoder's command line.
//!
//! The command line is a sequence of segments, each of which is empty or
//! holds a fixed run of arguments. Their order is part of the contract: the
//! transcoder reads its arguments by position.

use vstd::prelude::*;
use vstd::string::*;
use crate::options::{
    bitrate_unit, get_bitrate_type_from_int, ResizeOptions, VideoCompressionOptions,
    VideoCropPoints, VideoCutOptions, VideoEditOptions,
};
use crate::text::{
    capped, int_text, is_digit, lemma_decimal_round_trip, push_int, push_str, push_text, same_str,
    starts_with, text_of, texts,
};
use crate::timecode::{convert_time_string_to_seconds, timecode_result, Seconds};

verus! {

/// The transcoder's command line for one job, and the duration that its
/// progress is measured against.
#[derive(Debug)]
pub struct TranscodeJob {
    pub arguments: Vec<String>,
    pub expected_duration: Seconds,
}

/// The least even number that is not below `n`.
pub open spec fn round_up_to_even(n: int) -> int {
    if n % 2 == 0 {
        n
    } else {
        n + 1
    }
}

/// The geometry filter that cuts the rectangle out of each frame.
pub open spec fn crop_filter(crop: VideoCropPoints) -> Seq<char> {
    "crop="@ + int_text(crop.width as int) + ":"@ + int_text(crop.height as int) + ":"@ + int_text(
        crop.starting_x_offset as int,
    ) + ":"@ + int_text(crop.starting_y_offset as int)
}

/// The geometry filter that scales each frame; an odd width or height is
/// raised to the next even number.
pub open spec fn scale_filter(resize: ResizeOptions) -> Seq<char> {
    "scale="@ + int_text(round_up_to_even(resize.width as int)) + ":"@ + int_text(
        round_up_to_even(resize.height as int),
    )
}

/// The video bitrate with its unit.
pub open spec fn video_bitrate_text(compression: &VideoCompressionOptions) -> Seq<char> {
    int_text(compression.bitrate as int) + bitrate_unit(compression.bitrate_type as int)
}

/// An audio bitrate in kilobits per second, with its unit.
pub open spec fn audio_bitrate_text(kilobits: int) -> Seq<char> {
    int_text(kilobits) + "k"@
}

/// The input file declaration.
pub open spec fn input_segment(options: &VideoEditOptions) -> Seq<Seq<char>> {
    seq!["-i"@, options.input_video_path@]
}

/// The trim flags: start, then end, each with the time string as given.
pub open spec fn cut_segment(options: &VideoEditOptions) -> Seq<Seq<char>> {
    if options.cut_options_enabled {
        seq![
            "-ss"@,
            options.cut_options.starting_time_string@,
            "-to"@,
            options.cut_options.end_time_string@,
        ]
    } else {
        seq![]
    }
}

/// The crop filter, where cropping is enabled.
pub open spec fn crop_segment(options: &VideoEditOptions) -> Seq<Seq<char>> {
    if options.crop_enabled {
        seq!["-vf"@, crop_filter(options.crop_options)]
    } else {
        seq![]
    }
}

/// The video codec, the preset, and then either the quality factor or the
/// bitrate.
pub open spec fn compression_segment(options: &VideoEditOptions) -> Seq<Seq<char>> {
    let compression = &options.compression_options;
    if !options.compression_enabled {
        seq![]
    } else if compression.using_crf {
        seq![
            "-c:v"@,
            compression.codec@,
            "-preset"@,
            compression.preset@,
            "-crf"@,
            int_text(compression.crf as int),
        ]
    } else {
        seq![
            "-c:v"@,
            compression.codec@,
            "-preset"@,
            compression.preset@,
            "-b:v"@,
            video_bitrate_text(compression),
        ]
    }
}

/// The audio flags. Without audio processing the stream is dropped. With
/// it, and with compression, the codec is named; unless the codec is `copy`
/// a bitrate follows, where the bitrate 0 asks for the best variable
/// quality. With audio processing and without compression nothing is said.
pub open spec fn audio_segment(options: &VideoEditOptions) -> Seq<Seq<char>> {
    let compression = &options.compression_options;
    if !options.process_audio {
        seq!["-an"@]
    } else if !options.compression_enabled {
        seq![]
    } else if compression.audio_codec@ == "copy"@ {
        seq!["-c:a"@, compression.audio_codec@]
    } else if compression.audio_bitrate == 0 {
        seq!["-c:a"@, compression.audio_codec@, "-q:a"@, "0"@]
    } else {
        seq![
            "-c:a"@,
            compression.audio_codec@,
            "-b:a"@,
            audio_bitrate_text(compression.audio_bitrate as int),
        ]
    }
}

/// The scale filter, where resizing is enabled and cropping is not.
pub open spec fn resize_segment(options: &VideoEditOptions) -> Seq<Seq<char>> {
    if options.resize_enabled && !options.crop_enabled {
        seq!["-vf"@, scale_filter(options.resize_options)]
    } else {
        seq![]
    }
}

/// Progress reports to standard output, and a log level that lets only
/// errors through.
pub open spec fn progress_segment() -> Seq<Seq<char>> {
    seq!["-progress"@, "-"@, "-loglevel"@, "error"@]
}

/// The transcoder's arguments for an edit job, with `output_path` as the
/// destination.
pub open spec fn video_arguments(options: &VideoEditOptions, output_path: Seq<char>) -> Seq<
    Seq<char>,
> {
    input_segment(options) + cut_segment(options) + crop_segment(options) + compression_segment(
        options,
    ) + audio_segment(options) + resize_segment(options) + progress_segment() + seq![output_path]
}

/// Whether an audio extraction encodes with the codec that the job names:
/// it does where compression is enabled and the codec is not `copy`.
pub open spec fn keeps_audio_codec(options: &VideoEditOptions) -> bool {
    options.compression_enabled && options.compression_options.audio_codec@ != "copy"@
}

/// The codec that an audio extraction encodes with.
pub open spec fn extraction_codec(options: &VideoEditOptions) -> Seq<char> {
    if keeps_audio_codec(options) {
        options.compression_options.audio_codec@
    } else {
        "libmp3lame"@
    }
}

/// The bitrate that an audio extraction asks for, in kilobits per second.
pub open spec fn extraction_bitrate(options: &VideoEditOptions) -> int {
    if keeps_audio_codec(options) {
        options.compression_options.audio_bitrate as int
    } else {
        192
    }
}

/// The codec and the bitrate of an audio extraction. A bitrate is named
/// where compression is enabled and the bitrate is above zero; otherwise
/// the best variable quality is asked for.
pub open spec fn extraction_segment(options: &VideoEditOptions) -> Seq<Seq<char>> {
    if options.compression_enabled && extraction_bitrate(options) > 0 {
        seq![
            "-c:a"@,
            extraction_codec(options),
            "-b:a"@,
            audio_bitrate_text(extraction_bitrate(options)),
        ]
    } else {
        seq!["-c:a"@, extraction_codec(options), "-q:a"@, "0"@]
    }
}

/// The transcoder's arguments for an audio extraction, with `output_path` as
/// the destination.
pub open spec fn audio_arguments(options: &VideoEditOptions, output_path: Seq<char>) -> Seq<
    Seq<char>,
> {
    input_segment(options) + cut_segment(options) + extraction_segment(options) + seq![
        "-map"@,
        "a"@,
    ] + progress_segment() + seq![output_path]
}

/// The start of the trim window in microseconds: zero where the time string
/// is malformed.
pub open spec fn cut_start_micros(cut: &VideoCutOptions) -> nat {
    match timecode_result(cut.starting_time_string@) {
        Ok(micros) => capped(micros, u64::MAX as nat),
        Err(_) => 0,
    }
}

/// The end of the trim window in microseconds: the probed duration where
/// the time string is malformed.
pub open spec fn cut_end_micros(cut: &VideoCutOptions, probed: nat) -> nat {
    match timecode_result(cut.end_time_string@) {
        Ok(micros) => capped(micros, u64::MAX as nat),
        Err(_) => probed,
    }
}

/// The duration of the output in microseconds: the probed duration, or with
/// trimming the length of the trim window, which is zero where the window
/// ends before it starts.
pub open spec fn expected_duration_micros(options: &VideoEditOptions, probed: nat) -> nat {
    if options.cut_options_enabled {
        let start = cut_start_micros(&options.cut_options);
        let end = cut_end_micros(&options.cut_options, probed);
        if end >= start {
            (end - start) as nat
        } else {
            0
        }
    } else {
        probed
    }
}

/// Appends one argument, given as characters.
fn push_argument_chars(arguments: &mut Vec<String>, argument: &Vec<char>)
    ensures
        texts(final(arguments)@) == texts(old(arguments)@).push(argument@),
{
    arguments.push(text_of(argument));
}

fn push_input_segment(arguments: &mut Vec<String>, options: &VideoEditOptions)
    ensures
        texts(final(arguments)@) == texts(old(arguments)@) + input_segment(options),
{
    push_text(arguments, "-i");
    push_text(arguments, options.input_video_path.as_str());
}

fn push_cut_segment(arguments: &mut Vec<String>, options: &VideoEditOptions)
    ensures
        texts(final(arguments)@) == texts(old(arguments)@) + cut_segment(options),
{
    if options.cut_options_enabled {
        push_text(arguments, "-ss");
        push_text(arguments, options.cut_options.starting_time_string.as_str());
        push_text(arguments, "-to");
        push_text(arguments, options.cut_options.end_time_string.as_str());
    }
}

fn push_crop_segment(arguments: &mut Vec<String>, options: &VideoEditOptions)
    ensures
        texts(final(arguments)@) == texts(old(arguments)@) + crop_segment(options),
{
    if options.crop_enabled {
        let crop = &options.crop_options;
        let mut filter: Vec<char> = Vec::new();
        push_str(&mut filter, "crop=");
        push_int(&mut filter, crop.width as i64);
        push_str(&mut filter, ":");
        push_int(&mut filter, crop.height as i64);
        push_str(&mut filter, ":");
        push_int(&mut filter, crop.starting_x_offset as i64);
        push_str(&mut filter, ":");
        push_int(&mut filter, crop.starting_y_offset as i64);
        push_text(arguments, "-vf");
        push_argument_chars(arguments, &filter);
    }
}

fn push_compression_segment(arguments: &mut Vec<String>, options: &VideoEditOptions)
    ensures
        texts(final(arguments)@) == texts(old(arguments)@) + compression_segment(options),
{
    if options.compression_enabled {
        let compression = &options.compression_options;
        push_text(arguments, "-c:v");
        push_text(arguments, compression.codec.as_str());
        push_text(arguments, "-preset");
        push_text(arguments, compression.preset.as_str());
        if compression.using_crf {
            let mut factor: Vec<char> = Vec::new();
            push_int(&mut factor, compression.crf as i64);
            push_text(arguments, "-crf");
            push_argument_chars(arguments, &factor);
        } else {
            let unit = get_bitrate_type_from_int(compression.bitrate_type);
            let mut rate: Vec<char> = Vec::new();
            push_int(&mut rate, compression.bitrate as i64);
            push_str(&mut rate, unit.as_str());
            push_text(arguments, "-b:v");
            push_argument_chars(arguments, &rate);
        }
    }
}

/// Appends an audio bitrate flag with its value.
fn push_audio_bitrate(arguments: &mut Vec<String>, kilobits: i32)
    ensures
        texts(final(arguments)@) == texts(old(arguments)@) + seq![
            "-b:a"@,
            audio_bitrate_text(kilobits as int),
        ],
{
    let mut rate: Vec<char> = Vec::new();
    push_int(&mut rate, kilobits as i64);
    push_str(&mut rate, "k");
    push_text(arguments, "-b:a");
    push_argument_chars(arguments, &rate);
}

/// Appends the flag that asks for the best variable audio quality.
fn push_audio_quality(arguments: &mut Vec<String>)
    ensures
        texts(final(arguments)@) == texts(old(arguments)@) + seq!["-q:a"@, "0"@],
{
    push_text(arguments, "-q:a");
    push_text(arguments, "0");
}

fn push_audio_segment(arguments: &mut Vec<String>, options: &VideoEditOptions)
    ensures
        texts(final(arguments)@) == texts(old(arguments)@) + audio_segment(options),
{
    let compression = &options.compression_options;
    if !options.process_audio {
        push_text(arguments, "-an");
    } else if options.compression_enabled {
        push_text(arguments, "-c:a");
        push_text(arguments, compression.audio_codec.as_str());
        if !same_str(compression.audio_codec.as_str(), "copy") {
            if compression.audio_bitrate == 0 {
                push_audio_quality(arguments);
            } else {
                push_audio_bitrate(arguments, compression.audio_bitrate);
            }
        }
    }
}

fn push_resize_segment(arguments: &mut Vec<String>, options: &VideoEditOptions)
    ensures
        texts(final(arguments)@) == texts(old(arguments)@) + resize_segment(options),
{
    if options.resize_enabled && !options.crop_enabled {
        let resize = &options.resize_options;
        let width: i64 = if resize.width % 2 == 0 {
            resize.width as i64
        } else {
            resize.width as i64 + 1
        };
        let height: i64 = if resize.height % 2 == 0 {
            resize.height as i64
        } else {
            resize.height as i64 + 1
        };
        let mut filter: Vec<char> = Vec::new();
        push_str(&mut filter, "scale=");
        push_int(&mut filter, width);
        push_str(&mut filter, ":");
        push_int(&mut filter, height);
        push_text(arguments, "-vf");
        push_argument_chars(arguments, &filter);
    }
}

fn push_progress_segment(arguments: &mut Vec<String>)
    ensures
        texts(final(arguments)@) == texts(old(arguments)@) + progress_segment(),
{
    push_text(arguments, "-progress");
    push_text(arguments, "-");
    push_text(arguments, "-loglevel");
    push_text(arguments, "error");
}

fn push_extraction_segment(arguments: &mut Vec<String>, options: &VideoEditOptions)
    ensures
        texts(final(arguments)@) == texts(old(arguments)@) + extraction_segment(options),
{
    let compression = &options.compression_options;
    let keeps = options.compression_enabled && !same_str(
        compression.audio_codec.as_str(),
        "copy",
    );
    let bitrate: i32 = if keeps {
        compression.audio_bitrate
    } else {
        192
    };
    push_text(arguments, "-c:a");
    if keeps {
        push_text(arguments, compression.audio_codec.as_str());
    } else {
        push_text(arguments, "libmp3lame");
    }
    if options.compression_enabled && bitrate > 0 {
        push_audio_bitrate(arguments, bitrate);
    } else {
        push_audio_quality(arguments);
    }
}

/// The duration that the progress of a job is measured against: the probed
/// duration of the input, or with trimming the length of the trim window. A
/// malformed start counts as zero, a malformed end as the probed duration.
pub fn expected_duration(options: &VideoEditOptions, video_length: Seconds) -> (expected: Seconds)
    ensures
        expected.micros == expected_duration_micros(options, video_length.micros as nat),
{
    if !options.cut_options_enabled {
        return video_length;
    }
    let start: u64 = match convert_time_string_to_seconds(
        options.cut_options.starting_time_string.as_str(),
    ) {
        Ok(time) => time.micros,
        Err(_) => 0,
    };
    let end: u64 = match convert_time_string_to_seconds(
        options.cut_options.end_time_string.as_str(),
    ) {
        Ok(time) => time.micros,
        Err(_) => video_length.micros,
    };
    if end >= start {
        Seconds { micros: end - start }
    } else {
        Seconds { micros: 0 }
    }
}

/// Plans an edit job: the transcoder's arguments in their fixed order, with
/// `output_path` last, and the duration to measure progress against.
/// `video_length` is the probed duration of the input.
pub fn process_video(options: &VideoEditOptions, video_length: Seconds, output_path: &str) -> (job:
    TranscodeJob)
    ensures
        texts(job.arguments@) == video_arguments(options, output_path@),
        job.expected_duration.micros == expected_duration_micros(
            options,
            video_length.micros as nat,
        ),
{
    let mut arguments: Vec<String> = Vec::new();
    push_input_segment(&mut arguments, options);
    push_cut_segment(&mut arguments, options);
    push_crop_segment(&mut arguments, options);
    push_compression_segment(&mut arguments, options);
    push_audio_segment(&mut arguments, options);
    push_resize_segment(&mut arguments, options);
    push_progress_segment(&mut arguments);
    push_text(&mut arguments, output_path);
    TranscodeJob { arguments, expected_duration: expected_duration(options, video_length) }
}

/// Plans an audio extraction: the transcoder's arguments in their fixed
/// order, with `output_path` last, and the duration to measure progress
/// against. Without compression, or with the codec `copy`, the audio is
/// encoded with `libmp3lame`.
pub fn extract_audio(options: &VideoEditOptions, video_length: Seconds, output_path: &str) -> (job:
    TranscodeJob)
    ensures
        texts(job.arguments@) == audio_arguments(options, output_path@),
        job.expected_duration.micros == expected_duration_micros(
            options,
            video_length.micros as nat,
        ),
{
    let mut arguments: Vec<String> = Vec::new();
    push_input_segment(&mut arguments, options);
    push_cut_segment(&mut arguments, options);
    push_extraction_segment(&mut arguments, options);
    push_text(&mut arguments, "-map");
    push_text(&mut arguments, "a");
    push_progress_segment(&mut arguments);
    push_text(&mut arguments, output_path);
    TranscodeJob { arguments, expected_duration: expected_duration(options, video_length) }
}

/// `x` has the form of a scale filter.
pub open spec fn is_scale_filter(x: Seq<char>) -> bool {
    starts_with(x, "scale="@)
}

/// `x` is one of the flags that name an audio codec, an audio bitrate or an
/// audio quality.
pub open spec fn is_audio_flag(x: Seq<char>) -> bool {
    x == "-c:a"@ || x == "-b:a"@ || x == "-q:a"@
}

/// `x` is one of the texts that an edit job takes from its caller and hands
/// to the transcoder as they are: the input path, the output path, and,
/// where the job uses them, the time strings and the codec and preset names.
pub open spec fn is_handed_through(
    options: &VideoEditOptions,
    output_path: Seq<char>,
    x: Seq<char>,
) -> bool {
    ||| x == options.input_video_path@
    ||| x == output_path
    ||| options.cut_options_enabled && x == options.cut_options.starting_time_string@
    ||| options.cut_options_enabled && x == options.cut_options.end_time_string@
    ||| options.compression_enabled && x == options.compression_options.codec@
    ||| options.compression_enabled && x == options.compression_options.preset@
    ||| options.compression_enabled && options.process_audio && x
        == options.compression_options.audio_codec@
}

/// Every argument in `arguments` meets `p`.
pub open spec fn every(arguments: Seq<Seq<char>>, p: spec_fn(Seq<char>) -> bool) -> bool {
    forall|i: int| 0 <= i < arguments.len() ==> p(#[trigger] arguments[i])
}

proof fn lemma_every_add(a: Seq<Seq<char>>, b: Seq<Seq<char>>, p: spec_fn(Seq<char>) -> bool)
    requires
        every(a, p),
        every(b, p),
    ensures
        every(a + b, p),
{
    assert forall|i: int| 0 <= i < (a + b).len() implies p(#[trigger] (a + b)[i]) by {
        if i < a.len() {
            assert((a + b)[i] == a[i]);
        } else {
            assert((a + b)[i] == b[i - a.len()]);
        }
    }
}

/// The numeral of an integer starts with a digit, or with `-` and then a
/// digit.
proof fn lemma_int_text_shape(i: int)
    ensures
        int_text(i).len() >= 1,
        is_digit(int_text(i)[0]) || (int_text(i)[0] == '-' && int_text(i).len() >= 2 && is_digit(
            int_text(i)[1],
        )),
{
    if i < 0 {
        lemma_decimal_round_trip((-i) as nat);
    } else {
        lemma_decimal_round_trip(i as nat);
    }
}

/// What the fixed arguments and the flags hold, character by character.
proof fn lemma_fixed_texts()
    ensures
        "-i"@ == seq!['-', 'i'],
        "-ss"@ == seq!['-', 's', 's'],
        "-to"@ == seq!['-', 't', 'o'],
        "-vf"@ == seq!['-', 'v', 'f'],
        "-c:v"@ == seq!['-', 'c', ':', 'v'],
        "-preset"@ == seq!['-', 'p', 'r', 'e', 's', 'e', 't'],
        "-crf"@ == seq!['-', 'c', 'r', 'f'],
        "-b:v"@ == seq!['-', 'b', ':', 'v'],
        "-an"@ == seq!['-', 'a', 'n'],
        "-c:a"@ == seq!['-', 'c', ':', 'a'],
        "-q:a"@ == seq!['-', 'q', ':', 'a'],
        "-b:a"@ == seq!['-', 'b', ':', 'a'],
        "0"@ == seq!['0'],
        "-progress"@ == seq!['-', 'p', 'r', 'o', 'g', 'r', 'e', 's', 's'],
        "-"@ == seq!['-'],
        "-loglevel"@ == seq!['-', 'l', 'o', 'g', 'l', 'e', 'v', 'e', 'l'],
        "error"@ == seq!['e', 'r', 'r', 'o', 'r'],
        "crop="@ == seq!['c', 'r', 'o', 'p', '='],
        "scale="@ == seq!['s', 'c', 'a', 'l', 'e', '='],
        "k"@ == seq!['k'],
        "M"@ == seq!['M'],
        ":"@ == seq![':'],
{
    reveal_strlit("-i");
    reveal_strlit("-ss");
    reveal_strlit("-to");
    reveal_strlit("-vf");
    reveal_strlit("-c:v");
    reveal_strlit("-preset");
    reveal_strlit("-crf");
    reveal_strlit("-b:v");
    reveal_strlit("-an");
    reveal_strlit("-c:a");
    reveal_strlit("-q:a");
    reveal_strlit("-b:a");
    reveal_strlit("0");
    reveal_strlit("-progress");
    reveal_strlit("-");
    reveal_strlit("-loglevel");
    reveal_strlit("error");
    reveal_strlit("crop=");
    reveal_strlit("scale=");
    reveal_strlit("k");
    reveal_strlit("M");
    reveal_strlit(":");
}

/// A text that does not start with `s` is no scale filter, and a text whose
/// first two characters are not `-` and one of `c`, `b`, `q` is no audio
/// flag.
proof fn lemma_by_first_chars(x: Seq<char>)
    ensures
        x.len() == 0 || x[0] != 's' ==> !is_scale_filter(x),
        x.len() < 2 || x[0] != '-' || (x[1] != 'c' && x[1] != 'b' && x[1] != 'q')
            ==> !is_audio_flag(x),
{
    lemma_fixed_texts();
    if is_scale_filter(x) {
        assert(x.take(6)[0] == x[0]);
    }
}

/// None of the arguments that the builder makes itself, but the scale
/// filter, has the form of a scale filter; none of them, but the three audio
/// flags, reads as an audio flag.
proof fn lemma_made_arguments(options: &VideoEditOptions)
    ensures
        !is_scale_filter("-i"@) && !is_audio_flag("-i"@),
        !is_scale_filter("-ss"@) && !is_audio_flag("-ss"@),
        !is_scale_filter("-to"@) && !is_audio_flag("-to"@),
        !is_scale_filter("-vf"@) && !is_audio_flag("-vf"@),
        !is_scale_filter("-c:v"@) && !is_audio_flag("-c:v"@),
        !is_scale_filter("-preset"@) && !is_audio_flag("-preset"@),
        !is_scale_filter("-crf"@) && !is_audio_flag("-crf"@),
        !is_scale_filter("-b:v"@) && !is_audio_flag("-b:v"@),
        !is_scale_filter("-an"@) && !is_audio_flag("-an"@),
        !is_scale_filter("0"@) && !is_audio_flag("0"@),
        !is_scale_filter("-progress"@) && !is_audio_flag("-progress"@),
        !is_scale_filter("-"@) && !is_audio_flag("-"@),
        !is_scale_filter("-loglevel"@) && !is_audio_flag("-loglevel"@),
        !is_scale_filter("error"@) && !is_audio_flag("error"@),
        !is_scale_filter("-c:a"@) && !is_scale_filter("-q:a"@) && !is_scale_filter("-b:a"@),
        !is_audio_flag(scale_filter(options.resize_options)),
        !is_scale_filter(crop_filter(options.crop_options)) && !is_audio_flag(
            crop_filter(options.crop_options),
        ),
        !is_scale_filter(int_text(options.compression_options.crf as int)) && !is_audio_flag(
            int_text(options.compression_options.crf as int),
        ),
        !is_scale_filter(video_bitrate_text(&options.compression_options)) && !is_audio_flag(
            video_bitrate_text(&options.compression_options),
        ),
        !is_scale_filter(audio_bitrate_text(options.compression_options.audio_bitrate as int))
            && !is_audio_flag(
            audio_bitrate_text(options.compression_options.audio_bitrate as int),
        ),
{
    lemma_fixed_texts();
    lemma_by_first_chars("-i"@);
    lemma_by_first_chars("-ss"@);
    lemma_by_first_chars("-to"@);
    lemma_by_first_chars("-vf"@);
    lemma_by_first_chars("-c:v"@);
    lemma_by_first_chars("-preset"@);
    lemma_by_first_chars("-crf"@);
    lemma_by_first_chars("-b:v"@);
    lemma_by_first_chars("-an"@);
    lemma_by_first_chars("0"@);
    lemma_by_first_chars("-progress"@);
    lemma_by_first_chars("-"@);
    lemma_by_first_chars("-loglevel"@);
    lemma_by_first_chars("error"@);
    lemma_by_first_chars("-c:a"@);
    lemma_by_first_chars("-q:a"@);
    lemma_by_first_chars("-b:a"@);
    let scale = scale_filter(options.resize_options);
    lemma_by_first_chars(scale);
    let crop = crop_filter(options.crop_options);
    lemma_by_first_chars(crop);
    let compression = &options.compression_options;
    let factor = int_text(compression.crf as int);
    lemma_int_text_shape(compression.crf as int);
    lemma_by_first_chars(factor);
    let rate = video_bitrate_text(compression);
    lemma_int_text_shape(compression.bitrate as int);
    lemma_by_first_chars(rate);
    let audio = audio_bitrate_text(compression.audio_bitrate as int);
    lemma_int_text_shape(compression.audio_bitrate as int);
    lemma_by_first_chars(audio);
}

/// Where each segment of a job's arguments meets `p`, and the output path
/// does, all of the job's arguments do.
proof fn lemma_every_segment(
    options: &VideoEditOptions,
    output_path: Seq<char>,
    p: spec_fn(Seq<char>) -> bool,
)
    requires
        every(input_segment(options), p),
        every(cut_segment(options), p),
        every(crop_segment(options), p),
        every(compression_segment(options), p),
        every(audio_segment(options), p),
        every(resize_segment(options), p),
        every(progress_segment(), p),
        p(output_path),
    ensures
        every(video_arguments(options, output_path), p),
{
    let a1 = input_segment(options) + cut_segment(options);
    lemma_every_add(input_segment(options), cut_segment(options), p);
    let a2 = a1 + crop_segment(options);
    lemma_every_add(a1, crop_segment(options), p);
    let a3 = a2 + compression_segment(options);
    lemma_every_add(a2, compression_segment(options), p);
    let a4 = a3 + audio_segment(options);
    lemma_every_add(a3, audio_segment(options), p);
    let a5 = a4 + resize_segment(options);
    lemma_every_add(a4, resize_segment(options), p);
    let a6 = a5 + progress_segment();
    lemma_every_add(a5, progress_segment(), p);
    lemma_every_add(a6, seq![output_path], p);
}

/// Where cropping is enabled, resizing has no effect: no scale segment is
/// made, the crop filter stands among the arguments behind its flag, and an
/// argument of the form of a scale filter can only be one of the texts
/// handed through from the caller.
pub proof fn lemma_crop_excludes_scale(options: &VideoEditOptions, output_path: Seq<char>)
    requires
        options.crop_enabled,
    ensures
        resize_segment(options) == Seq::<Seq<char>>::empty(),
        video_arguments(options, output_path) == input_segment(options) + cut_segment(options)
            + seq!["-vf"@, crop_filter(options.crop_options)] + compression_segment(options)
            + audio_segment(options) + progress_segment() + seq![output_path],
        exists|i: int|
            0 <= i && i + 1 < video_arguments(options, output_path).len() && video_arguments(
                options,
                output_path,
            )[i] == "-vf"@ && #[trigger] video_arguments(options, output_path)[i + 1]
                == crop_filter(options.crop_options),
        forall|i: int|
            0 <= i < video_arguments(options, output_path).len() && is_scale_filter(
                #[trigger] video_arguments(options, output_path)[i],
            ) ==> is_handed_through(options, output_path, video_arguments(options, output_path)[i]),
{
    let arguments = video_arguments(options, output_path);
    let stem = input_segment(options) + cut_segment(options);
    let at = stem.len() as int;
    assert(arguments[at + 1] == crop_filter(options.crop_options));
    let p = |x: Seq<char>| is_scale_filter(x) ==> is_handed_through(options, output_path, x);
    lemma_made_arguments(options);
    lemma_every_segment(options, output_path, p);
    assert forall|i: int| 0 <= i < arguments.len() && is_scale_filter(
        #[trigger] arguments[i],
    ) implies is_handed_through(options, output_path, arguments[i]) by {
        assert(p(arguments[i]));
    }
}

/// Where audio is not processed, the audio stream is dropped: the audio
/// segment is the flag that disables audio, which stands among the
/// arguments, and an argument that reads as a flag for an audio codec,
/// bitrate or quality can only be one of the texts handed through from the
/// caller.
pub proof fn lemma_no_audio_flags(options: &VideoEditOptions, output_path: Seq<char>)
    requires
        !options.process_audio,
    ensures
        audio_segment(options) == seq!["-an"@],
        exists|i: int|
            0 <= i < video_arguments(options, output_path).len() && #[trigger] video_arguments(
                options,
                output_path,
            )[i] == "-an"@,
        forall|i: int|
            0 <= i < video_arguments(options, output_path).len() && is_audio_flag(
                #[trigger] video_arguments(options, output_path)[i],
            ) ==> is_handed_through(options, output_path, video_arguments(options, output_path)[i]),
{
    let arguments = video_arguments(options, output_path);
    let stem = input_segment(options) + cut_segment(options) + crop_segment(options)
        + compression_segment(options);
    assert(arguments[stem.len() as int] == "-an"@);
    let p = |x: Seq<char>| is_audio_flag(x) ==> is_handed_through(options, output_path, x);
    lemma_made_arguments(options);
    lemma_every_segment(options, output_path, p);
    assert forall|i: int| 0 <= i < arguments.len() && is_audio_flag(
        #[trigger] arguments[i],
    ) implies is_handed_through(options, output_path, arguments[i]) by {
        assert(p(arguments[i]));
    }
}

} // verus!
