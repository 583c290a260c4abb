//! The description of one edit job, and what a probe reports of a file.

use vstd::prelude::*;
use vstd::string::*;

verus! {

/// What the probe tool reports of a media file.
#[derive(Clone, Debug)]
pub struct VideoInfo {
    pub width: u32,
    pub height: u32,
    /// The container duration as the probe tool prints it, `H:MM:SS.ffffff`.
    pub duration: String,
    pub aspect_ratio_width: u32,
    pub aspect_ratio_height: u32,
}

/// One edit job. `output_video_path` names the directory that the result
/// goes to. Where `crop_enabled` holds, `resize_enabled` has no effect.
#[derive(Clone, Debug)]
pub struct VideoEditOptions {
    pub input_video_path: String,
    pub output_video_path: String,
    pub cut_options_enabled: bool,
    pub cut_options: VideoCutOptions,
    pub crop_enabled: bool,
    pub crop_options: VideoCropPoints,
    pub compression_enabled: bool,
    pub compression_options: VideoCompressionOptions,
    pub resize_enabled: bool,
    pub resize_options: ResizeOptions,
    pub process_audio: bool,
}

/// The trim window, as the user typed it.
#[derive(Clone, Debug)]
pub struct VideoCutOptions {
    pub starting_time_string: String,
    pub end_time_string: String,
}

/// A pixel rectangle.
#[derive(Clone, Copy, Debug)]
pub struct VideoCropPoints {
    pub starting_x_offset: i32,
    pub starting_y_offset: i32,
    pub width: i32,
    pub height: i32,
}

/// How to encode. `bitrate_type` is a unit code, see
/// [`get_bitrate_type_from_int`]; `audio_bitrate` is in kilobits per second.
#[derive(Clone, Debug)]
pub struct VideoCompressionOptions {
    pub codec: String,
    pub preset: String,
    pub using_crf: bool,
    pub crf: i32,
    pub bitrate: i32,
    pub audio_codec: String,
    pub audio_bitrate: i32,
    pub bitrate_type: i32,
}

/// The frame size to scale to.
#[derive(Clone, Copy, Debug)]
pub struct ResizeOptions {
    pub width: i32,
    pub height: i32,
}

/// The suffix that stands for a bitrate unit code.
pub open spec fn bitrate_unit(code: int) -> Seq<char> {
    if code == 2 {
        "M"@
    } else {
        "k"@
    }
}

/// The bitrate unit suffix for a unit code: `M` for 2, `k` for 1 and for
/// every other code.
pub fn get_bitrate_type_from_int(passed_type: i32) -> (unit: String)
    ensures
        unit@ == bitrate_unit(passed_type as int),
{
    if passed_type == 2 {
        String::from_str("M")
    } else {
        String::from_str("k")
    }
}

} // verus!
