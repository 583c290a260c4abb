use videocrop::options::{
    ResizeOptions, VideoCompressionOptions, VideoCropPoints, VideoCutOptions, VideoEditOptions,
};
use videocrop::output::{
    audio_output_extension, audio_output_stem, fallback_output_stem,
    get_audio_extension_based_on_codec, get_unique_filename, is_taken, unique_candidate,
    video_output_stem, VIDEO_EXTENSION,
};

fn names(list: &[&str]) -> Vec<String> {
    list.iter().map(|name| name.to_string()).collect()
}

fn audio_job(compression_enabled: bool, audio_codec: &str) -> VideoEditOptions {
    VideoEditOptions {
        input_video_path: String::from("clip.mp4"),
        output_video_path: String::from("out"),
        cut_options_enabled: false,
        cut_options: VideoCutOptions {
            starting_time_string: String::new(),
            end_time_string: String::new(),
        },
        crop_enabled: false,
        crop_options: VideoCropPoints {
            starting_x_offset: 0,
            starting_y_offset: 0,
            width: 0,
            height: 0,
        },
        compression_enabled,
        compression_options: VideoCompressionOptions {
            codec: String::from("libx264"),
            preset: String::from("fast"),
            using_crf: true,
            crf: 20,
            bitrate: 0,
            audio_codec: String::from(audio_codec),
            audio_bitrate: 0,
            bitrate_type: 1,
        },
        resize_enabled: false,
        resize_options: ResizeOptions { width: 0, height: 0 },
        process_audio: true,
    }
}

fn is_identifier(text: &str) -> bool {
    text.len() == 36
        && text.chars().enumerate().all(|(i, c)| {
            if i == 8 || i == 13 || i == 18 || i == 23 {
                c == '-'
            } else {
                c.is_ascii_digit() || ('a'..='f').contains(&c)
            }
        })
}

#[test]
fn extension_by_codec() {
    assert_eq!(get_audio_extension_based_on_codec("aac"), "m4a");
    assert_eq!(get_audio_extension_based_on_codec("libmp3lame"), "mp3");
    assert_eq!(get_audio_extension_based_on_codec("libopus"), "opus");
    assert_eq!(get_audio_extension_based_on_codec("flac"), "mp3");
    assert_eq!(get_audio_extension_based_on_codec(""), "mp3");
    assert_eq!(get_audio_extension_based_on_codec("AAC"), "mp3");
    assert_eq!(get_audio_extension_based_on_codec("copy"), "mp3");
}

#[test]
fn extension_of_an_extraction() {
    assert_eq!(audio_output_extension(&audio_job(true, "aac")), "m4a");
    assert_eq!(audio_output_extension(&audio_job(true, "libopus")), "opus");
    assert_eq!(audio_output_extension(&audio_job(true, "copy")), "mp3");
    assert_eq!(audio_output_extension(&audio_job(false, "aac")), "mp3");
    assert_eq!(audio_output_extension(&audio_job(false, "libopus")), "mp3");
}

#[test]
fn video_extension_is_mp4() {
    assert_eq!(VIDEO_EXTENSION, "mp4");
}

#[test]
fn output_is_named_after_the_input() {
    assert_eq!(video_output_stem(Some("clip")), "clip_VideoCrop");
    assert_eq!(video_output_stem(Some("")), "_VideoCrop");
    assert_eq!(audio_output_stem("clip"), "clip_VideoCrop_Audio");
}

#[test]
fn nameless_input_gets_a_random_name() {
    let stem = video_output_stem(None);
    assert!(stem.starts_with("VideoCrop_"));
    assert!(is_identifier(&stem["VideoCrop_".len()..]), "{}", stem);
    assert_ne!(video_output_stem(None), stem);
}

#[test]
fn fallback_name_holds_the_identifier() {
    assert_eq!(fallback_output_stem("abc"), "VideoCrop_abc");
}

#[test]
fn candidates_count_up() {
    assert_eq!(unique_candidate("clip_VideoCrop", "mp4", 0), "clip_VideoCrop.mp4");
    assert_eq!(unique_candidate("clip_VideoCrop", "mp4", 1), "clip_VideoCrop_1.mp4");
    assert_eq!(unique_candidate("clip_VideoCrop", "mp4", 10), "clip_VideoCrop_10.mp4");
    assert_eq!(unique_candidate("a", "", 3), "a_3.");
    assert_eq!(unique_candidate("a", "b", u64::MAX), "a_18446744073709551615.b");
}

#[test]
fn free_name_is_kept() {
    assert_eq!(get_unique_filename("clip_VideoCrop", "mp4", &names(&[])), "clip_VideoCrop.mp4");
    assert_eq!(
        get_unique_filename(
            "clip_VideoCrop",
            "mp4",
            &names(&["other.mp4", "clip_VideoCrop_1.mp4"])
        ),
        "clip_VideoCrop.mp4"
    );
}

#[test]
fn taken_name_gets_a_counter() {
    let mut taken = names(&["clip_VideoCrop.mp4"]);
    assert_eq!(get_unique_filename("clip_VideoCrop", "mp4", &taken), "clip_VideoCrop_1.mp4");
    taken.push(String::from("clip_VideoCrop_1.mp4"));
    assert_eq!(get_unique_filename("clip_VideoCrop", "mp4", &taken), "clip_VideoCrop_2.mp4");
}

#[test]
fn first_free_counter_is_taken() {
    let taken = names(&[
        "clip_3.mp4",
        "clip.mp4",
        "clip_1.mp4",
        "clip_1.mp4",
        "clip_2.mp4",
        "clip_5.mp4",
    ]);
    assert_eq!(get_unique_filename("clip", "mp4", &taken), "clip_4.mp4");
}

#[test]
fn many_taken_names() {
    let mut taken = vec![String::from("v.mp4")];
    for k in 1..=25 {
        taken.push(format!("v_{}.mp4", k));
    }
    assert_eq!(get_unique_filename("v", "mp4", &taken), "v_26.mp4");
}

#[test]
fn taken_is_by_whole_name() {
    let taken = names(&["clip.mp4", "xclip_1.mp4", "clip_1.mp4x"]);
    assert!(is_taken(&taken, "clip.mp4"));
    assert!(!is_taken(&taken, "clip_1.mp4"));
    assert!(!is_taken(&taken, "clip"));
    assert_eq!(get_unique_filename("clip", "mp4", &taken), "clip_1.mp4");
}

#[test]
fn candidates_agree_with_formatting() {
    for attempt in [1_u64, 2, 9, 10, 99, 100, 12345, u64::MAX] {
        assert_eq!(
            unique_candidate("clip_VideoCrop", "mp4", attempt),
            format!("{}_{}.{}", "clip_VideoCrop", attempt, "mp4")
        );
    }
}
