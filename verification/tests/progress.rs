use videocrop::progress::{
    clear_video_progress, get_video_progress_info, parse_progress_line, percent_done,
    VideoEditProgress,
};
use videocrop::timecode::Seconds;

fn hundred_seconds() -> Seconds {
    Seconds { micros: 100_000_000 }
}

fn state(progress: &VideoEditProgress) -> (u8, bool, Option<String>) {
    (progress.progress(), progress.working(), progress.last_error())
}

#[test]
fn starts_idle() {
    assert_eq!(state(&VideoEditProgress::new()), (0, false, None));
}

#[test]
fn half_way() {
    let mut progress = VideoEditProgress::new();
    progress.start();
    assert_eq!(state(&progress), (0, true, None));
    progress.record_line("out_time_us=50000000", hundred_seconds());
    assert_eq!(state(&progress), (50, true, None));
}

#[test]
fn held_at_ninety_nine_until_success() {
    let mut progress = VideoEditProgress::new();
    progress.start();
    progress.record_line("out_time_us=100000000", hundred_seconds());
    assert_eq!(state(&progress), (99, true, None));
    progress.record_line("out_time_us=250000000", hundred_seconds());
    assert_eq!(state(&progress), (99, true, None));
    progress.record_line("out_time_us=99500000", hundred_seconds());
    assert_eq!(state(&progress), (99, true, None));
    progress.finish(true, "exit status: 0");
    assert_eq!(state(&progress), (100, false, None));
}

#[test]
fn other_lines_are_skipped() {
    let mut progress = VideoEditProgress::new();
    progress.start();
    progress.record_line("out_time_us=25000000", hundred_seconds());
    for line in [
        "frame=120",
        "out_time=00:00:25.000000",
        "out_time_ms=25000000",
        "progress=continue",
        "",
        " out_time_us=70000000",
        "OUT_TIME_US=70000000",
        "out_time_us=N/A",
        "out_time_us=",
        "out_time_us=-5",
        "out_time_us= 70000000",
        "out_time_us=70000000 ",
        "out_time_us=7.5",
        "out_time_us=18446744073709551616",
        "out_time_us",
    ] {
        progress.record_line(line, hundred_seconds());
        assert_eq!(state(&progress), (25, true, None), "{:?}", line);
    }
}

#[test]
fn values_of_progress_lines() {
    assert_eq!(parse_progress_line("out_time_us=0"), Some(0));
    assert_eq!(parse_progress_line("out_time_us=50000000"), Some(50_000_000));
    assert_eq!(parse_progress_line("out_time_us=+12"), Some(12));
    assert_eq!(parse_progress_line("out_time_us=007"), Some(7));
    assert_eq!(parse_progress_line("out_time_us=12=34"), Some(12));
    assert_eq!(parse_progress_line("out_time_us=18446744073709551615"), Some(u64::MAX));
    assert_eq!(parse_progress_line("out_time_us=18446744073709551616"), None);
    assert_eq!(parse_progress_line("out_time_us==5"), None);
    assert_eq!(parse_progress_line("out_time_us=+"), None);
    assert_eq!(parse_progress_line("bitrate=12"), None);
}

#[test]
fn percent_is_rounded() {
    let expected = hundred_seconds();
    assert_eq!(percent_done(0, expected), 0);
    assert_eq!(percent_done(499_999, expected), 0);
    assert_eq!(percent_done(500_000, expected), 1);
    assert_eq!(percent_done(1_499_999, expected), 1);
    assert_eq!(percent_done(1_500_000, expected), 2);
    assert_eq!(percent_done(98_499_999, expected), 98);
    assert_eq!(percent_done(98_500_000, expected), 99);
    assert_eq!(percent_done(99_499_999, expected), 99);
    assert_eq!(percent_done(99_500_000, expected), 99);
    assert_eq!(percent_done(u64::MAX, expected), 99);
    assert_eq!(percent_done(1, Seconds { micros: 3 }), 33);
    assert_eq!(percent_done(2, Seconds { micros: 3 }), 67);
    assert_eq!(percent_done(u64::MAX - 1, Seconds { micros: u64::MAX }), 99);
    assert_eq!(percent_done(u64::MAX / 2, Seconds { micros: u64::MAX }), 50);
}

#[test]
fn nothing_expected() {
    let none = Seconds { micros: 0 };
    assert_eq!(percent_done(0, none), 0);
    assert_eq!(percent_done(1, none), 99);
    assert_eq!(percent_done(u64::MAX, none), 99);
}

#[test]
fn trimmed_job_is_measured_against_its_window() {
    let mut progress = VideoEditProgress::new();
    progress.start();
    progress.record_line("out_time_us=1000000", Seconds { micros: 4_000_000 });
    assert_eq!(progress.progress(), 25);
}

#[test]
fn failed_exit_is_recorded() {
    let mut progress = VideoEditProgress::new();
    progress.start();
    progress.record_line("out_time_us=50000000", hundred_seconds());
    progress.finish(false, "exit status: 1");
    assert_eq!(state(&progress), (0, false, Some(String::from("exit status: 1"))));
}

#[test]
fn success_does_not_hide_an_error() {
    let mut progress = VideoEditProgress::new();
    progress.fail_to_start("program not found");
    assert_eq!(state(&progress), (0, false, Some(String::from("program not found"))));
    progress.finish(true, "exit status: 0");
    assert_eq!(state(&progress), (0, false, Some(String::from("program not found"))));
}

#[test]
fn start_clears_the_last_error() {
    let mut progress = VideoEditProgress::new();
    progress.finish(false, "exit status: 1");
    progress.start();
    assert_eq!(state(&progress), (0, true, None));
}

#[test]
fn cleared_after_the_end() {
    let mut progress = VideoEditProgress::new();
    progress.start();
    progress.finish(true, "");
    clear_video_progress(&mut progress);
    assert_eq!(state(&progress), (0, false, None));
    progress.finish(false, "exit status: 1");
    clear_video_progress(&mut progress);
    assert_eq!(state(&progress), (0, false, None));
}

#[test]
fn poller_gets_a_copy() {
    let mut progress = VideoEditProgress::new();
    progress.start();
    progress.record_line("out_time_us=10000000", hundred_seconds());
    let copy = get_video_progress_info(&progress);
    progress.finish(false, "exit status: 1");
    assert_eq!(state(&copy), (10, true, None));
    assert_eq!(state(&get_video_progress_info(&progress)), state(&progress));
}

#[test]
fn percent_agrees_with_rounding_the_share() {
    let mut seed: u64 = 0x1234_5678_9ABC_DEF1;
    for _ in 0..20000 {
        seed ^= seed << 13;
        seed ^= seed >> 7;
        seed ^= seed << 17;
        let expected = 1 + seed % 1_000_000;
        let elapsed = (seed >> 20) % 1_200_000;
        let doubled = (200 * elapsed + expected) / (2 * expected);
        let share = if doubled >= 100 { 99 } else { doubled as u8 };
        assert_eq!(percent_done(elapsed, Seconds { micros: expected }), share);
        let float = ((elapsed as f64 / expected as f64) * 100.0).round();
        if (200 * elapsed + expected) % (2 * expected) != 0 && (200 * elapsed) % expected != 0 {
            let held = if float >= 100.0 { 99.0 } else { float };
            assert_eq!(f64::from(share), held, "{} of {}", elapsed, expected);
        }
    }
}
