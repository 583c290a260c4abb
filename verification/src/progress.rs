//! The progress of a job: the snapshot that pollers read, the parser of the
//! transcoder's progress channel, and what the supervisor writes when a job
//! starts, reports, and ends.
//!
//! The percentage is a whole number. While a job runs it stays at or below
//! 99; 100 is written only when the transcoder has exited with success.

use vstd::prelude::*;
use vstd::string::*;
use crate::text::{
    chars_of, find_from, first_index_of, has_prefix, is_unsigned, parse_u64, slice_of,
    starts_with, unsigned_value,
};
use crate::timecode::Seconds;

verus! {

/// How long the state in which a job ended stays to be read, in seconds,
/// before the snapshot is reset to idle.
pub const CLEAR_DELAY_SECONDS: u64 = 1;

/// A snapshot of a job's progress, as a value of plain data.
pub struct ProgressView {
    pub percent: nat,
    pub working: bool,
    pub last_error: Option<Seq<char>>,
}

/// The progress of the job in flight: a percentage, whether a job is
/// running, and the error that the last job ended with.
#[derive(Debug)]
pub struct VideoEditProgress {
    progress: u8,
    working: bool,
    last_error: Option<String>,
}

impl View for VideoEditProgress {
    type V = ProgressView;

    closed spec fn view(&self) -> ProgressView {
        ProgressView {
            percent: self.progress as nat,
            working: self.working,
            last_error: match self.last_error {
                Some(text) => Some(text@),
                None => None,
            },
        }
    }
}

/// The snapshot when no job is running and none has left an error.
pub open spec fn idle_progress() -> ProgressView {
    ProgressView { percent: 0, working: false, last_error: None }
}

/// The snapshot when a job has just started.
pub open spec fn started_progress() -> ProgressView {
    ProgressView { percent: 0, working: true, last_error: None }
}

/// The snapshot when a job has succeeded.
pub open spec fn succeeded_progress() -> ProgressView {
    ProgressView { percent: 100, working: false, last_error: None }
}

/// The snapshot when a job has failed with the given error.
pub open spec fn failed_progress(error: Seq<char>) -> ProgressView {
    ProgressView { percent: 0, working: false, last_error: Some(error) }
}

/// What holds of every snapshot: the percentage is at most 100, and it is
/// 100 only when no job is running and no error is recorded.
pub open spec fn is_consistent(snapshot: ProgressView) -> bool {
    &&& snapshot.percent <= 100
    &&& snapshot.percent == 100 ==> !snapshot.working && snapshot.last_error is None
}

/// The key of the progress line that reports the elapsed output time.
pub open spec fn elapsed_key() -> Seq<char> {
    "out_time_us="@
}

/// The value of an elapsed-time line: what stands between the key and the
/// next `=`, or the end of the line.
pub open spec fn elapsed_field(line: Seq<char>) -> Seq<char> {
    let rest = line.skip(elapsed_key().len() as int);
    rest.take(first_index_of(rest, '='))
}

/// The elapsed output time in microseconds that a line of the progress
/// channel reports. Lines with another key, and lines whose value is no
/// unsigned integer of 64 bits, report none.
pub open spec fn elapsed_micros(line: Seq<char>) -> Option<nat> {
    if starts_with(line, elapsed_key()) && is_unsigned(elapsed_field(line)) && unsigned_value(
        elapsed_field(line),
    ) <= u64::MAX {
        Some(unsigned_value(elapsed_field(line)))
    } else {
        None
    }
}

/// `numerator / denominator` rounded to the nearest whole number, halves
/// up.
pub open spec fn rounded_ratio(numerator: nat, denominator: nat) -> nat
    recommends
        denominator > 0,
{
    ((2 * numerator + denominator) / (2 * denominator)) as nat
}

/// The percentage shown while a job runs: the elapsed time as a share of
/// the expected duration, rounded, and held at 99 from 100 on. With an
/// expected duration of zero the share is unbounded as soon as any time has
/// elapsed, so 99 is shown; until then 0.
pub open spec fn percent_of(elapsed: nat, expected: nat) -> nat {
    if expected == 0 {
        if elapsed == 0 {
            0
        } else {
            99
        }
    } else if rounded_ratio(100 * elapsed, expected) >= 100 {
        99
    } else {
        rounded_ratio(100 * elapsed, expected)
    }
}

/// The percentage of a running job never reaches 100, and it is 99 once the
/// elapsed time has reached the expected duration.
pub proof fn lemma_percent_held_below_hundred(elapsed: nat, expected: nat)
    ensures
        percent_of(elapsed, expected) <= 99,
        elapsed >= expected && elapsed > 0 ==> percent_of(elapsed, expected) == 99,
{
    if expected > 0 && elapsed >= expected {
        assert((2 * (100 * elapsed) + expected) / (2 * expected) >= 100) by (nonlinear_arith)
            requires
                expected > 0,
                elapsed >= expected,
        ;
    }
}

/// The snapshot after a line of the progress channel has been read: a line
/// that reports the elapsed time sets the percentage, every other line
/// changes nothing.
pub open spec fn after_line(
    snapshot: ProgressView,
    line: Seq<char>,
    expected: nat,
) -> ProgressView {
    match elapsed_micros(line) {
        Some(elapsed) => ProgressView { percent: percent_of(elapsed, expected), ..snapshot },
        None => snapshot,
    }
}

/// The snapshot after the transcoder has exited: failed with the description
/// of the exit; or, on success with no error recorded, succeeded; or, on
/// success with an error recorded, unchanged.
pub open spec fn after_exit(
    snapshot: ProgressView,
    success: bool,
    description: Seq<char>,
) -> ProgressView {
    if !success {
        failed_progress(description)
    } else if snapshot.last_error is None {
        succeeded_progress()
    } else {
        snapshot
    }
}

/// Every step of the supervisor keeps the snapshot consistent, and no line
/// of the progress channel brings the percentage to 100: it is 100 only
/// after the transcoder has exited with success.
pub proof fn lemma_hundred_only_on_success(
    snapshot: ProgressView,
    line: Seq<char>,
    expected: nat,
    success: bool,
    description: Seq<char>,
)
    requires
        is_consistent(snapshot),
    ensures
        is_consistent(idle_progress()),
        is_consistent(started_progress()),
        is_consistent(failed_progress(description)),
        is_consistent(after_line(snapshot, line, expected)),
        is_consistent(after_exit(snapshot, success, description)),
        elapsed_micros(line) is Some ==> after_line(snapshot, line, expected).percent <= 99,
        snapshot.percent < 100 ==> after_line(snapshot, line, expected).percent < 100,
        snapshot.percent < 100 && after_exit(snapshot, success, description).percent == 100
            ==> success,
{
    match elapsed_micros(line) {
        Some(elapsed) => {
            lemma_percent_held_below_hundred(elapsed, expected);
        },
        None => {},
    }
}

/// The snapshot after the lines of the progress channel have been read one
/// after the other.
pub open spec fn after_lines(
    snapshot: ProgressView,
    lines: Seq<Seq<char>>,
    expected: nat,
) -> ProgressView
    decreases lines.len(),
{
    if lines.len() == 0 {
        snapshot
    } else {
        after_line(after_lines(snapshot, lines.drop_last(), expected), lines.last(), expected)
    }
}

/// Whatever the transcoder writes to its progress channel, a job that has
/// started stays running, without an error, and at or below 99 percent
/// until its process has exited.
pub proof fn lemma_running_until_exit(lines: Seq<Seq<char>>, expected: nat)
    ensures
        after_lines(started_progress(), lines, expected).working,
        after_lines(started_progress(), lines, expected).last_error is None,
        after_lines(started_progress(), lines, expected).percent <= 99,
    decreases lines.len(),
{
    if lines.len() > 0 {
        lemma_running_until_exit(lines.drop_last(), expected);
        match elapsed_micros(lines.last()) {
            Some(elapsed) => {
                lemma_percent_held_below_hundred(elapsed, expected);
            },
            None => {},
        }
    }
}

/// The elapsed output time that a line of the progress channel reports.
pub fn parse_progress_line(line: &str) -> (elapsed: Option<u64>)
    ensures
        match elapsed {
            Some(micros) => elapsed_micros(line@) == Some(micros as nat),
            None => elapsed_micros(line@) is None,
        },
{
    let chars = chars_of(line);
    let key = chars_of("out_time_us=");
    proof {
        reveal_strlit("out_time_us=");
    }
    if !has_prefix(&chars, &key) {
        return None;
    }
    let end = find_from(&chars, 12, '=');
    let field = slice_of(&chars, 12, end);
    assert(field@ =~= elapsed_field(line@));
    parse_u64(&field)
}

/// The percentage to show for a running job.
pub fn percent_done(elapsed_micros: u64, expected: Seconds) -> (percent: u8)
    ensures
        percent == percent_of(elapsed_micros as nat, expected.micros as nat),
{
    proof {
        lemma_percent_held_below_hundred(elapsed_micros as nat, expected.micros as nat);
    }
    if expected.micros == 0 {
        if elapsed_micros == 0 {
            0
        } else {
            99
        }
    } else {
        let numerator: u128 = 2 * (100 * (elapsed_micros as u128)) + expected.micros as u128;
        let denominator: u128 = 2 * (expected.micros as u128);
        let rounded: u128 = numerator / denominator;
        if rounded >= 100 {
            99
        } else {
            rounded as u8
        }
    }
}

impl VideoEditProgress {
    /// The snapshot of an idle supervisor.
    pub fn new() -> (progress: VideoEditProgress)
        ensures
            progress@ == idle_progress(),
    {
        VideoEditProgress { progress: 0, working: false, last_error: None }
    }

    #[verifier::type_invariant]
    spec fn consistent(self) -> bool {
        &&& self.progress <= 100
        &&& self.progress == 100 ==> !self.working && self.last_error is None
    }

    /// The percentage, from 0 to 100. It is 100 only when no job is running
    /// and no error is recorded: that holds of every snapshot.
    pub fn progress(&self) -> (percent: u8)
        ensures
            percent == self@.percent,
            is_consistent(self@),
    {
        proof {
            use_type_invariant(self);
        }
        self.progress
    }

    /// Whether a job is running.
    pub fn working(&self) -> (working: bool)
        ensures
            working == self@.working,
    {
        self.working
    }

    /// The error that the last job ended with, where it failed.
    pub fn last_error(&self) -> (error: Option<String>)
        ensures
            match (error, self@.last_error) {
                (Some(text), Some(expected)) => text@ == expected,
                (None, None) => true,
                _ => false,
            },
    {
        match &self.last_error {
            Some(text) => Some(text.clone()),
            None => None,
        }
    }

    /// A job starts: the snapshot is reset to no progress, running, no
    /// error.
    pub fn start(&mut self)
        ensures
            final(self)@ == started_progress(),
    {
        *self = VideoEditProgress { progress: 0, working: true, last_error: None };
    }

    /// The transcoder has written a line to its progress channel. A line
    /// that reports the elapsed time sets the percentage; every other line
    /// changes nothing.
    pub fn record_line(&mut self, line: &str, expected: Seconds)
        ensures
            final(self)@ == after_line(old(self)@, line@, expected.micros as nat),
    {
        match parse_progress_line(line) {
            Some(elapsed) => {
                self.progress = percent_done(elapsed, expected);
            },
            None => {},
        }
    }

    /// The transcoder could not be started: the job has failed with the
    /// given reason.
    pub fn fail_to_start(&mut self, reason: &str)
        ensures
            final(self)@ == failed_progress(reason@),
    {
        *self = VideoEditProgress {
            progress: 0,
            working: false,
            last_error: Some(String::from_str(reason)),
        };
    }

    /// The transcoder has exited and its output is drained. On failure the
    /// job has failed with the description of how the process exited. On
    /// success, and with no error recorded, the job is done: only now is
    /// the percentage 100. On success with an error recorded nothing
    /// changes.
    pub fn finish(&mut self, success: bool, exit_description: &str)
        ensures
            final(self)@ == after_exit(old(self)@, success, exit_description@),
    {
        if !success {
            *self = VideoEditProgress {
                progress: 0,
                working: false,
                last_error: Some(String::from_str(exit_description)),
            };
        } else if self.last_error.is_none() {
            *self = VideoEditProgress { progress: 100, working: false, last_error: None };
        }
    }
}

/// Resets the snapshot to idle: no progress, not running, no error. The
/// supervisor does this a moment after a job has ended.
pub fn clear_video_progress(progress: &mut VideoEditProgress)
    ensures
        final(progress)@ == idle_progress(),
{
    *progress = VideoEditProgress::new();
}

/// A copy of the snapshot, for a poller.
pub fn get_video_progress_info(progress: &VideoEditProgress) -> (copy: VideoEditProgress)
    ensures
        copy@ == progress@,
{
    proof {
        use_type_invariant(progress);
    }
    VideoEditProgress {
        progress: progress.progress,
        working: progress.working,
        last_error: progress.last_error(),
    }
}

} // verus!
