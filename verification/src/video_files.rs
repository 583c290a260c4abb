//! Which files count as videos: those whose name ends with one of the
//! accepted extensions, whatever the case of its letters.

use vstd::prelude::*;
use vstd::string::*;
use crate::text::{chars_of, ends_with, has_suffix};

verus! {

/// The text that `str::to_lowercase` gives for a text.
pub uninterp spec fn lowercase_of(text: Seq<char>) -> Seq<char>;

/// The lower-case form of a text. Calls `str::to_lowercase`, which maps each
/// character by the Unicode rules for lower case and depends on nothing but
/// the text.
#[verifier::external_body]
fn to_lowercase(text: &str) -> (lower: String)
    ensures
        lower@ == lowercase_of(text@),
{
    text.to_lowercase()
}

/// `name` ends with one of the extensions of the video formats that can be
/// opened: `mp4`, `avi`, `mov`, `mkv`, `webm`.
pub open spec fn ends_with_video_extension(name: Seq<char>) -> bool {
    ||| ends_with(name, "mp4"@)
    ||| ends_with(name, "avi"@)
    ||| ends_with(name, "mov"@)
    ||| ends_with(name, "mkv"@)
    ||| ends_with(name, "webm"@)
}

/// The extensions of the video formats that can be opened.
pub const ALLOWED_VIDEO_EXTENSIONS: [&'static str; 5] = [
    "mp4",
    "avi",
    "mov",
    "mkv",
    "webm",
];

/// Whether a name in lower case ends with one of the video extensions.
pub fn has_video_extension(lowered: &str) -> (video: bool)
    ensures
        video == ends_with_video_extension(lowered@),
{
    let name = chars_of(lowered);
    let extensions = ALLOWED_VIDEO_EXTENSIONS;
    let mut i: usize = 0;
    while i < 5
        invariant
            i <= 5,
            name@ == lowered@,
            extensions@ == seq!["mp4", "avi", "mov", "mkv", "webm"],
            forall|j: int| 0 <= j < i ==> !ends_with(name@, (#[trigger] extensions@[j])@),
        decreases 5 - i,
    {
        let extension = chars_of(extensions[i]);
        if has_suffix(&name, &extension) {
            return true;
        }
        i += 1;
    }
    false
}

/// Whether a file is a video, by its name: in lower case, the name ends
/// with one of the video extensions.
pub fn check_if_file_is_video(file_path: &str) -> (video: bool)
    ensures
        video == ends_with_video_extension(lowercase_of(file_path@)),
{
    let lowered = to_lowercase(file_path);
    has_video_extension(lowered.as_str())
}

} // verus!
