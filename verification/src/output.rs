//! The output path resolver: the name of the file that a job writes.
//!
//! A job's output is named after its input. Where a file of that name is
//! already there, a counter is put behind the name: `_1`, `_2` and so on,
//! until the name is free.

use vstd::prelude::*;
use vstd::string::*;
use crate::arguments::extraction_codec;
use crate::options::VideoEditOptions;
use crate::text::{
    decimal, lemma_decimal_injective, lemma_decimal_round_trip, push_decimal, push_str, same_str,
    text_of, texts,
};

verus! {

/// `c` is a digit or one of the letters `a` to `f`.
pub open spec fn is_lower_hex(c: char) -> bool {
    ('0' <= c && c <= '9') || ('a' <= c && c <= 'f')
}

/// `s` has the form of a hyphenated identifier: 36 characters, hyphens at
/// the positions 8, 13, 18 and 23, lower-case hexadecimal digits elsewhere.
pub open spec fn is_uuid_text(s: Seq<char>) -> bool {
    &&& s.len() == 36
    &&& forall|i: int|
        0 <= i < 36 ==> if i == 8 || i == 13 || i == 18 || i == 23 {
            #[trigger] s[i] == '-'
        } else {
            is_lower_hex(s[i])
        }
}

/// A fresh random identifier as text. Calls `uuid::Uuid::new_v4` and formats
/// the result with its `Display`, which writes the hyphenated lower-case
/// form: 32 hexadecimal digits in groups of 8, 4, 4, 4 and 12. Which
/// identifier comes back is left open.
#[verifier::external_body]
pub(crate) fn new_uuid_text() -> (id: String)
    ensures
        is_uuid_text(id@),
{
    uuid::Uuid::new_v4().to_string()
}

/// The file extension for an audio codec.
pub open spec fn audio_extension(codec: Seq<char>) -> Seq<char> {
    if codec == "aac"@ {
        "m4a"@
    } else if codec == "libopus"@ {
        "opus"@
    } else {
        "mp3"@
    }
}

/// The file extension for an audio codec: `m4a` for `aac`, `opus` for
/// `libopus`, and `mp3` for `libmp3lame` and for every other codec.
pub fn get_audio_extension_based_on_codec(codec: &str) -> (extension: &str)
    ensures
        extension@ == audio_extension(codec@),
{
    if same_str(codec, "aac") {
        "m4a"
    } else if same_str(codec, "libopus") {
        "opus"
    } else {
        "mp3"
    }
}

/// The file extension of the audio that an extraction job writes: that of
/// the codec it encodes with.
pub fn audio_output_extension(options: &VideoEditOptions) -> (extension: &'static str)
    ensures
        extension@ == audio_extension(extraction_codec(options)),
{
    let codec = options.compression_options.audio_codec.as_str();
    proof {
        reveal_strlit("copy");
        reveal_strlit("aac");
        reveal_strlit("libopus");
        reveal_strlit("libmp3lame");
        assert("aac"@.len() == 3);
        assert("libopus"@.len() == 7);
    }
    if options.compression_enabled && !same_str(codec, "copy") {
        if same_str(codec, "aac") {
            "m4a"
        } else if same_str(codec, "libopus") {
            "opus"
        } else {
            "mp3"
        }
    } else {
        "mp3"
    }
}

/// The extension of the video that an edit job writes.
pub const VIDEO_EXTENSION: &'static str = "mp4";

/// The stem of an edit job's output where the input has no stem.
pub fn fallback_output_stem(id: &str) -> (stem: String)
    ensures
        stem@ == "VideoCrop_"@ + id@,
{
    let mut stem = String::from_str("VideoCrop_");
    stem.append(id);
    stem
}

/// The stem of the name of the video that an edit job writes: the stem of
/// the input's name with `_VideoCrop` behind it, or, where the input has no
/// stem, `VideoCrop_` with a fresh random identifier behind it.
pub fn video_output_stem(input_stem: Option<&str>) -> (stem: String)
    ensures
        match input_stem {
            Some(name) => stem@ == name@ + "_VideoCrop"@,
            None => exists|id: Seq<char>| is_uuid_text(id) && stem@ == "VideoCrop_"@ + id,
        },
{
    match input_stem {
        Some(name) => {
            let mut stem = String::from_str(name);
            stem.append("_VideoCrop");
            stem
        },
        None => {
            let id = new_uuid_text();
            fallback_output_stem(id.as_str())
        },
    }
}

/// The stem of the name of the audio that an extraction job writes: the stem
/// of the input's name with `_VideoCrop_Audio` behind it.
pub fn audio_output_stem(input_stem: &str) -> (stem: String)
    ensures
        stem@ == input_stem@ + "_VideoCrop_Audio"@,
{
    let mut stem = String::from_str(input_stem);
    stem.append("_VideoCrop_Audio");
    stem
}

/// The name tried at the given attempt: at first stem, dot and extension;
/// from then on the attempt's number stands behind the stem, after an
/// underscore.
pub open spec fn candidate_name(stem: Seq<char>, extension: Seq<char>, attempt: nat) -> Seq<char> {
    if attempt == 0 {
        stem + seq!['.'] + extension
    } else {
        stem + seq!['_'] + decimal(attempt) + seq!['.'] + extension
    }
}

/// `attempt` is the first whose name is not among `taken`.
pub open spec fn is_first_free(
    stem: Seq<char>,
    extension: Seq<char>,
    taken: Seq<Seq<char>>,
    attempt: nat,
) -> bool {
    &&& !taken.contains(candidate_name(stem, extension, attempt))
    &&& forall|earlier: nat|
        earlier < attempt ==> taken.contains(#[trigger] candidate_name(stem, extension, earlier))
}

/// Different attempts try different names.
pub proof fn lemma_candidates_differ(stem: Seq<char>, extension: Seq<char>, a: nat, b: nat)
    requires
        a != b,
    ensures
        candidate_name(stem, extension, a) != candidate_name(stem, extension, b),
{
    let x = candidate_name(stem, extension, a);
    let y = candidate_name(stem, extension, b);
    lemma_decimal_round_trip(a);
    lemma_decimal_round_trip(b);
    if x == y {
        assert(x.len() == y.len());
        if a != 0 && b != 0 {
            let from = stem.len() as int + 1;
            let to = from + decimal(a).len();
            assert(x.subrange(from, to) =~= decimal(a));
            assert(y.subrange(from, to) =~= decimal(b));
            lemma_decimal_injective(a, b);
        }
    }
}

/// A sequence that holds each of the names, no two of which are the same,
/// is at least as long as the names are many.
proof fn lemma_room_for_all(names: Seq<Seq<char>>, taken: Seq<Seq<char>>)
    requires
        forall|i: int, j: int|
            0 <= i < names.len() && 0 <= j < names.len() && i != j ==> #[trigger] names[i]
                != #[trigger] names[j],
        forall|i: int| 0 <= i < names.len() ==> taken.contains(#[trigger] names[i]),
    ensures
        names.len() <= taken.len(),
    decreases names.len(),
{
    if names.len() > 0 {
        let last = names.last();
        let fewer = names.drop_last();
        let at = choose|at: int| 0 <= at < taken.len() && taken[at] == last;
        let rest = taken.remove(at);
        assert forall|i: int| 0 <= i < fewer.len() implies rest.contains(#[trigger] fewer[i]) by {
            let k = choose|k: int| 0 <= k < taken.len() && taken[k] == names[i];
            if k < at {
                assert(rest[k] == taken[k]);
            } else {
                assert(rest[k - 1] == taken[k]);
            }
        }
        assert forall|i: int, j: int|
            0 <= i < fewer.len() && 0 <= j < fewer.len() && i != j implies #[trigger] fewer[i]
            != #[trigger] fewer[j] by {
            assert(fewer[j] == names[j]);
        }
        lemma_room_for_all(fewer, rest);
    }
}

/// The name tried at the given attempt.
pub fn unique_candidate(stem: &str, extension: &str, attempt: u64) -> (name: String)
    ensures
        name@ == candidate_name(stem@, extension@, attempt as nat),
{
    let mut name: Vec<char> = Vec::new();
    push_str(&mut name, stem);
    if attempt != 0 {
        name.push('_');
        push_decimal(&mut name, attempt);
    }
    name.push('.');
    push_str(&mut name, extension);
    text_of(&name)
}

/// Whether `name` is among `taken`.
pub fn is_taken(taken: &Vec<String>, name: &str) -> (found: bool)
    ensures
        found == texts(taken@).contains(name@),
{
    let mut i: usize = 0;
    while i < taken.len()
        invariant
            i <= taken.len(),
            forall|j: int| 0 <= j < i ==> texts(taken@)[j] != name@,
        decreases taken.len() - i,
    {
        if same_str(taken[i].as_str(), name) {
            assert(texts(taken@)[i as int] == name@);
            return true;
        }
        i += 1;
    }
    false
}

/// A file name that is not among `taken`: the first free one of
/// `stem.extension`, `stem_1.extension`, `stem_2.extension` and so on.
/// `taken` holds the names that are in use where the file is to go.
pub fn get_unique_filename(stem: &str, extension: &str, taken: &Vec<String>) -> (name: String)
    ensures
        !texts(taken@).contains(name@),
        exists|attempt: nat|
            is_first_free(stem@, extension@, texts(taken@), attempt) && name@ == candidate_name(
                stem@,
                extension@,
                attempt,
            ),
{
    let mut attempt: usize = 0;
    loop
        invariant
            attempt <= taken.len(),
            forall|earlier: nat|
                earlier < attempt ==> texts(taken@).contains(
                    #[trigger] candidate_name(stem@, extension@, earlier),
                ),
        decreases taken.len() - attempt,
    {
        let name = unique_candidate(stem, extension, attempt as u64);
        if !is_taken(taken, name.as_str()) {
            return name;
        }
        proof {
            let names = Seq::new(
                (attempt + 1) as nat,
                |k: int| candidate_name(stem@, extension@, k as nat),
            );
            assert forall|i: int, j: int|
                0 <= i < names.len() && 0 <= j < names.len() && i != j implies #[trigger] names[i]
                != #[trigger] names[j] by {
                lemma_candidates_differ(stem@, extension@, i as nat, j as nat);
            }
            assert forall|i: int| 0 <= i < names.len() implies texts(taken@).contains(
                #[trigger] names[i],
            ) by {
                if i == attempt {
                    assert(names[i] == name@);
                } else {
                    assert(texts(taken@).contains(candidate_name(stem@, extension@, i as nat)));
                }
            }
            lemma_room_for_all(names, texts(taken@));
        }
        attempt += 1;
    }
}

} // verus!
