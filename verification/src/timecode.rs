//! Times and the time parser.
//!
//! A time is held in whole microseconds, the resolution of the transcoder's
//! progress channel. A time string has three numerals separated by colons:
//! hours, minutes and seconds.

use vstd::prelude::*;
use crate::text::{
    all_digits, capped, chars_of, digits_value, digits_value_capped, find_from, first_index_of,
    is_digit, is_digits, lemma_digits_value_bound, lemma_first_index_of,
    lemma_first_index_of_is, pow10, slice_of,
};

verus! {

/// A span of time in fixed point: whole microseconds.
#[derive(Clone, Copy, Debug, PartialEq, Eq, Structural)]
pub struct Seconds {
    pub micros: u64,
}

/// Why a time string was rejected.
#[derive(Clone, Copy, Debug, PartialEq, Eq, Structural)]
pub enum MalformedTimecode {
    /// The string does not have exactly three fields.
    FieldCount,
    /// The first field is no numeral.
    Hours,
    /// The second field is no numeral.
    Minutes,
    /// The third field is no numeral.
    Seconds,
}

pub open spec fn micros_per_second() -> nat {
    1_000_000
}

/// The microseconds that the digits after a decimal point stand for: the
/// first six count, what follows them is cut off.
pub open spec fn fraction_micros(fraction: Seq<char>) -> nat {
    digits_value((fraction + seq!['0', '0', '0', '0', '0', '0']).take(6))
}

/// The digits of a numeral before its decimal point.
pub open spec fn whole_part(s: Seq<char>) -> Seq<char> {
    s.take(first_index_of(s, '.'))
}

/// The digits of a numeral after its decimal point; empty without a point.
pub open spec fn fraction_part(s: Seq<char>) -> Seq<char> {
    if first_index_of(s, '.') < s.len() {
        s.skip(first_index_of(s, '.') + 1)
    } else {
        Seq::empty()
    }
}

/// `s` is a numeral: digits, with at most one decimal point among them, and
/// at least one digit.
pub open spec fn is_numeral(s: Seq<char>) -> bool {
    &&& is_digits(whole_part(s))
    &&& is_digits(fraction_part(s))
    &&& whole_part(s).len() + fraction_part(s).len() > 0
}

/// The value of a numeral in millionths.
pub open spec fn numeral_micros(s: Seq<char>) -> nat {
    digits_value(whole_part(s)) * micros_per_second() + fraction_micros(fraction_part(s))
}

/// The three fields of a time string, where it has exactly three.
pub open spec fn timecode_fields(s: Seq<char>) -> Option<(Seq<char>, Seq<char>, Seq<char>)> {
    let i = first_index_of(s, ':');
    let rest = s.skip(i + 1);
    let j = first_index_of(rest, ':');
    let last = rest.skip(j + 1);
    if i < s.len() && j < rest.len() && first_index_of(last, ':') == last.len() {
        Some((s.take(i), rest.take(j), last))
    } else {
        None
    }
}

/// The time in microseconds that hours, minutes and seconds add up to, each
/// given in millionths of its unit.
pub open spec fn total_micros(hours: nat, minutes: nat, seconds: nat) -> nat {
    hours * 3600 + minutes * 60 + seconds
}

/// What the time parser makes of a string.
pub open spec fn timecode_result(s: Seq<char>) -> Result<nat, MalformedTimecode> {
    match timecode_fields(s) {
        None => Err(MalformedTimecode::FieldCount),
        Some((hours, minutes, seconds)) => {
            if !is_numeral(hours) {
                Err(MalformedTimecode::Hours)
            } else if !is_numeral(minutes) {
                Err(MalformedTimecode::Minutes)
            } else if !is_numeral(seconds) {
                Err(MalformedTimecode::Seconds)
            } else {
                Ok(
                    total_micros(
                        numeral_micros(hours),
                        numeral_micros(minutes),
                        numeral_micros(seconds),
                    ),
                )
            }
        },
    }
}

/// The value of a numeral in millionths, capped at `u64::MAX`; `None` where
/// the text is no numeral.
pub fn parse_numeral(chars: &Vec<char>) -> (value: Option<u64>)
    ensures
        value is Some <==> is_numeral(chars@),
        value matches Some(v) ==> v == capped(numeral_micros(chars@), u64::MAX as nat),
{
    let point = find_from(chars, 0, '.');
    assert(chars@.skip(0) =~= chars@);
    let whole = slice_of(chars, 0, point);
    let fraction = if point < chars.len() {
        slice_of(chars, point + 1, chars.len())
    } else {
        Vec::new()
    };
    if !all_digits(&whole) || !all_digits(&fraction) {
        return None;
    }
    if whole.len() == 0 && fraction.len() == 0 {
        return None;
    }
    let units = digits_value_capped(&whole);
    let mut six: Vec<char> = Vec::new();
    let mut i: usize = 0;
    while i < 6
        invariant
            i <= 6,
            six@ == (fraction@ + seq!['0', '0', '0', '0', '0', '0']).take(i as int),
            is_digits(fraction@),
            is_digits(six@),
        decreases 6 - i,
    {
        let c = if i < fraction.len() {
            fraction[i]
        } else {
            '0'
        };
        six.push(c);
        i += 1;
    }
    proof {
        lemma_digits_value_bound(six@);
        reveal_with_fuel(pow10, 7);
    }
    let millionths = digits_value_capped(&six);
    let total: u128 = units as u128 * 1_000_000 + millionths as u128;
    assert(digits_value(whole@) > u64::MAX ==> digits_value(whole@) * 1_000_000 > u64::MAX)
        by (nonlinear_arith);
    if total > u64::MAX as u128 {
        Some(u64::MAX)
    } else {
        Some(total as u64)
    }
}

/// The time that a time string stands for. Fields are numerals of hours,
/// minutes and seconds; a decimal point may stand in any of them. The result
/// is exact to the microsecond and capped at `u64::MAX` microseconds.
pub fn convert_time_string_to_seconds(time_string: &str) -> (result: Result<
    Seconds,
    MalformedTimecode,
>)
    ensures
        match (result, timecode_result(time_string@)) {
            (Ok(time), Ok(micros)) => time.micros == capped(micros, u64::MAX as nat),
            (Err(found), Err(expected)) => found == expected,
            _ => false,
        },
{
    let chars = chars_of(time_string);
    let n = chars.len();
    let i = find_from(&chars, 0, ':');
    assert(chars@.skip(0) =~= chars@);
    if i == n {
        return Err(MalformedTimecode::FieldCount);
    }
    let j = find_from(&chars, i + 1, ':');
    if j == n {
        return Err(MalformedTimecode::FieldCount);
    }
    let k = find_from(&chars, j + 1, ':');
    let ghost rest = chars@.skip(i + 1);
    let ghost last = rest.skip(j - i);
    assert(last =~= chars@.skip(j + 1));
    if k != n {
        return Err(MalformedTimecode::FieldCount);
    }
    let hours = slice_of(&chars, 0, i);
    let minutes = slice_of(&chars, i + 1, j);
    let seconds = slice_of(&chars, j + 1, n);
    assert(timecode_fields(chars@) == Some((hours@, minutes@, seconds@)));
    let h = match parse_numeral(&hours) {
        Some(v) => v,
        None => {
            return Err(MalformedTimecode::Hours);
        },
    };
    let m = match parse_numeral(&minutes) {
        Some(v) => v,
        None => {
            return Err(MalformedTimecode::Minutes);
        },
    };
    let s = match parse_numeral(&seconds) {
        Some(v) => v,
        None => {
            return Err(MalformedTimecode::Seconds);
        },
    };
    let total: u128 = h as u128 * 3600 + m as u128 * 60 + s as u128;
    if total > u64::MAX as u128 {
        Ok(Seconds { micros: u64::MAX })
    } else {
        Ok(Seconds { micros: total as u64 })
    }
}

/// No colon stands in a numeral.
pub proof fn lemma_numeral_has_no_colon(s: Seq<char>)
    requires
        is_numeral(s),
    ensures
        first_index_of(s, ':') == s.len(),
{
    lemma_first_index_of(s, '.');
    let point = first_index_of(s, '.');
    let whole = whole_part(s);
    let fraction = fraction_part(s);
    assert forall|i: int| 0 <= i < s.len() implies s[i] != ':' by {
        if i < point {
            assert(is_digit(whole[i]));
        } else if i > point {
            assert(is_digit(fraction[i - point - 1]));
        }
    }
    lemma_first_index_of_is(s, ':', s.len() as int);
}

/// The time parser reads three numerals joined by colons as the hours, the
/// minutes and the seconds that they stand for, added up: with `h`, `m` and
/// `s` the values of the numerals, the result is `h * 3600 + m * 60 + s`
/// seconds, here in millionths.
pub proof fn lemma_timecode_is_sum_of_fields(
    hours: Seq<char>,
    minutes: Seq<char>,
    seconds: Seq<char>,
)
    requires
        is_numeral(hours),
        is_numeral(minutes),
        is_numeral(seconds),
    ensures
        timecode_result(hours + seq![':'] + minutes + seq![':'] + seconds) == Ok::<
            nat,
            MalformedTimecode,
        >(
            numeral_micros(hours) * 3600 + numeral_micros(minutes) * 60 + numeral_micros(
                seconds,
            ),
        ),
{
    let whole = hours + seq![':'] + minutes + seq![':'] + seconds;
    lemma_numeral_has_no_colon(hours);
    lemma_numeral_has_no_colon(minutes);
    lemma_numeral_has_no_colon(seconds);
    lemma_first_index_of(hours, ':');
    lemma_first_index_of(minutes, ':');
    assert forall|i: int| 0 <= i < hours.len() implies whole[i] != ':' by {
        assert(whole[i] == hours[i]);
    }
    lemma_first_index_of_is(whole, ':', hours.len() as int);
    let rest = whole.skip(hours.len() as int + 1);
    assert forall|i: int| 0 <= i < minutes.len() implies rest[i] != ':' by {
        assert(rest[i] == minutes[i]);
    }
    lemma_first_index_of_is(rest, ':', minutes.len() as int);
    let last = rest.skip(minutes.len() as int + 1);
    assert(last =~= seconds);
    assert(timecode_fields(whole) == Some((hours, minutes, seconds)));
}

} // verus!
