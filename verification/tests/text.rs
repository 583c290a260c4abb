use videocrop::text::{
    chars_of, find_from, has_prefix, has_suffix, is_space_char, parse_u32, parse_u64, push_decimal,
    push_int, push_str, same_str, slice_of, split_first_line, text_of, trim,
};

fn chars(text: &str) -> Vec<char> {
    text.chars().collect()
}

fn text(chars: &[char]) -> String {
    chars.iter().collect()
}

/// A fixed sequence of numbers that looks random.
fn scrambled(seed: &mut u64) -> u64 {
    *seed ^= *seed << 13;
    *seed ^= *seed >> 7;
    *seed ^= *seed << 17;
    *seed
}

fn sample(alphabet: &[char], seed: &mut u64) -> String {
    let length = scrambled(seed) % 9;
    (0..length).map(|_| alphabet[(scrambled(seed) % alphabet.len() as u64) as usize]).collect()
}

#[test]
fn characters_and_back() {
    for sample in ["", "a", "clip.mp4", "émission ☃ 視頻", "a\u{0}b", "\u{10FFFF}"] {
        assert_eq!(chars_of(sample), chars(sample));
        assert_eq!(text_of(&chars(sample)), sample);
    }
}

#[test]
fn white_space_is_what_std_calls_white_space() {
    for code in 0..=0x10FFFF_u32 {
        if let Some(c) = char::from_u32(code) {
            assert_eq!(is_space_char(c), c.is_whitespace(), "U+{:04X}", code);
        }
    }
}

#[test]
fn trimming_agrees_with_std() {
    let alphabet = [' ', '\t', '\n', '\r', 'a', '1', '\u{A0}', '\u{3000}', '.', '\u{200B}'];
    let mut seed = 0x2545_F491_4F6C_DD1D;
    for _ in 0..5000 {
        let sample = sample(&alphabet, &mut seed);
        assert_eq!(text(&trim(&chars(&sample))), sample.trim(), "{:?}", sample);
    }
    assert_eq!(text(&trim(&chars("  a b  "))), "a b");
    assert_eq!(text(&trim(&chars(" \t\r\n"))), "");
}

#[test]
fn lines_agree_with_std() {
    let alphabet = ['\n', '\r', 'a', '1', ':', ' '];
    let mut seed = 0x9E37_79B9_7F4A_7C15;
    for _ in 0..5000 {
        let sample = sample(&alphabet, &mut seed);
        let mut rest = chars(&sample);
        let mut lines = Vec::new();
        while !rest.is_empty() {
            let (line, below) = split_first_line(&rest);
            lines.push(text(&line));
            rest = below;
        }
        let expected: Vec<&str> = sample.lines().collect();
        assert_eq!(lines, expected, "{:?}", sample);
    }
}

#[test]
fn unsigned_numbers_agree_with_std() {
    let alphabet = ['0', '1', '9', '+', '-', ' ', '_', 'a', '4', '7'];
    let mut seed = 0xD1B5_4A32_D192_ED03;
    for _ in 0..20000 {
        let sample = sample(&alphabet, &mut seed);
        assert_eq!(parse_u64(&chars(&sample)), sample.parse::<u64>().ok(), "{:?}", sample);
        assert_eq!(parse_u32(&chars(&sample)), sample.parse::<u32>().ok(), "{:?}", sample);
    }
    for sample in [
        "0",
        "+0",
        "00012",
        "4294967295",
        "4294967296",
        "18446744073709551615",
        "18446744073709551616",
        "99999999999999999999999",
        "+",
        "",
        "++1",
        "1+",
        "١٢٣",
    ] {
        assert_eq!(parse_u64(&chars(sample)), sample.parse::<u64>().ok(), "{:?}", sample);
        assert_eq!(parse_u32(&chars(sample)), sample.parse::<u32>().ok(), "{:?}", sample);
    }
}

#[test]
fn numerals_agree_with_std() {
    let mut seed = 0x8533_1F2C_0A5B_77E1;
    let mut numbers =
        vec![0, 1, 9, 10, 11, 99, 100, u64::MAX, u64::MAX - 1, 1 << 63, (1 << 63) + 1];
    for _ in 0..2000 {
        let number = scrambled(&mut seed);
        numbers.push(number);
        numbers.push(number >> (number % 64));
    }
    for number in numbers {
        let mut out = chars("n=");
        push_decimal(&mut out, number);
        assert_eq!(text(&out), format!("n={}", number));
        let signed = number as i64;
        let mut out = Vec::new();
        push_int(&mut out, signed);
        assert_eq!(text(&out), signed.to_string());
    }
}

#[test]
fn prefixes_and_suffixes_agree_with_std() {
    let alphabet = ['a', 'b', '.'];
    let mut seed = 0x0123_4567_89AB_CDEF;
    for _ in 0..5000 {
        let whole = sample(&alphabet, &mut seed);
        let part: String = sample(&alphabet, &mut seed).chars().take(3).collect();
        assert_eq!(has_prefix(&chars(&whole), &chars(&part)), whole.starts_with(&part));
        assert_eq!(has_suffix(&chars(&whole), &chars(&part)), whole.ends_with(&part));
        assert_eq!(same_str(&whole, &part), whole == part);
        let from = whole.chars().count().min(2);
        let found = find_from(&chars(&whole), from, '.');
        let expected = whole
            .chars()
            .enumerate()
            .position(|(i, c)| i >= from && c == '.')
            .unwrap_or(whole.chars().count());
        assert_eq!(found, expected, "{:?}", whole);
    }
}

#[test]
fn slices_and_appends() {
    let whole = chars("clip.mp4");
    assert_eq!(text(&slice_of(&whole, 0, 4)), "clip");
    assert_eq!(text(&slice_of(&whole, 5, 8)), "mp4");
    assert_eq!(text(&slice_of(&whole, 3, 3)), "");
    let mut out = chars("a");
    push_str(&mut out, "bc");
    push_str(&mut out, "");
    assert_eq!(text(&out), "abc");
}
