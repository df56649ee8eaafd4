use fresh_post::numeral::to_decimal;
use fresh_post::numeral::to_hex;
use fresh_post::relative::leading_word;
use fresh_post::relative::names_zero_or_one;
use fresh_post::relative::phrase_is_recent;
use fresh_post::text::begins_with;
use fresh_post::text::chars_of;
use fresh_post::text::found_at;
use fresh_post::text::has;
use fresh_post::text::is_space;
use fresh_post::text::joined;
use fresh_post::text::removed;
use fresh_post::text::same_text;
use fresh_post::text::slice_of;
use fresh_post::text::split_lines;
use fresh_post::text::string_of;
use fresh_post::text::swapped;
use fresh_post::text::trimmed;

const SAMPLES: [&str; 12] = [
    "",
    " ",
    "abc",
    "  abc  ",
    "\t\u{a0}a b\u{3000}\n",
    "&quot;Rust &quot;Dev&quot;quot;",
    "ququot;ot;",
    "aaa",
    "abababab",
    "ü ö ä",
    "line one\nline two\r\n\nlast",
    "\n",
];

fn text(s: &str) -> Vec<char> {
    s.chars().collect()
}

#[test]
fn white_space_is_what_std_calls_white_space() {
    for code in 0..=0x10ffffu32 {
        if let Some(c) = char::from_u32(code) {
            assert_eq!(is_space(c), c.is_whitespace(), "U+{:04X}", code);
        }
    }
}

#[test]
fn texts_go_to_characters_and_back() {
    for sample in SAMPLES {
        assert_eq!(chars_of(sample), text(sample));
        assert_eq!(string_of(&text(sample)), sample);
    }
    assert_eq!(slice_of(&text("abcdef"), 2, 4), text("cd"));
    assert_eq!(slice_of(&text("abcdef"), 3, 3), text(""));
    assert!(same_text(&text("abc"), &text("abc")));
    assert!(!same_text(&text("abc"), &text("abd")));
    assert!(!same_text(&text("abc"), &text("ab")));
}

#[test]
fn trim_agrees_with_std() {
    for sample in SAMPLES {
        assert_eq!(string_of(&trimmed(&text(sample))), sample.trim());
    }
}

#[test]
fn search_agrees_with_std() {
    let patterns = ["", "a", "ab", "aba", "quot;", "&quot;", " ", "\n", "ü", "abc", "abcd"];
    for sample in SAMPLES {
        for pattern in patterns {
            assert_eq!(has(&text(sample), &text(pattern)), sample.contains(pattern));
            assert_eq!(begins_with(&text(sample), &text(pattern)), sample.starts_with(pattern));
        }
    }
    assert!(found_at(&text("hello"), &text("llo"), 2));
    assert!(!found_at(&text("hello"), &text("llo"), 3));
    assert!(!found_at(&text("hello"), &text("llo"), 9));
    assert!(found_at(&text("hello"), &text(""), 5));
}

#[test]
fn removal_agrees_with_std() {
    let patterns = ["a", "ab", "aba", "aa", "quot;", "&quot;", " ", "\n", "ü"];
    for sample in SAMPLES {
        for pattern in patterns {
            assert_eq!(
                string_of(&removed(&text(sample), &text(pattern))),
                sample.replace(pattern, "")
            );
        }
        assert_eq!(string_of(&removed(&text(sample), &text(""))), sample);
        assert_eq!(string_of(&swapped(&text(sample), ' ', '+')), sample.replace(' ', "+"));
    }
}

#[test]
fn lines_are_what_stands_between_line_feeds() {
    for sample in SAMPLES {
        let lines: Vec<String> = split_lines(&text(sample)).iter().map(string_of).collect();
        let expected: Vec<String> = sample.split('\n').map(|l| l.to_string()).collect();
        assert_eq!(lines, expected);
    }
}

#[test]
fn join_agrees_with_std() {
    let lists: [&[&str]; 4] = [&[], &["a"], &["a", "b"], &["", "x", "", "yz"]];
    for list in lists {
        let parts: Vec<String> = list.iter().map(|p| p.to_string()).collect();
        assert_eq!(string_of(&joined(&parts, "; ")), parts.join("; "));
        assert_eq!(string_of(&joined(&parts, "")), parts.join(""));
    }
}

#[test]
fn numbers_are_written_as_std_writes_them() {
    let numbers = [0u64, 1, 9, 10, 15, 16, 17, 255, 256, 4095, 65536, 1234567890, u64::MAX - 1, u64::MAX];
    for n in numbers {
        assert_eq!(to_hex(n), format!("{:x}", n));
        assert_eq!(to_decimal(n), format!("{}", n));
    }
}

#[test]
fn first_word_agrees_with_std() {
    for sample in SAMPLES {
        let expected = sample.split_whitespace().next().unwrap_or("");
        assert_eq!(string_of(&leading_word(&text(sample))), expected);
    }
}

#[test]
fn zero_and_one_are_told_as_std_parses_them() {
    let words = [
        "", "0", "1", "2", "9", "00", "01", "10", "11", "+", "-", "+0", "+1", "-0", "-1", "+-1",
        "1a", "a1", "１", "0000000000000000000000000000001", "99999999999999999999999999", " 1",
        "1 ", "--0", "0x1",
    ];
    for word in words {
        let expected = matches!(word.parse::<i64>(), Ok(0) | Ok(1));
        assert_eq!(names_zero_or_one(&text(word)), expected, "{:?}", word);
    }
}

#[test]
fn phrases_of_the_day() {
    assert!(phrase_is_recent("2 hours ago"));
    assert!(phrase_is_recent("45 minutes ago"));
    assert!(phrase_is_recent("just now"));
    assert!(phrase_is_recent("1 day ago"));
    assert!(phrase_is_recent("0 days"));
    assert!(!phrase_is_recent("5 days ago"));
    assert!(!phrase_is_recent("days 1"));
    assert!(!phrase_is_recent("1 week ago"));
    assert!(!phrase_is_recent("Just Now"));
    assert!(!phrase_is_recent(""));
}
