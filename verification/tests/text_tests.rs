use dimigomeal::text::{
    chars_of, contains_string, join_strings, parse_i32, split_string, text_eq, trim_string,
};

fn strings(parts: &[&str]) -> Vec<String> {
    parts.iter().map(|s| s.to_string()).collect()
}

#[test]
fn split_on_single_character() {
    assert_eq!(split_string("3월15일", "월"), strings(&["3", "15일"]));
    assert_eq!(split_string("2024-03-14", "-"), strings(&["2024", "03", "14"]));
    assert_eq!(split_string("a::b:", ":"), strings(&["a", "", "b", ""]));
    assert_eq!(split_string("", ":"), strings(&[""]));
}

#[test]
fn split_on_longer_separator_takes_leftmost_occurrences() {
    assert_eq!(split_string("aaaa", "aa"), strings(&["", "", ""]));
    assert_eq!(split_string("abcabc", "bc"), strings(&["a", "a", ""]));
}

#[test]
fn split_on_empty_separator_matches_std() {
    let ours = split_string("ab", "");
    let std_parts: Vec<String> = "ab".split("").map(|s| s.to_string()).collect();
    assert_eq!(ours, std_parts);
    assert_eq!(split_string("", ""), strings(&["", ""]));
}

#[test]
fn join_puts_separator_between_parts() {
    assert_eq!(join_strings(&strings(&["a", "b", "c"]), ":"), "a:b:c");
    assert_eq!(join_strings(&strings(&["only"]), ":"), "only");
    assert_eq!(join_strings(&strings(&[]), ":"), "");
}

#[test]
fn join_of_split_gives_the_text_back() {
    for (s, p) in [("a::b:", ":"), ("조식: 밥: 국", ":"), ("xyz", ""), ("", "-"), ("aaaa", "aa")] {
        assert_eq!(join_strings(&split_string(s, p), p), s);
    }
}

#[test]
fn trim_removes_unicode_white_space_at_both_ends() {
    assert_eq!(trim_string("  밥 \t\n"), "밥");
    assert_eq!(trim_string("\u{3000}x y\u{a0}"), "x y");
    assert_eq!(trim_string(" \t "), "");
    assert_eq!(trim_string("a"), "a");
}

#[test]
fn contains_finds_substrings() {
    assert!(contains_string("[조식]", "조식"));
    assert!(!contains_string("중식", "조식"));
    assert!(contains_string("abc", ""));
}

#[test]
fn parse_i32_follows_std() {
    for s in ["0", "42", "+7", "-7", "2147483647", "-2147483648", "2147483648", "-", "+", "", "1a", "٣", "99999999999999"] {
        assert_eq!(parse_i32(s), s.parse::<i32>().ok(), "input {s:?}");
    }
}

#[test]
fn text_equality_and_chars() {
    assert!(text_eq("번호", "번호"));
    assert!(!text_eq("번호", "제목"));
    assert_eq!(chars_of("가나"), vec!['가', '나']);
}

#[test]
fn trim_agrees_with_std_on_unicode_white_space() {
    let spaces: Vec<char> = (0u32..0x3001)
        .filter_map(char::from_u32)
        .filter(|c| c.is_whitespace())
        .collect();
    let around: String = spaces.iter().collect();
    let text = format!("{around}\u{200b}x\u{feff}{around}");
    assert_eq!(trim_string(&text), text.trim());
    assert_eq!(trim_string(&around), around.trim());
}

#[test]
fn split_agrees_with_std() {
    let texts = ["", "a", "a-b-c", "--", "월월", "3월15일", "x:y::z:", "abab", "ababa"];
    let seps = ["-", ":", "월", "ab", "aba", "", "zz"];
    for t in texts {
        for p in seps {
            let std_parts: Vec<String> = t.split(p).map(|s| s.to_string()).collect();
            assert_eq!(split_string(t, p), std_parts, "text {t:?} separator {p:?}");
        }
    }
}

#[test]
fn pieces_are_one_more_than_occurrences() {
    for (t, p) in [("a-b-c", "-"), ("", "-"), ("aaaa", "aa"), ("ababa", "aba"), ("x", "y")] {
        assert_eq!(split_string(t, p).len(), t.matches(p).count() + 1, "{t:?} {p:?}");
    }
}
