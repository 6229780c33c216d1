use gemini_orchestration::text::{
    contains_text, decimal_text, join, lines, parse_usize, replace, signed_decimal_text,
    size_of_text, split_whitespace, take_bytes_at_char_boundary, to_lower, trim, truncate_text,
};
use gemini_orchestration::text_order::{not_after, sort_texts};
use gemini_orchestration::token_usage::{
    saturating_difference, saturating_sum, TokenUsage,
};

#[test]
fn texts_are_cut_at_character_boundaries() {
    assert_eq!(take_bytes_at_char_boundary("aé€b", 0), "");
    assert_eq!(take_bytes_at_char_boundary("aé€b", 2), "a");
    assert_eq!(take_bytes_at_char_boundary("aé€b", 3), "aé");
    assert_eq!(take_bytes_at_char_boundary("aé€b", 5), "aé");
    assert_eq!(take_bytes_at_char_boundary("aé€b", 99), "aé€b");
    assert_eq!(size_of_text("aé€😀"), 10);
    assert_eq!(truncate_text("abc", 3), "abc");
    assert_eq!(truncate_text("abcd", 3), "abc\n[truncated]");
    assert_eq!(truncate_text("é", 1), "\n[truncated]");
}

#[test]
fn texts_agree_with_the_standard_library() {
    for text in [
        "",
        " ",
        "\u{a0}a\u{2003}b \n",
        "one\r\ntwo\n\nthree\r",
        "\u{85}x\u{3000}",
        "\u{200b}y\u{feff}",
        "Ärger ÀB zZ",
        "a&amp;amp;b",
        "\n",
        "tail\r\n",
    ] {
        assert_eq!(trim(text), text.trim(), "{text:?}");
        assert_eq!(
            split_whitespace(text),
            text.split_whitespace()
                .map(str::to_string)
                .collect::<Vec<_>>(),
            "{text:?}"
        );
        assert_eq!(
            lines(text),
            text.lines().map(str::to_string).collect::<Vec<_>>(),
            "{text:?}"
        );
        assert_eq!(to_lower(text), text.to_ascii_lowercase(), "{text:?}");
        assert_eq!(replace(text, "&amp;", "&"), text.replace("&amp;", "&"));
        assert_eq!(contains_text(text, "mp;"), text.contains("mp;"));
        assert!(contains_text(text, ""));
    }
    assert_eq!(replace("aaaa", "aa", "b"), "bb");
    assert_eq!(
        join(&vec!["a".to_string(), String::new(), "b".to_string()], ", "),
        "a, , b"
    );
}

#[test]
fn numbers_are_written_and_read() {
    assert_eq!(decimal_text(0), "0");
    assert_eq!(decimal_text(u64::MAX), u64::MAX.to_string());
    assert_eq!(signed_decimal_text(i64::MIN), i64::MIN.to_string());
    assert_eq!(signed_decimal_text(-40), "-40");
    for text in [
        "0", "007", "+5", "+", "", "-1", "1 ", "18446744073709551615", "18446744073709551616", "1_0",
    ] {
        assert_eq!(parse_usize(text), text.parse::<usize>().ok(), "{text:?}");
    }
}

#[test]
fn labels_are_sorted_as_strings() {
    let labels = ["b", "", "ab", "é", "a", "Z", "b"];
    let mut expected: Vec<String> = labels.iter().map(|label| label.to_string()).collect();
    expected.sort_unstable();
    assert_eq!(
        sort_texts(labels.iter().map(|label| label.to_string()).collect()),
        expected
    );
    assert!(not_after("a", "ab"));
    assert!(!not_after("b", "ab"));
}

#[test]
fn counts_saturate() {
    assert_eq!(saturating_sum(i64::MAX, 1), i64::MAX);
    assert_eq!(saturating_sum(-3, 1), -2);
    assert_eq!(saturating_difference(i64::MIN, 1), i64::MIN);
    assert_eq!(saturating_difference(i64::MAX, -1), i64::MAX);
    let usage = TokenUsage {
        input_tokens: 5,
        cached_input_tokens: -9,
        ..TokenUsage::default()
    };
    assert_eq!(usage.non_cached_input(), 5);
    let usage = TokenUsage {
        cached_input_tokens: 8,
        ..usage
    };
    assert_eq!(usage.non_cached_input(), 0);
}
