use blawgd::post::{
    like_button_element_id, like_content_element_id, next_like_label, next_repost_label,
    repost_button_element_id, repost_content_element_id,
};
use blawgd::text::{i64_text, parse_i32, same_text, starts_with, strip_prefix, strip_suffix, u64_text};

#[test]
fn decimal_text_matches_to_string() {
    for n in [0u64, 1, 9, 10, 11, 99, 100, 12345, u64::MAX] {
        assert_eq!(u64_text(n), n.to_string());
    }
    for n in [0i64, -1, 7, -10, 1000, i64::MIN, i64::MAX] {
        assert_eq!(i64_text(n), n.to_string());
    }
}

#[test]
fn parse_matches_std() {
    let cases = [
        "", "0", "-0", "+0", "+", "-", "12", "-12", "+12", "007", "1 ", " 1", "1a", "a1",
        "2147483647", "2147483648", "-2147483648", "-2147483649", "99999999999999999999",
        "--1", "+-1", "١٢", "12\n", "0000000000000000000000000001",
    ];
    for c in cases {
        assert_eq!(parse_i32(c), c.parse::<i32>().ok(), "input {:?}", c);
    }
}

#[test]
fn parse_reads_back_every_text() {
    for n in [i32::MIN, -1, 0, 1, 42, i32::MAX] {
        assert_eq!(parse_i32(&n.to_string()), Some(n));
        assert_eq!(parse_i32(&i64_text(n as i64)), Some(n));
    }
}

#[test]
fn prefix_and_suffix() {
    assert_eq!(strip_prefix("abc", "ab"), Some("c"));
    assert_eq!(strip_prefix("abc", "abc"), Some(""));
    assert_eq!(strip_prefix("abc", "b"), None);
    assert_eq!(strip_prefix("ab", "abc"), None);
    assert_eq!(strip_suffix("12 Likes", " Likes"), Some("12"));
    assert_eq!(strip_suffix("12 likes", " Likes"), None);
    assert_eq!(strip_suffix("é Likes", " Likes"), Some("é"));
    assert!(starts_with("login/x", "login"));
    assert!(!starts_with("logi", "login"));
    assert!(same_text("ab", "ab"));
    assert!(!same_text("ab", "abc"));
    assert!(!same_text("ab", "ac"));
}

#[test]
fn like_click_counts_one_more() {
    assert_eq!(next_like_label("0 Likes"), Some("1 Likes".to_string()));
    assert_eq!(next_like_label("41 Likes"), Some("42 Likes".to_string()));
    assert_eq!(next_like_label("-5 Likes"), Some("-4 Likes".to_string()));
    // without the word the counter reads as 0
    assert_eq!(next_like_label("whatever"), Some("1 Likes".to_string()));
    assert_eq!(next_like_label(""), Some("1 Likes".to_string()));
    // a number that cannot be read is refused
    assert_eq!(next_like_label("x Likes"), None);
    assert_eq!(next_like_label(" Likes"), None);
    assert_eq!(next_like_label("2147483648 Likes"), None);
    assert_eq!(next_like_label("2147483646 Likes"), Some("2147483647 Likes".to_string()));
}

#[test]
fn repost_click_counts_one_more() {
    assert_eq!(next_repost_label("0 Reposts"), "1 Reposts");
    assert_eq!(next_repost_label("9 Reposts"), "10 Reposts");
    // what cannot be read counts as no repost
    assert_eq!(next_repost_label("x Reposts"), "1 Reposts");
    assert_eq!(next_repost_label("Reposts"), "1 Reposts");
    assert_eq!(next_repost_label("3 Likes"), "1 Reposts");
}

#[test]
fn counter_round_trip() {
    for n in [0i32, 1, 99, -3, 123456] {
        assert_eq!(next_like_label(&format!("{} Likes", n)), Some(format!("{} Likes", n + 1)));
        assert_eq!(next_repost_label(&format!("{} Reposts", n)), format!("{} Reposts", n + 1));
    }
}

#[test]
fn element_ids() {
    assert_eq!(like_button_element_id("7"), "post-7-like");
    assert_eq!(like_content_element_id("7"), "post-7-like-content");
    assert_eq!(repost_button_element_id("7"), "post-7-repost");
    assert_eq!(repost_content_element_id("7"), "post-7-repost-content");
}
