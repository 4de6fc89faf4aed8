use tunwatch::text::{chars_of, contains, contains_chars, equal, matches_at};
use tunwatch::trigger::{is_trigger, TRIGGER};

#[test]
fn chars_are_decoded_in_order() {
    assert_eq!(chars_of(""), Vec::<char>::new());
    assert_eq!(chars_of("ab"), vec!['a', 'b']);
    assert_eq!(chars_of("é✓z"), vec!['é', '✓', 'z']);
}

#[test]
fn equality_is_by_characters() {
    assert!(equal("", ""));
    assert!(equal("utun", "utun"));
    assert!(!equal("utun", "utun3"));
    assert!(!equal("utun3", "utun"));
    assert!(!equal("utun", "Utun"));
}

#[test]
fn match_at_a_position() {
    let hay = chars_of("abcabc");
    let needle = chars_of("bc");
    assert!(!matches_at(&hay, &needle, 0));
    assert!(matches_at(&hay, &needle, 1));
    assert!(matches_at(&hay, &needle, 4));
    assert!(matches_at(&hay, &Vec::new(), 6));
}

#[test]
fn substring_search() {
    assert!(contains("abc", ""));
    assert!(contains("", ""));
    assert!(!contains("", "a"));
    assert!(contains("abc", "abc"));
    assert!(contains("abc", "c"));
    assert!(contains("aab", "ab"));
    assert!(!contains("abc", "abcd"));
    assert!(!contains("abc", "ca"));
    assert!(contains_chars(&chars_of("héllo"), &chars_of("éll")));
}

#[test]
fn trigger_text_is_fixed() {
    assert_eq!(TRIGGER, "[TUN] Tun adapter listening at: utun");
}

#[test]
fn trigger_is_found_anywhere_in_a_line() {
    assert!(is_trigger("[TUN] Tun adapter listening at: utun"));
    assert!(is_trigger("[TUN] Tun adapter listening at: utun4"));
    assert!(is_trigger(
        r#"time="2024-05-01T12:00:00.123+08:00" level=info msg="[TUN] Tun adapter listening at: utun7""#
    ));
    assert!(is_trigger("前缀 [TUN] Tun adapter listening at: utun 后缀"));
}

#[test]
fn near_misses_are_no_trigger() {
    assert!(!is_trigger(""));
    assert!(!is_trigger("[TUN] Tun adapter listening at: utu"));
    assert!(!is_trigger("[tun] tun adapter listening at: utun"));
    assert!(!is_trigger("[TUN] Tun adapter listening at:  utun"));
    assert!(!is_trigger("Tun adapter listening"));
}
