use discord_streamable_bot::shortcode::{extract_streamable_shortcode, is_shortcode_char};
use regex::Regex;

#[test]
fn run_stops_at_hyphen() {
    let r = extract_streamable_shortcode("see https://streamable.com/test-123");
    assert_eq!(r, Some("test".to_string()));
}

#[test]
fn run_stops_at_uppercase() {
    let r = extract_streamable_shortcode("https://streamable.com/abC12");
    assert_eq!(r, Some("ab".to_string()));
}

#[test]
fn uppercase_then_later_valid_link() {
    let r = extract_streamable_shortcode("https://streamable.com/ABC and https://streamable.com/ok1");
    assert_eq!(r, Some("ok1".to_string()));
}

#[test]
fn empty_text_has_no_code() {
    assert_eq!(extract_streamable_shortcode(""), None);
}

#[test]
fn marker_needs_https_and_exact_case() {
    assert_eq!(extract_streamable_shortcode("http://streamable.com/abc"), None);
    assert_eq!(extract_streamable_shortcode("https://Streamable.com/abc"), None);
    assert_eq!(extract_streamable_shortcode("https://streamableXcom/abc"), None);
}

#[test]
fn non_ascii_text_around_link() {
    let r = extract_streamable_shortcode("⏬ über https://streamable.com/zz9é done");
    assert_eq!(r, Some("zz9".to_string()));
}

#[test]
fn overlapping_marker_prefix() {
    let r = extract_streamable_shortcode("https://https://streamable.com/q");
    assert_eq!(r, Some("q".to_string()));
}

#[test]
fn shortcode_char_class() {
    assert!(is_shortcode_char('a'));
    assert!(is_shortcode_char('z'));
    assert!(is_shortcode_char('0'));
    assert!(is_shortcode_char('9'));
    assert!(!is_shortcode_char('A'));
    assert!(!is_shortcode_char('-'));
    assert!(!is_shortcode_char('/'));
    assert!(!is_shortcode_char('é'));
}

#[test]
fn agrees_with_the_link_regex() {
    let re = Regex::new(r"https://streamable\.com/([a-z0-9]+)").unwrap();
    let texts = [
        "",
        "https://streamable.com/",
        "https://streamable.com/a",
        "xx https://streamable.com/ab_cd https://streamable.com/ef",
        "https://streamable.com/UP https://streamable.com/low",
        "https://streamable.com/https://streamable.com/abc",
        "https://streamable.com//x https://streamable.com/0",
        "prefix https://streamable.com/123abc456?query=1",
        "ünïcödé https://streamable.com/é https://streamable.com/e",
    ];
    for t in texts.iter() {
        let expected = re.captures(t).map(|c| c.get(1).unwrap().as_str().to_string());
        assert_eq!(extract_streamable_shortcode(t), expected, "text: {}", t);
    }
}
