use midi_mapping_manager::message::MidiMessage;
use midi_mapping_manager::text::parse_unsigned;
use midi_mapping_manager::utils::{
    push_if_not_present, shortened_keyword_match, str_eq, str_starts_with, MMMErr,
};

const KEYWORDS: &[&str] = &["select", "delete", "series", "remove"];

#[test]
fn test_kwd_match() {
    assert_eq!(shortened_keyword_match("sel", KEYWORDS), Some(0));
    assert_eq!(shortened_keyword_match("se", KEYWORDS), None);
    assert_eq!(shortened_keyword_match("delete", KEYWORDS), Some(1));
    assert_eq!(shortened_keyword_match("d", KEYWORDS), Some(1));
    assert_eq!(shortened_keyword_match("r", KEYWORDS), Some(3));
    assert_eq!(shortened_keyword_match("a", KEYWORDS), None);
}

#[test]
fn midi_channels() {
    let m = MidiMessage::from_slice(0, &[0b1001_0000, 69, 69]).unwrap();
    assert_eq!(m.channel(), Some(1));
    assert_eq!(m.with_channel(8).channel(), Some(8));
}

#[test]
fn exact_match_wins_over_shared_prefix() {
    let options: &[&str] = &["list", "ls", "l"];
    assert_eq!(shortened_keyword_match("l", options), Some(2));
    assert_eq!(shortened_keyword_match("ls", options), Some(1));
    assert_eq!(shortened_keyword_match("li", options), Some(0));
}

#[test]
fn exact_match_wins_after_two_prefix_matches() {
    let options: &[&str] = &["series", "select", "se"];
    assert_eq!(shortened_keyword_match("se", options), Some(2));
    assert_eq!(shortened_keyword_match("s", options), None);
}

#[test]
fn first_of_equal_options_wins() {
    let options: &[&str] = &["foo", "bar", "foo"];
    assert_eq!(shortened_keyword_match("foo", options), Some(0));
    assert_eq!(shortened_keyword_match("fo", options), None);
    assert_eq!(shortened_keyword_match("b", options), Some(1));
}

#[test]
fn empty_keyword_and_empty_options() {
    let none: &[&str] = &[];
    assert_eq!(shortened_keyword_match("x", none), None);
    assert_eq!(shortened_keyword_match("", none), None);
    let one: &[&str] = &["only"];
    assert_eq!(shortened_keyword_match("", one), Some(0));
    assert_eq!(shortened_keyword_match("", KEYWORDS), None);
    let with_empty: &[&str] = &["a", "", "b"];
    assert_eq!(shortened_keyword_match("", with_empty), Some(1));
}

#[test]
fn keyword_longer_than_option_does_not_match() {
    assert_eq!(shortened_keyword_match("selects", KEYWORDS), None);
    assert_eq!(shortened_keyword_match("removed", KEYWORDS), None);
}

#[test]
fn keyword_match_counts_characters_not_bytes() {
    let options: &[&str] = &["äb", "äc", "zeta"];
    assert_eq!(shortened_keyword_match("ä", options), None);
    assert_eq!(shortened_keyword_match("äb", options), Some(0));
    assert_eq!(shortened_keyword_match("äc", options), Some(1));
    assert_eq!(shortened_keyword_match("z", options), Some(2));
}

#[test]
fn string_comparisons() {
    assert!(str_eq("abc", "abc"));
    assert!(!str_eq("abc", "abd"));
    assert!(!str_eq("abc", "ab"));
    assert!(str_eq("", ""));
    assert!(str_starts_with("abc", "ab"));
    assert!(str_starts_with("abc", ""));
    assert!(str_starts_with("abc", "abc"));
    assert!(!str_starts_with("abc", "abcd"));
    assert!(!str_starts_with("abc", "b"));
}

#[test]
fn push_if_not_present_keeps_elements_unique() {
    let mut v: Vec<u32> = Vec::new();
    push_if_not_present(3, &mut v);
    push_if_not_present(5, &mut v);
    push_if_not_present(3, &mut v);
    assert_eq!(v, vec![3, 5]);
    push_if_not_present(5, &mut v);
    push_if_not_present(0, &mut v);
    assert_eq!(v, vec![3, 5, 0]);
}

#[test]
fn push_if_not_present_on_strings() {
    let mut v: Vec<String> = vec!["a".to_string()];
    push_if_not_present("a".to_string(), &mut v);
    push_if_not_present("b".to_string(), &mut v);
    assert_eq!(v, vec!["a".to_string(), "b".to_string()]);
}

#[test]
fn parse_unsigned_reads_decimal_numbers() {
    assert_eq!(parse_unsigned("0", 255), Some(0));
    assert_eq!(parse_unsigned("12", 255), Some(12));
    assert_eq!(parse_unsigned("255", 255), Some(255));
    assert_eq!(parse_unsigned("+7", 255), Some(7));
    assert_eq!(parse_unsigned("0012", 255), Some(12));
    assert_eq!(parse_unsigned("4294967295", u32::MAX as u64), Some(4294967295));
    assert_eq!(parse_unsigned("18446744073709551615", u64::MAX), Some(u64::MAX));
}

#[test]
fn parse_unsigned_refuses_what_is_no_number() {
    assert_eq!(parse_unsigned("", 255), None);
    assert_eq!(parse_unsigned("+", 255), None);
    assert_eq!(parse_unsigned("-1", 255), None);
    assert_eq!(parse_unsigned("1a", 255), None);
    assert_eq!(parse_unsigned("a1", 255), None);
    assert_eq!(parse_unsigned(" 1", 255), None);
    assert_eq!(parse_unsigned("1 ", 255), None);
    assert_eq!(parse_unsigned("++1", 255), None);
    assert_eq!(parse_unsigned("١", 255), None);
}

#[test]
fn parse_unsigned_refuses_numbers_above_the_limit() {
    assert_eq!(parse_unsigned("256", 255), None);
    assert_eq!(parse_unsigned("4294967296", u32::MAX as u64), None);
    assert_eq!(parse_unsigned("18446744073709551616", u64::MAX), None);
    assert_eq!(parse_unsigned("99999999999999999999999999", u64::MAX), None);
    assert_eq!(parse_unsigned("17", 16), None);
    assert_eq!(parse_unsigned("16", 16), Some(16));
}

#[test]
fn parse_unsigned_agrees_with_the_standard_parser() {
    let samples = ["0", "7", "+7", "007", "255", "256", "", "+", "-0", "x", "1x", "300", "65"];
    for s in samples {
        assert_eq!(parse_unsigned(s, 255), s.parse::<u8>().ok().map(|n| n as u64));
    }
}

#[test]
fn error_messages() {
    assert_eq!(MMMErr::InitFailure.message(), "midi initialisation failure");
    assert_eq!(MMMErr::InputFailure.message(), "input connection failure");
    assert_eq!(MMMErr::OutputFailure.message(), "output connection failure");
    assert_eq!(MMMErr::PortInfoFailure.message(), "port information failure");
    assert_eq!(MMMErr::ArgError.message(), "argument error");
    assert_eq!(MMMErr::ParseError.message(), "parse error");
}
