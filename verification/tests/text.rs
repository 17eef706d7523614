use geoplegma::models::{RefinementLevel, RelativeDepth, ZoneId};
use geoplegma::registry::DggrsUid;
use geoplegma::text::{
    chars_of, append_chars, decimal_of, parse_decimal, parse_hex, same_chars, split_lines,
    split_whitespace, string_of, to_lowercase, trim, whitespace,
};

fn chars(s: &str) -> Vec<char> {
    s.chars().collect()
}

fn strings(v: Vec<Vec<char>>) -> Vec<String> {
    v.into_iter().map(|c| c.into_iter().collect()).collect()
}

#[test]
fn characters_and_strings() {
    assert_eq!(chars_of("aé→z"), vec!['a', 'é', '→', 'z']);
    assert_eq!(string_of(&chars("héllo")), "héllo");
    assert_eq!(append_chars(&chars("ab"), &chars("cd")), chars("abcd"));
    assert!(same_chars(&chars("abc"), &chars("abc")));
    assert!(!same_chars(&chars("abc"), &chars("abd")));
    assert!(!same_chars(&chars("abc"), &chars("ab")));
    assert_eq!(to_lowercase(&chars("ISEA3H-x_Ä")), chars("isea3h-x_Ä"));
}

#[test]
fn white_space_is_that_of_unicode() {
    for c in ['\t', '\n', '\u{b}', '\u{c}', '\r', ' ', '\u{85}', '\u{a0}', '\u{1680}', '\u{2003}', '\u{2028}', '\u{2029}', '\u{202f}', '\u{205f}', '\u{3000}'] {
        assert!(whitespace(c), "{:?}", c);
        assert!(c.is_whitespace());
    }
    for c in ['a', '0', '\u{200b}', '\u{1c}', '_', '\u{feff}'] {
        assert_eq!(whitespace(c), c.is_whitespace(), "{:?}", c);
    }
}

#[test]
fn lines_end_at_line_feeds() {
    assert_eq!(strings(split_lines(&chars("a\nb\n"))), vec!["a", "b"]);
    assert_eq!(strings(split_lines(&chars("a\n\nb"))), vec!["a", "", "b"]);
    assert_eq!(strings(split_lines(&chars("\n"))), vec![""]);
    assert!(split_lines(&chars("")).is_empty());
    assert_eq!(strings(split_lines(&chars("one line"))), vec!["one line"]);
}

#[test]
fn tokens_are_runs_without_white_space() {
    assert_eq!(strings(split_whitespace(&chars("  a bc\t d\r"))), vec!["a", "bc", "d"]);
    assert!(split_whitespace(&chars(" \t ")).is_empty());
    assert!(split_whitespace(&chars("")).is_empty());
    assert_eq!(strings(split_whitespace(&chars("END"))), vec!["END"]);
}

#[test]
fn trimming() {
    assert_eq!(trim(&chars("  a b \n")), chars("a b"));
    assert_eq!(trim(&chars("ab")), chars("ab"));
    assert!(trim(&chars(" \t ")).is_empty());
    assert!(trim(&chars("")).is_empty());
    assert_eq!(trim(&chars("\u{3000}x\u{a0}")), chars("x"));
}

#[test]
fn decimal_numerals() {
    assert_eq!(parse_decimal(&chars("0")), Some(0));
    assert_eq!(parse_decimal(&chars("0042")), Some(42));
    assert_eq!(parse_decimal(&chars("18446744073709551615")), Some(u64::MAX));
    assert_eq!(parse_decimal(&chars("18446744073709551616")), None);
    assert_eq!(parse_decimal(&chars("99999999999999999999999")), None);
    assert_eq!(parse_decimal(&chars("")), None);
    assert_eq!(parse_decimal(&chars("+1")), None);
    assert_eq!(parse_decimal(&chars("1a")), None);
    assert_eq!(decimal_of(0), chars("0"));
    assert_eq!(decimal_of(907), chars("907"));
    assert_eq!(decimal_of(u64::MAX), chars("18446744073709551615"));
}

#[test]
fn hexadecimal_numerals() {
    assert_eq!(parse_hex(&chars("0")), Some(0));
    assert_eq!(parse_hex(&chars("fF")), Some(255));
    assert_eq!(parse_hex(&chars("ffffffffffffffff")), Some(u64::MAX));
    assert_eq!(parse_hex(&chars("0ffffffffffffffff")), Some(u64::MAX));
    assert_eq!(parse_hex(&chars("10000000000000000")), None);
    assert_eq!(parse_hex(&chars("")), None);
    assert_eq!(parse_hex(&chars("0x1")), None);
}

#[test]
fn standard_conversions() {
    assert_eq!("42".parse::<ZoneId>().unwrap(), ZoneId::new_int(42));
    assert_eq!("beef".parse::<ZoneId>().unwrap(), ZoneId::new_hex("beef").unwrap());
    assert_eq!("igeo7".parse::<DggrsUid>().unwrap(), DggrsUid::IGEO7);
    assert!("".parse::<DggrsUid>().is_err());
    assert_eq!(RefinementLevel::try_from(5).unwrap().get(), 5);
    assert!(RefinementLevel::try_from(-5).is_err());
    assert_eq!(RelativeDepth::try_from(0).unwrap().get(), 0);
    assert!(RelativeDepth::try_from(-1).is_err());
    assert_eq!(u8::try_from(RefinementLevel::new(30).unwrap()).unwrap(), 30);
    assert!(u8::try_from(RefinementLevel::new(300).unwrap()).is_err());
    assert_eq!(u8::try_from(RelativeDepth::new(8).unwrap()).unwrap(), 8);
    assert!(u8::try_from(RelativeDepth::new(256).unwrap()).is_err());
}
