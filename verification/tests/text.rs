use audio_convert_rs::text::{
    characters, contains, decimal_string, split_first, to_ascii_lowercase,
};

#[test]
fn decimals() {
    assert_eq!(decimal_string(0), "0");
    assert_eq!(decimal_string(7), "7");
    assert_eq!(decimal_string(10), "10");
    assert_eq!(decimal_string(65535), "65535");
    assert_eq!(decimal_string(-1), "-1");
    assert_eq!(decimal_string(i64::MAX), "9223372036854775807");
    assert_eq!(decimal_string(i64::MIN), "-9223372036854775808");
}

#[test]
fn characters_in_order() {
    assert_eq!(characters("a\u{e9}="), vec!['a', '\u{e9}', '=']);
    assert_eq!(characters(""), Vec::<char>::new());
}

#[test]
fn substrings() {
    assert!(contains("libmp3lame MP3", "mp3"));
    assert!(contains("mp3", "mp3"));
    assert!(contains("x", ""));
    assert!(contains("mmp3", "mp3"));
    assert!(!contains("MP3", "mp3"));
    assert!(!contains("mp", "mp3"));
    assert!(!contains("", "mp3"));
}

#[test]
fn splits_at_first_separator() {
    let pair = |key: &str, value: &str| (key.to_string(), value.to_string());
    assert_eq!(split_first("a=b", '='), pair("a", "b"));
    assert_eq!(split_first("a=b=c", '='), pair("a", "b=c"));
    assert_eq!(split_first("abc", '='), pair("abc", ""));
    assert_eq!(split_first("=b", '='), pair("", "b"));
    assert_eq!(split_first("", '='), pair("", ""));
}

#[test]
fn lower_case() {
    assert_eq!(to_ascii_lowercase("MP3"), "mp3");
    assert_eq!(to_ascii_lowercase("@AZ[`az{"), "@az[`az{");
    assert_eq!(to_ascii_lowercase("\u{c4}\u{3a9}Q"), "\u{c4}\u{3a9}q");
    assert_eq!(to_ascii_lowercase(""), "");
    for code in 0..=255u8 {
        let text = (code as char).to_string();
        assert_eq!(to_ascii_lowercase(&text), text.to_ascii_lowercase());
    }
}
