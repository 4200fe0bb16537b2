use fcm::decimal::{read_digits, read_natural, signed_text, unsigned_text};
use fcm::text::{chars_of, is_space, same_text, second_word, stands_at};

#[test]
fn decimal_notation_of_signed_numbers() {
    assert_eq!(signed_text(0), "0");
    assert_eq!(signed_text(7), "7");
    assert_eq!(signed_text(10), "10");
    assert_eq!(signed_text(-1), "-1");
    assert_eq!(signed_text(-120), "-120");
    assert_eq!(signed_text(i64::MAX), "9223372036854775807");
    assert_eq!(signed_text(i64::MIN), "-9223372036854775808");
}

#[test]
fn decimal_notation_of_unsigned_numbers() {
    assert_eq!(unsigned_text(0), "0");
    assert_eq!(unsigned_text(9), "9");
    assert_eq!(unsigned_text(1000), "1000");
    assert_eq!(unsigned_text(u64::MAX), "18446744073709551615");
}

#[test]
fn digits_are_read_with_leading_zeros() {
    let chars: Vec<char> = "ab0042cd".chars().collect();
    assert_eq!(read_digits(&chars, 2, 6), Some(42));
    assert_eq!(read_digits(&chars, 2, 3), Some(0));
    assert_eq!(read_digits(&chars, 2, 2), None);
    assert_eq!(read_digits(&chars, 1, 6), None);
    assert_eq!(read_digits(&chars, 2, 7), None);
    assert_eq!(read_digits(&chars, 4, 3), None);
    assert_eq!(read_digits(&chars, 4, 9), None);
    assert_eq!(read_digits(&chars, 9, 12), None);
}

#[test]
fn digits_that_do_not_fit() {
    let chars: Vec<char> = "18446744073709551616".chars().collect();
    assert_eq!(read_digits(&chars, 0, chars.len()), None);
    assert_eq!(read_digits(&chars, 0, chars.len() - 1), Some(1844674407370955161));
    let chars: Vec<char> = "000000000000000000000018446744073709551615".chars().collect();
    assert_eq!(read_digits(&chars, 0, chars.len()), Some(u64::MAX));
}

#[test]
fn natural_numbers_have_no_leading_zero() {
    assert_eq!(read_natural("0"), Some(0));
    assert_eq!(read_natural("5"), Some(5));
    assert_eq!(read_natural("10"), Some(10));
    assert_eq!(read_natural("18446744073709551615"), Some(u64::MAX));
    assert_eq!(read_natural("18446744073709551616"), None);
    assert_eq!(read_natural("00"), None);
    assert_eq!(read_natural("05"), None);
    assert_eq!(read_natural(""), None);
    assert_eq!(read_natural("-5"), None);
    assert_eq!(read_natural("5.0"), None);
    assert_eq!(read_natural("1e3"), None);
}

#[test]
fn written_numbers_are_read_back() {
    for n in [0u64, 1, 9, 10, 99, 100, 12345, u64::MAX] {
        assert_eq!(read_natural(&unsigned_text(n)), Some(n));
    }
}

#[test]
fn characters_of_a_text() {
    assert_eq!(chars_of("aé\u{1F600}"), vec!['a', 'é', '\u{1F600}']);
    assert_eq!(chars_of(""), Vec::<char>::new());
}

#[test]
fn texts_are_compared() {
    assert!(same_text("abc", "abc"));
    assert!(!same_text("abc", "abd"));
    assert!(!same_text("abc", "ab"));
    assert!(same_text("", ""));
}

#[test]
fn word_stands_at_a_position() {
    let chars: Vec<char> = "Sun, 06 Nov".chars().collect();
    assert!(stands_at(&chars, 0, "Sun"));
    assert!(stands_at(&chars, 8, "Nov"));
    assert!(stands_at(&chars, 3, ", "));
    assert!(stands_at(&chars, 11, ""));
    assert!(!stands_at(&chars, 12, ""));
    assert!(!stands_at(&chars, 9, "Nov"));
    assert!(!stands_at(&chars, 8, "Nov "));
    assert!(!stands_at(&chars, 0, "Sat"));
    assert!(!stands_at(&chars, usize::MAX, "a"));
}

#[test]
fn white_space_is_what_the_standard_library_says() {
    for code in 0u32..=0x11_0000 {
        if let Some(c) = char::from_u32(code) {
            assert_eq!(is_space(c), c.is_whitespace(), "U+{:04X}", code);
        }
    }
}

#[test]
fn second_word_is_cut_as_split_cuts() {
    for text in ["Bearer abc", "a b c", "a  b", " a", "a ", "abc", "", "é\u{2003}ü\tz", "\n\n\n"] {
        let pieces: Vec<&str> = text.split(char::is_whitespace).collect();
        let expected = pieces.get(1).map(|p| p.to_string());
        assert_eq!(second_word(text), expected, "{:?}", text);
    }
}
