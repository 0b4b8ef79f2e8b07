use holler::text::{
    blank, count_words, is_whitespace, join, precedes, same, split_on, to_ascii_lowercase,
    to_ascii_uppercase, to_decimal, to_padded_int, trim,
};

#[test]
fn white_space_is_that_of_unicode() {
    for n in 0..=0x10ffffu32 {
        if let Some(c) = char::from_u32(n) {
            assert_eq!(is_whitespace(c), c.is_whitespace(), "U+{n:04X}");
        }
    }
}

#[test]
fn trimming_agrees_with_std() {
    for s in ["", "  ", " a b ", "\u{a0}x\u{2028}", "nothing", "\tx"] {
        assert_eq!(trim(s), s.trim());
        assert_eq!(trim(trim(s)), trim(s));
        assert_eq!(blank(s), s.trim().is_empty());
        assert_eq!(count_words(s), s.split_whitespace().count() as u64);
    }
}

#[test]
fn case_is_changed_in_ascii_only() {
    assert_eq!(to_ascii_uppercase("abc-é"), "ABC-é");
    assert_eq!(to_ascii_lowercase("ABC-É"), "abc-É");
}

#[test]
fn numbers_are_written_in_decimal() {
    assert_eq!(to_decimal(0), "0");
    assert_eq!(to_decimal(u64::MAX), u64::MAX.to_string());
    assert_eq!(to_padded_int(7, 4), "0007");
    assert_eq!(to_padded_int(-7, 4), "-007");
}

#[test]
fn splitting_and_joining_are_inverse() {
    for s in ["a+b+c", "", "+", "a++b"] {
        assert_eq!(split_on(s, '+'), s.split('+').map(|p| p.to_string()).collect::<Vec<_>>());
        assert_eq!(join(&split_on(s, '+'), "+"), s);
    }
}

#[test]
fn texts_are_ordered_as_in_std() {
    let list = ["", "a", "ab", "b", "é", "Z"];
    for a in list {
        for b in list {
            assert_eq!(precedes(a, b), a < b);
            assert_eq!(same(a, b), a == b);
        }
    }
}
